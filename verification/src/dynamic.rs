//! A dynamic representation of an API object: type information,
//! metadata, and an arbitrary JSON payload carried opaquely.

use crate::json::{
    json_object_of, json_string_of, obj_clone, obj_get, obj_insert, obj_model, obj_new,
    obj_remove, value_as_string, value_from_object, value_from_string, value_into_object,
};
use crate::resource::ApiResource;
use vstd::prelude::*;
use vstd::string::*;

verus! {

broadcast use vstd::string::group_string_axioms;

/// The type fields of the standard object envelope.
#[derive(Debug, Clone)]
pub struct TypeMeta {
    /// The `apiVersion` the object was addressed under.
    pub api_version: String,
    /// The object's kind.
    pub kind: String,
}

/// The standard object metadata. Only the name and the namespace are
/// read by this crate; every metadata entry the server sent, these two
/// included, is kept verbatim in `entries` so nothing is lost on a
/// round trip.
#[derive(Debug)]
pub struct ObjectMeta {
    /// The object's name, when the metadata holds one.
    pub name: Option<String>,
    /// The object's namespace, when the metadata holds one.
    pub namespace: Option<String>,
    /// All metadata entries, as the server sent them.
    pub entries: serde_json::Map<String, serde_json::Value>,
}

/// Whether `field` mirrors the string entry of `entries` under `key`:
/// present with exactly those characters, or absent together.
pub open spec fn meta_string_field(
    entries: Map<Seq<char>, serde_json::Value>,
    key: Seq<char>,
    field: Option<String>,
) -> bool {
    match field {
        Some(s) => entries.contains_key(key) && entries[key] == json_string_of(s@),
        None => !entries.contains_key(key),
    }
}

impl ObjectMeta {
    /// The extracted name and namespace agree with the stored entries.
    pub open spec fn wf(self) -> bool {
        &&& meta_string_field(obj_model(self.entries), "name"@, self.name)
        &&& meta_string_field(obj_model(self.entries), "namespace"@, self.namespace)
    }
}

/// A dynamic representation of an API object.
///
/// This will work with any non-list type object.
#[derive(Debug)]
pub struct DynamicObject {
    /// The type fields, not always present
    pub types: Option<TypeMeta>,
    /// Object metadata
    pub metadata: ObjectMeta,
    /// All other keys of the object, carried opaquely.
    pub data: serde_json::Map<String, serde_json::Value>,
}

/// Why a raw object could not be taken apart into the envelope.
#[derive(Debug, Clone, Copy, PartialEq, Eq, Structural)]
pub enum ParseError {
    /// The object has no `metadata` key.
    MissingMetadata,
    /// The `metadata` value is not an object.
    MetadataNotObject,
    /// The `metadata.name` value is not a string.
    NameNotString,
    /// The `metadata.namespace` value is not a string.
    NamespaceNotString,
}

/// Whether `m` holds both envelope type keys with string values.
pub open spec fn type_info_present(m: Map<Seq<char>, serde_json::Value>) -> bool {
    &&& m.contains_key("apiVersion"@) && (exists|s: Seq<char>|
        m["apiVersion"@] == json_string_of(s))
    &&& m.contains_key("kind"@) && (exists|s: Seq<char>| m["kind"@] == json_string_of(s))
}

/// What parsing top-level entries `m` into `obj` means: the metadata
/// entry is the object of the stored metadata entries, the type fields
/// are taken out exactly when both are present as strings, and every
/// remaining entry is payload, untouched.
pub open spec fn parsed_from(m: Map<Seq<char>, serde_json::Value>, obj: DynamicObject) -> bool {
    &&& obj.metadata.wf()
    &&& m.contains_key("metadata"@)
    &&& m["metadata"@] == json_object_of(obj_model(obj.metadata.entries))
    &&& match obj.types {
        Some(tm) => {
            &&& m.contains_key("apiVersion"@) && m["apiVersion"@] == json_string_of(
                tm.api_version@,
            )
            &&& m.contains_key("kind"@) && m["kind"@] == json_string_of(tm.kind@)
            &&& obj_model(obj.data) == m.remove("metadata"@).remove("apiVersion"@).remove(
                "kind"@,
            )
        },
        None => {
            &&& !type_info_present(m)
            &&& obj_model(obj.data) == m.remove("metadata"@)
        },
    }
}

/// The top-level entries serializing `obj` produces: the payload, the
/// metadata object, and — only when present — the type fields, merged
/// at sibling level.
pub open spec fn serialized(obj: DynamicObject) -> Map<Seq<char>, serde_json::Value> {
    let base = obj_model(obj.data).insert(
        "metadata"@,
        json_object_of(obj_model(obj.metadata.entries)),
    );
    match obj.types {
        Some(tm) => base.insert("apiVersion"@, json_string_of(tm.api_version@)).insert(
            "kind"@,
            json_string_of(tm.kind@),
        ),
        None => base,
    }
}

/// The three envelope keys differ from one another.
proof fn lemma_envelope_keys()
    ensures
        "metadata"@ != "apiVersion"@,
        "metadata"@ != "kind"@,
        "apiVersion"@ != "kind"@,
        "name"@ != "namespace"@,
{
    reveal_strlit("metadata");
    reveal_strlit("apiVersion");
    reveal_strlit("kind");
    reveal_strlit("name");
    reveal_strlit("namespace");
    assert("metadata"@.len() == 8);
    assert("apiVersion"@.len() == 10);
    assert("kind"@.len() == 4);
    assert("name"@.len() == 4);
    assert("namespace"@.len() == 9);
}

/// Round trip: serializing a parsed object reproduces every top-level
/// entry the server sent, the payload included, with nothing reordered
/// into a nested key or dropped.
pub proof fn lemma_round_trip(m: Map<Seq<char>, serde_json::Value>, obj: DynamicObject)
    requires
        parsed_from(m, obj),
    ensures
        serialized(obj) == m,
{
    lemma_envelope_keys();
    match obj.types {
        Some(tm) => {
            assert(serialized(obj) =~= m);
        },
        None => {
            assert(serialized(obj) =~= m);
        },
    }
}

/// The polymorphic contract a resource representation satisfies,
/// parameterized by a dynamic-type value: a compiled-in typed resource
/// uses a zero-information marker whose methods return constants, while
/// a dynamic object uses [`ApiResource`] itself and reads its fields.
/// Generic request construction is written against this interface, not
/// against either concrete type.
pub trait Resource {
    /// The type information a caller must supply alongside an object
    /// instance.
    type DynamicType;

    /// The group the dynamic type describes.
    spec fn spec_group(dt: &Self::DynamicType) -> Seq<char>;

    /// The version the dynamic type describes.
    spec fn spec_version(dt: &Self::DynamicType) -> Seq<char>;

    /// The kind the dynamic type describes.
    spec fn spec_kind(dt: &Self::DynamicType) -> Seq<char>;

    /// The derived apiVersion the dynamic type describes.
    spec fn spec_api_version(dt: &Self::DynamicType) -> Seq<char>;

    /// The plural path segment the dynamic type describes.
    spec fn spec_plural(dt: &Self::DynamicType) -> Seq<char>;

    /// Returns group of resource
    fn group(dt: &Self::DynamicType) -> (r: String)
        ensures
            r@ == Self::spec_group(dt),
    ;

    /// Returns version of resource
    fn version(dt: &Self::DynamicType) -> (r: String)
        ensures
            r@ == Self::spec_version(dt),
    ;

    /// Returns kind of resource
    fn kind(dt: &Self::DynamicType) -> (r: String)
        ensures
            r@ == Self::spec_kind(dt),
    ;

    /// Returns apiVersion of resource
    fn api_version(dt: &Self::DynamicType) -> (r: String)
        ensures
            r@ == Self::spec_api_version(dt),
    ;

    /// Returns plural name of resource
    fn plural(dt: &Self::DynamicType) -> (r: String)
        ensures
            r@ == Self::spec_plural(dt),
    ;

    /// Metadata that all persisted resources must have
    fn meta(&self) -> (r: &ObjectMeta);
}

impl Resource for DynamicObject {
    type DynamicType = ApiResource;

    open spec fn spec_group(dt: &ApiResource) -> Seq<char> {
        dt.group@
    }

    open spec fn spec_version(dt: &ApiResource) -> Seq<char> {
        dt.version@
    }

    open spec fn spec_kind(dt: &ApiResource) -> Seq<char> {
        dt.kind@
    }

    open spec fn spec_api_version(dt: &ApiResource) -> Seq<char> {
        dt.api_version@
    }

    open spec fn spec_plural(dt: &ApiResource) -> Seq<char> {
        dt.plural_name@
    }

    fn group(dt: &ApiResource) -> (r: String) {
        dt.group.clone()
    }

    fn version(dt: &ApiResource) -> (r: String) {
        dt.version.clone()
    }

    fn kind(dt: &ApiResource) -> (r: String) {
        dt.kind.clone()
    }

    fn api_version(dt: &ApiResource) -> (r: String) {
        dt.api_version.clone()
    }

    fn plural(dt: &ApiResource) -> (r: String) {
        dt.plural_name.clone()
    }

    fn meta(&self) -> (r: &ObjectMeta) {
        &self.metadata
    }
}

impl DynamicObject {
    /// The extracted metadata fields agree with the stored entries.
    pub open spec fn wf(self) -> bool {
        self.metadata.wf()
    }

    /// Create a DynamicObject with minimal values set from ApiResource.
    pub fn new(name: &str, resource: &ApiResource) -> (r: DynamicObject)
        ensures
            r.wf(),
            r.types matches Some(tm) && tm.api_version@ == resource.api_version@ && tm.kind@
                == resource.kind@,
            r.metadata.name matches Some(n) && n@ == name@,
            r.metadata.namespace is None,
            obj_model(r.metadata.entries) == Map::<Seq<char>, serde_json::Value>::empty().insert(
                "name"@,
                json_string_of(name@),
            ),
            obj_model(r.data) == Map::<Seq<char>, serde_json::Value>::empty(),
    {
        let mut entries = obj_new();
        let nv = value_from_string(name);
        obj_insert(&mut entries, "name", nv);
        proof {
            lemma_envelope_keys();
        }
        DynamicObject {
            types: Some(
                TypeMeta {
                    api_version: resource.api_version.clone(),
                    kind: resource.kind.clone(),
                },
            ),
            metadata: ObjectMeta { name: Some(name.to_owned()), namespace: None, entries },
            data: obj_new(),
        }
    }

    /// Attach payload entries to a DynamicObject.
    pub fn data(self, data: serde_json::Map<String, serde_json::Value>) -> (r: DynamicObject)
        ensures
            r.types == self.types,
            r.metadata == self.metadata,
            r.data == data,
    {
        DynamicObject { types: self.types, metadata: self.metadata, data }
    }

    /// Attach a namespace to a DynamicObject: it is written into the
    /// metadata entries and mirrored in the extracted field.
    pub fn namespace(self, ns: &str) -> (r: DynamicObject)
        ensures
            r.types == self.types,
            r.data == self.data,
            r.metadata.name == self.metadata.name,
            r.metadata.namespace matches Some(n) && n@ == ns@,
            obj_model(r.metadata.entries) == obj_model(self.metadata.entries).insert(
                "namespace"@,
                json_string_of(ns@),
            ),
            self.wf() ==> r.wf(),
    {
        let mut out = self;
        let v = value_from_string(ns);
        obj_insert(&mut out.metadata.entries, "namespace", v);
        out.metadata.namespace = Some(ns.to_owned());
        proof {
            lemma_envelope_keys();
        }
        out
    }

    /// Takes a raw object's top-level entries apart into the envelope:
    /// the `metadata` object (required), the type fields (kept only
    /// when both are strings; otherwise they stay in the payload), and
    /// the opaque payload. Each error names the entry that broke the
    /// envelope contract.
    pub fn from_object(m: serde_json::Map<String, serde_json::Value>) -> (r: Result<
        DynamicObject,
        ParseError,
    >)
        ensures
            match r {
                Ok(obj) => parsed_from(obj_model(m), obj),
                Err(e) => match e {
                    ParseError::MissingMetadata => !obj_model(m).contains_key("metadata"@),
                    ParseError::MetadataNotObject => obj_model(m).contains_key("metadata"@) && (
                    forall|e: Map<Seq<char>, serde_json::Value>|
                        e.dom().finite() ==> obj_model(m)["metadata"@] != json_object_of(e)),
                    ParseError::NameNotString => exists|me: Map<Seq<char>, serde_json::Value>|
                        {
                            &&& obj_model(m).contains_key("metadata"@)
                            &&& obj_model(m)["metadata"@] == json_object_of(me)
                            &&& me.contains_key("name"@)
                            &&& forall|t: Seq<char>| #[trigger]
                                json_string_of(t) != me["name"@]
                        },
                    ParseError::NamespaceNotString => exists|
                        me: Map<Seq<char>, serde_json::Value>,
                    |
                        {
                            &&& obj_model(m).contains_key("metadata"@)
                            &&& obj_model(m)["metadata"@] == json_object_of(me)
                            &&& me.contains_key("namespace"@)
                            &&& forall|t: Seq<char>| #[trigger]
                                json_string_of(t) != me["namespace"@]
                        },
                },
            },
    {
        let mut rest = m;
        proof {
            lemma_envelope_keys();
        }
        let meta_value = match obj_remove(&mut rest, "metadata") {
            Some(v) => v,
            None => {
                return Err(ParseError::MissingMetadata);
            },
        };
        let meta_entries = match value_into_object(meta_value) {
            Ok(me) => me,
            Err(_) => {
                return Err(ParseError::MetadataNotObject);
            },
        };
        let name: Option<String> = match obj_get(&meta_entries, "name") {
            Some(nv) => match value_as_string(nv) {
                Some(s) => Some(s),
                None => {
                    return Err(ParseError::NameNotString);
                },
            },
            None => None,
        };
        let namespace: Option<String> = match obj_get(&meta_entries, "namespace") {
            Some(nv) => match value_as_string(nv) {
                Some(s) => Some(s),
                None => {
                    return Err(ParseError::NamespaceNotString);
                },
            },
            None => None,
        };
        let api_version: Option<String> = match obj_get(&rest, "apiVersion") {
            Some(av) => value_as_string(av),
            None => None,
        };
        let kind: Option<String> = match obj_get(&rest, "kind") {
            Some(kv) => value_as_string(kv),
            None => None,
        };
        let types: Option<TypeMeta> = match (api_version, kind) {
            (Some(api_version), Some(kind)) => {
                obj_remove(&mut rest, "apiVersion");
                obj_remove(&mut rest, "kind");
                Some(TypeMeta { api_version, kind })
            },
            _ => None,
        };
        Ok(
            DynamicObject {
                types,
                metadata: ObjectMeta { name, namespace, entries: meta_entries },
                data: rest,
            },
        )
    }

    /// Serializes the object back into top-level entries: the payload,
    /// the metadata object under `metadata`, and the type fields when
    /// present.
    pub fn to_object(&self) -> (r: serde_json::Map<String, serde_json::Value>)
        ensures
            obj_model(r) == serialized(*self),
    {
        let mut out = obj_clone(&self.data);
        let meta = value_from_object(obj_clone(&self.metadata.entries));
        obj_insert(&mut out, "metadata", meta);
        if let Some(tm) = &self.types {
            let av = value_from_string(tm.api_version.as_str());
            obj_insert(&mut out, "apiVersion", av);
            let kv = value_from_string(tm.kind.as_str());
            obj_insert(&mut out, "kind", kv);
        }
        out
    }
}

} // verus!
