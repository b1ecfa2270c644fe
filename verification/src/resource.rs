//! Resource descriptors: what a resource type is called, where it lives,
//! and what can be done to it.

use crate::capability::{ops_of_verbs, Operations};
use crate::text::{lower, to_ascii_lowercase};
use vstd::prelude::*;
use vstd::string::*;

verus! {

broadcast use vstd::string::group_string_axioms;

/// Resource scope
#[derive(Debug, Clone, Copy, PartialEq, Eq, Structural)]
pub enum Scope {
    /// Objects are global
    Cluster,
    /// Each object lives in namespace.
    Namespaced,
}

/// A (group, version, kind) triple naming a resource type.
#[derive(Debug, Clone)]
pub struct GroupVersionKind {
    /// API group, empty for the core group.
    pub group: String,
    /// API version within the group.
    pub version: String,
    /// PascalCase singular type name.
    pub kind: String,
}

impl GroupVersionKind {
    /// Construct from group, version and kind.
    pub fn gvk(group: &str, version: &str, kind: &str) -> (r: GroupVersionKind)
        ensures
            r.group@ == group@,
            r.version@ == version@,
            r.kind@ == kind@,
    {
        GroupVersionKind {
            group: group.to_owned(),
            version: version.to_owned(),
            kind: kind.to_owned(),
        }
    }
}

/// One resource record as it appears in the server's discovery response
/// for a group-version: its plural name, kind, scope flag, verbs, and
/// rarely a group/version override.
#[derive(Debug, Clone)]
pub struct ApiResourceRecord {
    /// Plural name, the path segment; a subresource is listed as
    /// `"parent/segment"`.
    pub name: String,
    /// PascalCase singular type name.
    pub kind: String,
    /// Whether objects live in a namespace.
    pub namespaced: bool,
    /// Group override; `None` means the record belongs to the group of
    /// the list it appears in.
    pub group: Option<String>,
    /// Version override; `None` means the version of the list.
    pub version: Option<String>,
    /// Verb names the server reports for this resource.
    pub verbs: Vec<String>,
}

/// The derived `apiVersion` string: the version alone for the core
/// (unnamed) group, else `"group/version"`.
pub open spec fn api_version_of(group: Seq<char>, version: Seq<char>) -> Seq<char> {
    if group.len() == 0 {
        version
    } else {
        group + "/"@ + version
    }
}

/// How many `/` separators a group-version string holds.
pub open spec fn slash_count(s: Seq<char>) -> int
    decreases s.len(),
{
    if s.len() == 0 {
        0
    } else {
        slash_count(s.drop_last()) + if s.last() == '/' {
            1int
        } else {
            0int
        }
    }
}

/// The group a group-version string denotes: what precedes the first
/// `/`, or empty when there is none (the core-group case).
pub open spec fn group_of_gv(gv: Seq<char>) -> Seq<char> {
    match gv.index_of_first('/') {
        Some(i) => gv.take(i),
        None => Seq::empty(),
    }
}

/// The version a group-version string denotes: what follows the first
/// `/`, or the whole string when there is none.
pub open spec fn version_of_gv(gv: Seq<char>) -> Seq<char> {
    match gv.index_of_first('/') {
        Some(i) => gv.skip(i + 1),
        None => gv,
    }
}

/// Splits a group-version string on its first `/`.
fn split_group_version(gv: &str) -> (r: (String, String))
    ensures
        r.0@ == group_of_gv(gv@),
        r.1@ == version_of_gv(gv@),
{
    let len = gv.unicode_len();
    let mut i: usize = 0;
    while i < len
        invariant
            i <= len,
            len == gv@.len(),
            forall|j: int| 0 <= j < i ==> gv@[j] != '/',
        decreases len - i,
    {
        if gv.get_char(i) == '/' {
            let group = gv.substring_char(0, i);
            let version = gv.substring_char(i + 1, len);
            proof {
                gv@.index_of_first_ensures('/');
                assert(gv@.contains('/')) by {
                    assert(gv@[i as int] == '/');
                }
                let first = gv@.index_of_first('/')->Some_0;
                if first < i as int {
                    assert(gv@[first] != '/');
                }
                if first > i as int {
                    assert(gv@[i as int] != '/');
                }
            }
            return (group.to_owned(), version.to_owned());
        }
        i += 1;
    }
    proof {
        gv@.index_of_first_ensures('/');
        if gv@.contains('/') {
            let k = choose|k: int| 0 <= k < gv@.len() && gv@[k] == '/';
            assert(gv@[k] != '/');
        }
    }
    (String::new(), gv.to_owned())
}

/// Contains information about a Kubernetes API resource
/// which is either required or helpful for working with it.
#[derive(Debug, Clone)]
pub struct ApiResource {
    /// Resource group, empty for core group.
    pub group: String,
    /// group version
    pub version: String,
    /// apiVersion of the resource (v1 for core group,
    /// groupName/groupVersions for other).
    pub api_version: String,
    /// Singular PascalCase name of the resource
    pub kind: String,
    /// Plural name of the resource
    pub plural_name: String,
    /// Scope of the resource
    pub scope: Scope,
    /// Names of the available subresources
    pub subresources: Vec<String>,
    /// Supported operations on this resource
    pub operations: Operations,
}

/// The invariant every descriptor keeps, whichever constructor made it:
/// `api_version` is derived from `group` and `version`, never stored
/// independently.
pub open spec fn api_version_consistent(ar: ApiResource) -> bool {
    ar.api_version@ == api_version_of(ar.group@, ar.version@)
}

impl ApiResource {
    /// Creates ApiResource from a discovery record and the group-version
    /// string of the list it was found in.
    /// This is the recommended way to create `ApiResource`s.
    /// This function correctly sets all fields except `subresources`.
    ///
    /// If the record does not specify version and/or group, they are
    /// taken from `group_version` (otherwise the second parameter is
    /// ignored).
    pub fn from_apiresource(ar: &ApiResourceRecord, group_version: &str) -> (r: ApiResource)
        requires
            slash_count(group_version@) <= 1,
        ensures
            r.group@ == match ar.group {
                Some(g) => g@,
                None => group_of_gv(group_version@),
            },
            r.version@ == match ar.version {
                Some(v) => v@,
                None => version_of_gv(group_version@),
            },
            api_version_consistent(r),
            r.kind@ == ar.kind@,
            r.plural_name@ == ar.name@,
            r.scope == (if ar.namespaced {
                Scope::Namespaced
            } else {
                Scope::Cluster
            }),
            r.subresources.deep_view() == Seq::<Seq<char>>::empty(),
            ops_of_verbs(r.operations, ar.verbs.deep_view()),
    {
        let (default_group, default_version) = split_group_version(group_version);
        let group = match &ar.group {
            Some(g) => g.clone(),
            None => default_group,
        };
        let version = match &ar.version {
            Some(v) => v.clone(),
            None => default_version,
        };
        let api_version = join_api_version(&group, &version);
        let operations = Operations::from_verb_list(&ar.verbs);
        let subresources: Vec<String> = Vec::new();
        proof {
            assert(subresources.deep_view() =~= Seq::<Seq<char>>::empty());
        }
        ApiResource {
            group,
            version,
            api_version,
            kind: ar.kind.clone(),
            plural_name: ar.name.clone(),
            scope: if ar.namespaced {
                Scope::Namespaced
            } else {
                Scope::Cluster
            },
            subresources,
            operations,
        }
    }

    /// Creates ApiResource from group, version and kind.
    /// # Warning
    /// This function has to **guess** some information.
    /// While it does its best to guess correctly, sometimes it can
    /// be wrong, and using the returned ApiResource will lead to
    /// incorrect api requests; the server reports such requests through
    /// its normal error path.
    /// In more detail:
    ///  - `scope` is assumed to be `Namespaced`
    ///  - `plural_name` is derived from `kind` (can lead to incorrect
    ///    requests)
    ///  - `operations` and `subresources` are filled with values which
    ///    are expected for most resources
    pub fn from_gvk(gvk: &GroupVersionKind) -> (r: ApiResource)
        ensures
            r.group@ == gvk.group@,
            r.version@ == gvk.version@,
            api_version_consistent(r),
            r.kind@ == gvk.kind@,
            r.plural_name@ == plural_of(lower(gvk.kind@)),
            r.scope == Scope::Namespaced,
            r.subresources.deep_view() == seq!["status"@],
            all_standard_ops(r.operations),
    {
        let api_version = join_api_version(&gvk.group, &gvk.version);
        let lowercase_kind = to_ascii_lowercase(gvk.kind.as_str());
        let plural_name = to_plural(lowercase_kind.as_str());
        let mut subresources: Vec<String> = Vec::new();
        subresources.push("status".to_owned());
        let other: Vec<String> = Vec::new();
        proof {
            assert(subresources.deep_view() =~= seq!["status"@]);
            assert(other.deep_view() =~= Seq::<Seq<char>>::empty());
        }
        ApiResource {
            group: gvk.group.clone(),
            version: gvk.version.clone(),
            api_version,
            kind: gvk.kind.clone(),
            plural_name,
            scope: Scope::Namespaced,
            subresources,
            operations: Operations {
                create: true,
                get: true,
                list: true,
                watch: true,
                delete: true,
                delete_collection: true,
                update: true,
                patch: true,
                other,
            },
        }
    }
}

/// All eight standard verb flags set and nothing else: what a guessed
/// descriptor assumes.
pub open spec fn all_standard_ops(ops: Operations) -> bool {
    &&& ops.create
    &&& ops.get
    &&& ops.list
    &&& ops.watch
    &&& ops.delete
    &&& ops.delete_collection
    &&& ops.update
    &&& ops.patch
    &&& ops.other.deep_view() == Seq::<Seq<char>>::empty()
}

/// Joins a group and version into the derived `apiVersion` string.
pub fn join_api_version(group: &String, version: &String) -> (r: String)
    ensures
        r@ == api_version_of(group@, version@),
{
    if group.as_str().unicode_len() == 0 {
        version.clone()
    } else {
        let mut r = group.clone();
        r.append("/");
        r.append(version.as_str());
        r
    }
}

/// Whether a lowercase character is an English vowel, for the
/// pluralization heuristic.
pub open spec fn is_vowel(c: char) -> bool {
    c == 'a' || c == 'e' || c == 'i' || c == 'o' || c == 'u'
}

/// The best-effort English pluralization a guessed descriptor uses for
/// its plural path segment: trailing `s`/`x`/`ch`/`sh` gain `es`,
/// trailing consonant + `y` becomes `ies`, everything else gains `s`.
/// Irregular plurals come out wrong; this is documented best-effort
/// behaviour.
pub open spec fn plural_of(w: Seq<char>) -> Seq<char> {
    if w.len() > 0 && (w.last() == 's' || w.last() == 'x') || (w.len() >= 2 && (w.skip(w.len() - 2)
        == "ch"@ || w.skip(w.len() - 2) == "sh"@)) {
        w + "es"@
    } else if w.len() >= 2 && w.last() == 'y' && !is_vowel(w[w.len() - 2]) {
        w.take(w.len() - 1) + "ies"@
    } else {
        w + "s"@
    }
}

/// Pluralizes an (already lowercased) word with the suffix heuristic.
pub fn to_plural(word: &str) -> (r: String)
    ensures
        r@ == plural_of(word@),
{
    let len = word.unicode_len();
    if len > 0 {
        let last = word.get_char(len - 1);
        let prev: Option<char> = if len >= 2 {
            Some(word.get_char(len - 2))
        } else {
            None
        };
        proof {
            reveal_strlit("ch");
            reveal_strlit("sh");
            let w = word@;
            let l = w.len() as int;
            if l >= 2 {
                let tail = w.skip(l - 2);
                assert(tail.len() == 2);
                assert(tail[0] == w[l - 2]);
                assert(tail[1] == w[l - 1]);
                if w[l - 2] == 'c' && w[l - 1] == 'h' {
                    assert(tail =~= "ch"@);
                }
                if w[l - 2] == 's' && w[l - 1] == 'h' {
                    assert(tail =~= "sh"@);
                }
                if tail == "ch"@ {
                    assert(w[l - 2] == 'c' && w[l - 1] == 'h');
                }
                if tail == "sh"@ {
                    assert(w[l - 2] == 's' && w[l - 1] == 'h');
                }
            }
        }
        let es_rule = last == 's' || last == 'x' || (match prev {
            Some(p) => (last == 'h' && (p == 'c' || p == 's')),
            None => false,
        });
        if es_rule {
            return word.to_owned().concat("es");
        }
        let ies_rule = last == 'y' && (match prev {
            Some(p) => !(p == 'a' || p == 'e' || p == 'i' || p == 'o' || p == 'u'),
            None => false,
        });
        if ies_rule {
            let stem = word.substring_char(0, len - 1);
            return stem.to_owned().concat("ies");
        }
        word.to_owned().concat("s")
    } else {
        word.to_owned().concat("s")
    }
}

} // verus!
