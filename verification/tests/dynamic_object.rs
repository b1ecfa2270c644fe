use kube_core::dynamic::{DynamicObject, ParseError, Resource};
use kube_core::resource::{ApiResource, GroupVersionKind};
use serde_json::Value;

fn sample_object() -> serde_json::Map<String, Value> {
    let mut metadata = serde_json::Map::new();
    metadata.insert("name".to_string(), Value::String("baz".to_string()));
    metadata.insert("namespace".to_string(), Value::String("myns".to_string()));
    let mut labels = serde_json::Map::new();
    labels.insert("app".to_string(), Value::String("demo".to_string()));
    metadata.insert("labels".to_string(), Value::Object(labels));

    let mut spec = serde_json::Map::new();
    spec.insert("replicas".to_string(), Value::Number(3.into()));
    spec.insert("paused".to_string(), Value::Bool(false));

    let mut top = serde_json::Map::new();
    top.insert("apiVersion".to_string(), Value::String("clux.dev/v1".to_string()));
    top.insert("kind".to_string(), Value::String("Foo".to_string()));
    top.insert("metadata".to_string(), Value::Object(metadata));
    top.insert("spec".to_string(), Value::Object(spec));
    top.insert("extraTopLevel".to_string(), Value::String("kept".to_string()));
    top
}

#[test]
fn round_trip_preserves_every_entry() {
    let original = sample_object();
    let obj = DynamicObject::from_object(original.clone()).unwrap();
    assert_eq!(obj.types.as_ref().unwrap().api_version, "clux.dev/v1");
    assert_eq!(obj.types.as_ref().unwrap().kind, "Foo");
    assert_eq!(obj.metadata.name.as_deref(), Some("baz"));
    assert_eq!(obj.metadata.namespace.as_deref(), Some("myns"));
    assert!(obj.data.contains_key("spec"));
    assert!(obj.data.contains_key("extraTopLevel"));
    assert!(!obj.data.contains_key("metadata"));

    let back = obj.to_object();
    assert_eq!(back, original);
}

#[test]
fn round_trip_without_full_type_info() {
    let mut top = sample_object();
    top.remove("kind");
    let obj = DynamicObject::from_object(top.clone()).unwrap();
    assert!(obj.types.is_none());
    assert!(obj.data.contains_key("apiVersion"));
    let back = obj.to_object();
    assert_eq!(back, top);
}

#[test]
fn parse_errors_name_the_broken_entry() {
    let empty: serde_json::Map<String, Value> = serde_json::Map::new();
    assert_eq!(
        DynamicObject::from_object(empty).unwrap_err(),
        ParseError::MissingMetadata
    );

    let mut bad_meta = serde_json::Map::new();
    bad_meta.insert("metadata".to_string(), Value::Number(5.into()));
    assert_eq!(
        DynamicObject::from_object(bad_meta).unwrap_err(),
        ParseError::MetadataNotObject
    );

    let mut meta = serde_json::Map::new();
    meta.insert("name".to_string(), Value::Number(5.into()));
    let mut bad_name = serde_json::Map::new();
    bad_name.insert("metadata".to_string(), Value::Object(meta));
    assert_eq!(
        DynamicObject::from_object(bad_name).unwrap_err(),
        ParseError::NameNotString
    );

    let mut meta = serde_json::Map::new();
    meta.insert("namespace".to_string(), Value::Bool(true));
    let mut bad_ns = serde_json::Map::new();
    bad_ns.insert("metadata".to_string(), Value::Object(meta));
    assert_eq!(
        DynamicObject::from_object(bad_ns).unwrap_err(),
        ParseError::NamespaceNotString
    );
}

#[test]
fn builder_sets_envelope() {
    let gvk = GroupVersionKind::gvk("clux.dev", "v1", "Foo");
    let ar = ApiResource::from_gvk(&gvk);
    let mut payload = serde_json::Map::new();
    payload.insert("spec".to_string(), Value::String("x".to_string()));
    let obj = DynamicObject::new("baz", &ar).namespace("myns").data(payload);

    assert_eq!(obj.metadata.name.as_deref(), Some("baz"));
    assert_eq!(obj.metadata.namespace.as_deref(), Some("myns"));
    let top = obj.to_object();
    assert_eq!(top.get("apiVersion"), Some(&Value::String("clux.dev/v1".to_string())));
    assert_eq!(top.get("kind"), Some(&Value::String("Foo".to_string())));
    assert_eq!(top.get("spec"), Some(&Value::String("x".to_string())));
    let meta = top.get("metadata").unwrap().as_object().unwrap();
    assert_eq!(meta.get("name"), Some(&Value::String("baz".to_string())));
    assert_eq!(meta.get("namespace"), Some(&Value::String("myns".to_string())));
}

#[test]
fn resource_interface_reads_the_descriptor() {
    let gvk = GroupVersionKind::gvk("apps", "v1", "Deployment");
    let ar = ApiResource::from_gvk(&gvk);
    assert_eq!(<DynamicObject as Resource>::group(&ar), "apps");
    assert_eq!(<DynamicObject as Resource>::version(&ar), "v1");
    assert_eq!(<DynamicObject as Resource>::kind(&ar), "Deployment");
    assert_eq!(<DynamicObject as Resource>::api_version(&ar), "apps/v1");
    assert_eq!(<DynamicObject as Resource>::plural(&ar), "deployments");

    let obj = DynamicObject::new("d", &ar);
    assert_eq!(obj.meta().name.as_deref(), Some("d"));
}
