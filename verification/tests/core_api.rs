use kube_core::capability::Operations;
use kube_core::discovery::{ApiResourceExtras, ApiResourceList, DiscoveryError};
use kube_core::request::{url_path, build_path, PatchStrategy, Request, RequestError};
use kube_core::resource::{ApiResource, ApiResourceRecord, GroupVersionKind, Scope};

fn all_verbs() -> Vec<String> {
    vec![
        "get".to_string(),
        "list".to_string(),
        "watch".to_string(),
        "create".to_string(),
        "update".to_string(),
        "patch".to_string(),
        "delete".to_string(),
        "deletecollection".to_string(),
    ]
}

fn record(name: &str, kind: &str, namespaced: bool, verbs: Vec<String>) -> ApiResourceRecord {
    ApiResourceRecord {
        name: name.to_string(),
        kind: kind.to_string(),
        namespaced,
        group: None,
        version: None,
        verbs,
    }
}

#[test]
fn raw_custom_resource() {
    let gvk = GroupVersionKind::gvk("clux.dev", "v1", "Foo");
    let res = ApiResource::from_gvk(&gvk);
    let url = url_path(&res, Some("myns"));

    let req = Request::new(url.clone()).create(vec![]);
    assert_eq!(req.uri, "/apis/clux.dev/v1/namespaces/myns/foos?");
    let req = Request::new(url)
        .patch("baz", PatchStrategy::Merge, vec![])
        .unwrap();
    assert_eq!(req.uri, "/apis/clux.dev/v1/namespaces/myns/foos/baz?");
    assert_eq!(req.method, "PATCH");
}

#[test]
fn raw_resource_in_default_group() {
    let gvk = GroupVersionKind::gvk("", "v1", "Service");
    let api_resource = ApiResource::from_gvk(&gvk);
    let url = url_path(&api_resource, None);
    let req = Request::new(url).create(vec![]);
    assert_eq!(req.uri, "/api/v1/services?");
}

#[test]
fn verb_fold_sets_flags_and_keeps_unknown_order() {
    let mut verbs = all_verbs();
    verbs.insert(2, "frobnicate".to_string());
    verbs.push("zap".to_string());
    let ops = Operations::from_verb_list(&verbs);
    assert!(ops.get && ops.list && ops.watch && ops.create);
    assert!(ops.update && ops.patch && ops.delete && ops.delete_collection);
    assert_eq!(ops.other, vec!["frobnicate".to_string(), "zap".to_string()]);
}

#[test]
fn empty_operations_has_nothing() {
    let ops = Operations::empty();
    assert!(!ops.create && !ops.get && !ops.list && !ops.watch);
    assert!(!ops.delete && !ops.delete_collection && !ops.update && !ops.patch);
    assert!(ops.other.is_empty());
}

#[test]
fn discovery_record_in_named_group() {
    let rec = record("deployments", "Deployment", true, all_verbs());
    let ar = ApiResource::from_apiresource(&rec, "apps/v1");
    assert_eq!(ar.group, "apps");
    assert_eq!(ar.version, "v1");
    assert_eq!(ar.api_version, "apps/v1");
    assert_eq!(ar.kind, "Deployment");
    assert_eq!(ar.plural_name, "deployments");
    assert_eq!(ar.scope, Scope::Namespaced);
    assert!(ar.subresources.is_empty());
    let ops = &ar.operations;
    assert!(
        ops.create
            && ops.get
            && ops.list
            && ops.watch
            && ops.delete
            && ops.delete_collection
            && ops.update
            && ops.patch
    );
    assert!(ops.other.is_empty());
}

#[test]
fn discovery_record_in_core_group() {
    let rec = record("services", "Service", true, all_verbs());
    let ar = ApiResource::from_apiresource(&rec, "v1");
    assert_eq!(ar.group, "");
    assert_eq!(ar.api_version, "v1");
    assert_eq!(ar.version, "v1");
}

#[test]
fn discovery_record_override_wins() {
    let mut rec = record("scales", "Scale", true, all_verbs());
    rec.group = Some("autoscaling".to_string());
    rec.version = Some("v2".to_string());
    let ar = ApiResource::from_apiresource(&rec, "apps/v1");
    assert_eq!(ar.group, "autoscaling");
    assert_eq!(ar.version, "v2");
    assert_eq!(ar.api_version, "autoscaling/v2");
}

#[test]
fn guessed_descriptor_fields() {
    let gvk = GroupVersionKind::gvk("clux.dev", "v1", "Foo");
    let ar = ApiResource::from_gvk(&gvk);
    assert_eq!(ar.api_version, "clux.dev/v1");
    assert_eq!(ar.kind, "Foo");
    assert_eq!(ar.plural_name, "foos");
    assert_eq!(ar.scope, Scope::Namespaced);
    assert_eq!(ar.subresources, vec!["status".to_string()]);
    assert!(ar.operations.create && ar.operations.patch);
    assert!(ar.operations.other.is_empty());

    let core = ApiResource::from_gvk(&GroupVersionKind::gvk("", "v1", "Pod"));
    assert_eq!(core.api_version, "v1");
    assert_eq!(core.plural_name, "pods");
}

#[test]
fn pluralization_heuristic() {
    let plural = |kind: &str| ApiResource::from_gvk(&GroupVersionKind::gvk("g", "v1", kind)).plural_name;
    assert_eq!(plural("Box"), "boxes");
    assert_eq!(plural("Status"), "statuses");
    assert_eq!(plural("Patch"), "patches");
    assert_eq!(plural("Dish"), "dishes");
    assert_eq!(plural("Policy"), "policies");
    assert_eq!(plural("Gateway"), "gateways");
    assert_eq!(plural("Deployment"), "deployments");
}

#[test]
fn build_path_rules() {
    let gvk = GroupVersionKind::gvk("clux.dev", "v1", "Foo");
    let ar = ApiResource::from_gvk(&gvk);
    assert_eq!(
        build_path(&ar, Some("myns"), None, None),
        "/apis/clux.dev/v1/namespaces/myns/foos"
    );
    assert_eq!(
        build_path(&ar, Some("myns"), Some("baz"), None),
        "/apis/clux.dev/v1/namespaces/myns/foos/baz"
    );
    let core = ApiResource::from_gvk(&GroupVersionKind::gvk("", "v1", "Service"));
    assert_eq!(build_path(&core, None, None, None), "/api/v1/services");
    assert_eq!(
        build_path(&ar, Some("myns"), Some("baz"), Some("status")),
        "/apis/clux.dev/v1/namespaces/myns/foos/baz/status"
    );
}

#[test]
fn request_verbs_and_validation() {
    let req = Request::new("/api/v1/namespaces/ns/pods".to_string());
    assert_eq!(req.list().method, "GET");
    assert_eq!(req.list().uri, "/api/v1/namespaces/ns/pods?");
    assert_eq!(req.watch().uri, "/api/v1/namespaces/ns/pods?watch=true");
    assert_eq!(req.delete_collection().method, "DELETE");
    let got = req.get("mypod").unwrap();
    assert_eq!(got.method, "GET");
    assert_eq!(got.uri, "/api/v1/namespaces/ns/pods/mypod?");
    let del = req.delete("mypod").unwrap();
    assert_eq!(del.method, "DELETE");
    let rep = req.replace("mypod", b"{}".to_vec()).unwrap();
    assert_eq!(rep.method, "PUT");
    assert_eq!(rep.body, b"{}".to_vec());
    let pat = req.patch("mypod", PatchStrategy::Json, vec![]).unwrap();
    assert_eq!(pat.content_type.as_deref(), Some("application/json-patch+json"));

    assert_eq!(req.get("").unwrap_err(), RequestError::MissingName);
    assert_eq!(req.delete("").unwrap_err(), RequestError::MissingName);
    assert_eq!(req.replace("", vec![]).unwrap_err(), RequestError::MissingName);
    assert_eq!(
        req.patch("", PatchStrategy::Merge, vec![]).unwrap_err(),
        RequestError::MissingName
    );
}

#[test]
fn discovery_resolution_with_subresource() {
    let list = ApiResourceList {
        group_version: "v1".to_string(),
        resources: vec![
            record("pods", "Pod", true, all_verbs()),
            record(
                "pods/status",
                "Pod",
                true,
                vec!["get".to_string(), "patch".to_string(), "update".to_string()],
            ),
        ],
    };
    let extras = ApiResourceExtras::from_apiresourcelist(&list, "pods").unwrap();
    assert_eq!(extras.scope, Scope::Namespaced);
    assert!(extras.operations.list);
    assert_eq!(extras.subresources.len(), 1);
    let sub = &extras.subresources[0];
    assert_eq!(sub.resource.plural_name, "status");
    assert_eq!(sub.resource.kind, "Pod");
    assert_eq!(sub.resource.api_version, "v1");
    assert!(sub.extras.operations.get && sub.extras.operations.patch);
    assert!(!sub.extras.operations.list);
    assert_eq!(sub.extras.subresources.len(), 0);
}

#[test]
fn discovery_resolution_without_subresource() {
    let list = ApiResourceList {
        group_version: "v1".to_string(),
        resources: vec![record("pods", "Pod", true, all_verbs())],
    };
    let extras = ApiResourceExtras::from_apiresourcelist(&list, "pods").unwrap();
    assert_eq!(extras.subresources.len(), 0);
}

#[test]
fn discovery_resolution_not_found() {
    let list = ApiResourceList {
        group_version: "v1".to_string(),
        resources: vec![record("pods", "Pod", true, all_verbs())],
    };
    let err = ApiResourceExtras::from_apiresourcelist(&list, "services").unwrap_err();
    assert_eq!(err, DiscoveryError::NotFound);
}

#[test]
fn discovery_skips_degenerate_self_reference() {
    let list = ApiResourceList {
        group_version: "v1".to_string(),
        resources: vec![
            record("pods", "Pod", true, all_verbs()),
            record("pods/", "Pod", true, vec!["get".to_string()]),
        ],
    };
    let extras = ApiResourceExtras::from_apiresourcelist(&list, "pods").unwrap();
    assert_eq!(extras.subresources.len(), 0);
}
