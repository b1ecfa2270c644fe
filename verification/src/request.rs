//! REST path and request construction for a resource descriptor.

use crate::resource::{ApiResource, Scope};
use vstd::prelude::*;
use vstd::string::*;

verus! {

broadcast use vstd::string::group_string_axioms;

/// The view of an optional borrowed string.
pub open spec fn opt_view(o: Option<&str>) -> Option<Seq<char>> {
    match o {
        Some(s) => Some(s@),
        None => None,
    }
}

/// The REST path the protocol prescribes: `/api` or `/apis/{group}`,
/// then the version, then `/namespaces/{namespace}` only for a
/// namespaced descriptor with a namespace given, then the plural
/// segment, then the object name and subresource when given.
pub open spec fn path_of(
    group: Seq<char>,
    version: Seq<char>,
    scope: Scope,
    plural: Seq<char>,
    namespace: Option<Seq<char>>,
    name: Option<Seq<char>>,
    subresource: Option<Seq<char>>,
) -> Seq<char> {
    let root = if group.len() == 0 {
        "/api"@ + "/"@ + version
    } else {
        "/apis/"@ + group + "/"@ + version
    };
    let with_ns = match namespace {
        Some(ns) => if scope == Scope::Namespaced {
            root + "/namespaces/"@ + ns
        } else {
            root
        },
        None => root,
    };
    let with_plural = with_ns + "/"@ + plural;
    let with_name = match name {
        Some(n) => with_plural + "/"@ + n,
        None => with_plural,
    };
    match subresource {
        Some(s) => with_name + "/"@ + s,
        None => with_name,
    }
}

/// Builds the REST path for an operation on the descriptor's resource.
///
/// Omitting `namespace` for a namespaced resource is legal only for
/// collection-wide operations across all namespaces; the caller chooses
/// that deliberately, and the builder does not reject it. A `namespace`
/// given for a cluster-scoped descriptor is ignored. A `subresource` is
/// only meaningful together with `name`.
pub fn build_path(
    ar: &ApiResource,
    namespace: Option<&str>,
    name: Option<&str>,
    subresource: Option<&str>,
) -> (r: String)
    ensures
        r@ == path_of(
            ar.group@,
            ar.version@,
            ar.scope,
            ar.plural_name@,
            opt_view(namespace),
            opt_view(name),
            opt_view(subresource),
        ),
{
    let mut out: String;
    if ar.group.as_str().unicode_len() == 0 {
        out = String::from_str("/api");
    } else {
        out = String::from_str("/apis/");
        out.append(ar.group.as_str());
    }
    out.append("/");
    out.append(ar.version.as_str());
    if let Some(ns) = namespace {
        let namespaced = match ar.scope {
            Scope::Namespaced => true,
            Scope::Cluster => false,
        };
        if namespaced {
            out.append("/namespaces/");
            out.append(ns);
        }
    }
    out.append("/");
    out.append(ar.plural_name.as_str());
    if let Some(n) = name {
        out.append("/");
        out.append(n);
    }
    if let Some(s) = subresource {
        out.append("/");
        out.append(s);
    }
    out
}

/// The URL path of a whole collection: the object path rules with no
/// name and no subresource.
pub fn url_path(ar: &ApiResource, namespace: Option<&str>) -> (r: String)
    ensures
        r@ == path_of(
            ar.group@,
            ar.version@,
            ar.scope,
            ar.plural_name@,
            opt_view(namespace),
            None,
            None,
        ),
{
    build_path(ar, namespace, None, None)
}

/// Why a request could not be built: the caller broke the
/// operation/name contract. Never retried and never recovered; it
/// indicates a bug in the calling code.
#[derive(Debug, Clone, Copy, PartialEq, Eq, Structural)]
pub enum RequestError {
    /// The operation addresses one object and needs a non-empty name.
    MissingName,
}

/// One HTTP request the transport must issue: method, target and body.
#[derive(Debug, Clone)]
pub struct RequestTarget {
    /// The HTTP method.
    pub method: String,
    /// The request target: the collection or object path plus the query
    /// string.
    pub uri: String,
    /// The serialized body; empty for reads.
    pub body: Vec<u8>,
    /// The content type of the body, when one must be declared: the
    /// patch strategy selector.
    pub content_type: Option<String>,
}

/// How a patch body is to be applied, selecting its content type.
#[derive(Debug, Clone, Copy, PartialEq, Eq, Structural)]
pub enum PatchStrategy {
    /// An RFC 7386 merge patch.
    Merge,
    /// The orchestration API's strategic merge patch.
    Strategic,
    /// An RFC 6902 JSON patch.
    Json,
}

/// The content type each patch strategy selects.
pub open spec fn content_type_of(p: PatchStrategy) -> Seq<char> {
    match p {
        PatchStrategy::Merge => "application/merge-patch+json"@,
        PatchStrategy::Strategic => "application/strategic-merge-patch+json"@,
        PatchStrategy::Json => "application/json-patch+json"@,
    }
}

/// A request factory over one collection URL path, as `build_path`
/// produces it.
#[derive(Debug, Clone)]
pub struct Request {
    /// The path of the collection the requests address.
    pub url_path: String,
}

impl Request {
    /// New request constructor from a collection URL path.
    pub fn new(url_path: String) -> (r: Request)
        ensures
            r.url_path == url_path,
    {
        Request { url_path }
    }

    /// Create a single object: `POST` on the collection.
    pub fn create(&self, data: Vec<u8>) -> (r: RequestTarget)
        ensures
            r.method@ == "POST"@,
            r.uri@ == self.url_path@ + "?"@,
            r.body == data,
            r.content_type is None,
    {
        RequestTarget {
            method: String::from_str("POST"),
            uri: self.url_path.clone().concat("?"),
            body: data,
            content_type: None,
        }
    }

    /// List the collection: `GET` with no name.
    pub fn list(&self) -> (r: RequestTarget)
        ensures
            r.method@ == "GET"@,
            r.uri@ == self.url_path@ + "?"@,
            r.body@ == Seq::<u8>::empty(),
            r.content_type is None,
    {
        RequestTarget {
            method: String::from_str("GET"),
            uri: self.url_path.clone().concat("?"),
            body: Vec::new(),
            content_type: None,
        }
    }

    /// Watch the collection: `GET` with the watch selector, no name.
    pub fn watch(&self) -> (r: RequestTarget)
        ensures
            r.method@ == "GET"@,
            r.uri@ == self.url_path@ + "?watch=true"@,
            r.body@ == Seq::<u8>::empty(),
            r.content_type is None,
    {
        RequestTarget {
            method: String::from_str("GET"),
            uri: self.url_path.clone().concat("?watch=true"),
            body: Vec::new(),
            content_type: None,
        }
    }

    /// Delete the whole collection: `DELETE` with no name.
    pub fn delete_collection(&self) -> (r: RequestTarget)
        ensures
            r.method@ == "DELETE"@,
            r.uri@ == self.url_path@ + "?"@,
            r.body@ == Seq::<u8>::empty(),
            r.content_type is None,
    {
        RequestTarget {
            method: String::from_str("DELETE"),
            uri: self.url_path.clone().concat("?"),
            body: Vec::new(),
            content_type: None,
        }
    }

    /// The target of an operation on one named object:
    /// `{url_path}/{name}?`.
    fn named_uri(&self, name: &str) -> (r: String)
        ensures
            r@ == self.url_path@ + "/"@ + name@ + "?"@,
    {
        let mut out = self.url_path.clone();
        out.append("/");
        out.append(name);
        out.append("?");
        out
    }

    /// Get a single object: `GET` on its path. Needs a non-empty name,
    /// if and only if; an empty one is a caller-contract violation.
    pub fn get(&self, name: &str) -> (r: Result<RequestTarget, RequestError>)
        ensures
            name@.len() == 0 <==> r == Err::<RequestTarget, RequestError>(
                RequestError::MissingName,
            ),
            match r {
                Ok(t) => {
                    &&& t.method@ == "GET"@
                    &&& t.uri@ == self.url_path@ + "/"@ + name@ + "?"@
                    &&& t.body@ == Seq::<u8>::empty()
                    &&& t.content_type is None
                },
                Err(e) => e == RequestError::MissingName,
            },
    {
        if name.unicode_len() == 0 {
            return Err(RequestError::MissingName);
        }
        Ok(
            RequestTarget {
                method: String::from_str("GET"),
                uri: self.named_uri(name),
                body: Vec::new(),
                content_type: None,
            },
        )
    }

    /// Delete a single object: `DELETE` on its path. Needs a non-empty
    /// name, if and only if.
    pub fn delete(&self, name: &str) -> (r: Result<RequestTarget, RequestError>)
        ensures
            name@.len() == 0 <==> r == Err::<RequestTarget, RequestError>(
                RequestError::MissingName,
            ),
            match r {
                Ok(t) => {
                    &&& t.method@ == "DELETE"@
                    &&& t.uri@ == self.url_path@ + "/"@ + name@ + "?"@
                    &&& t.body@ == Seq::<u8>::empty()
                    &&& t.content_type is None
                },
                Err(e) => e == RequestError::MissingName,
            },
    {
        if name.unicode_len() == 0 {
            return Err(RequestError::MissingName);
        }
        Ok(
            RequestTarget {
                method: String::from_str("DELETE"),
                uri: self.named_uri(name),
                body: Vec::new(),
                content_type: None,
            },
        )
    }

    /// Replace (update) a single object: `PUT` on its path. Needs a
    /// non-empty name, if and only if.
    pub fn replace(&self, name: &str, data: Vec<u8>) -> (r: Result<RequestTarget, RequestError>)
        ensures
            name@.len() == 0 <==> r == Err::<RequestTarget, RequestError>(
                RequestError::MissingName,
            ),
            match r {
                Ok(t) => {
                    &&& t.method@ == "PUT"@
                    &&& t.uri@ == self.url_path@ + "/"@ + name@ + "?"@
                    &&& t.body == data
                    &&& t.content_type is None
                },
                Err(e) => e == RequestError::MissingName,
            },
    {
        if name.unicode_len() == 0 {
            return Err(RequestError::MissingName);
        }
        Ok(
            RequestTarget {
                method: String::from_str("PUT"),
                uri: self.named_uri(name),
                body: data,
                content_type: None,
            },
        )
    }

    /// Patch a single object: `PATCH` on its path, with the content
    /// type the strategy selects. Needs a non-empty name, if and only
    /// if.
    pub fn patch(&self, name: &str, strategy: PatchStrategy, data: Vec<u8>) -> (r: Result<
        RequestTarget,
        RequestError,
    >)
        ensures
            name@.len() == 0 <==> r == Err::<RequestTarget, RequestError>(
                RequestError::MissingName,
            ),
            match r {
                Ok(t) => {
                    &&& t.method@ == "PATCH"@
                    &&& t.uri@ == self.url_path@ + "/"@ + name@ + "?"@
                    &&& t.body == data
                    &&& t.content_type matches Some(c) && c@ == content_type_of(strategy)
                },
                Err(e) => e == RequestError::MissingName,
            },
    {
        if name.unicode_len() == 0 {
            return Err(RequestError::MissingName);
        }
        let content_type = match strategy {
            PatchStrategy::Merge => String::from_str("application/merge-patch+json"),
            PatchStrategy::Strategic => String::from_str(
                "application/strategic-merge-patch+json",
            ),
            PatchStrategy::Json => String::from_str("application/json-patch+json"),
        };
        Ok(
            RequestTarget {
                method: String::from_str("PATCH"),
                uri: self.named_uri(name),
                body: data,
                content_type: Some(content_type),
            },
        )
    }
}

} // verus!
