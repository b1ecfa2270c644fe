//! Dynamic resource typing and request construction for a Kubernetes-style
//! control-plane API.
//!
//! The crate reconciles statically known and runtime-discovered resource
//! types behind one descriptor ([`resource::ApiResource`]), derives the
//! verbs a resource supports ([`capability::Operations`]), resolves
//! server discovery data into nested descriptors
//! ([`discovery::ApiResourceExtras`]), and builds the REST paths and
//! methods a transport must issue ([`request`]).

pub mod capability;
pub mod discovery;
pub mod dynamic;
pub mod json;
pub mod request;
pub mod resource;
pub mod text;
