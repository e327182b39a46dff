//! The shapes of the registry's answers that the library consumes.
use std::collections::HashMap;

use vstd::prelude::*;

verus! {

/// The answer to `GET /v2/_catalog`: the names of all repositories.
pub struct ResponseCatalog {
    pub repositories: Vec<String>,
}

/// The answer to `GET /v2/{name}/tags/list`: a repository and its tags.
pub struct ResponseImage {
    pub name: String,
    pub tags: Vec<String>,
}

/// The answer to `GET /v2/{name}/manifests/{tag}`, of which only the
/// reference to the configuration blob is used.
pub struct ResponseManifest {
    pub config: ResponseConfig,
}

/// The reference from a manifest to its configuration blob.
pub struct ResponseConfig {
    pub digest: String,
}

/// The answer to `GET /v2/{name}/blobs/{digest}`: the image configuration.
pub struct ResponseConfigBlob {
    pub architecture: String,
    pub config: ConfigDetails,
    pub created: String,
}

/// The runtime defaults of an image. Every field is present: a field that
/// the registry left out or sent as null holds its empty value.
pub struct ConfigDetails {
    pub user: Option<String>,
    pub env: Vec<String>,
    pub cmd: Vec<String>,
    pub working_dir: Option<String>,
    pub labels: HashMap<String, String>,
}

/// A sequence that may be missing, with a missing one read as empty.
pub open spec fn seq_or_empty<T>(s: Option<Seq<T>>) -> Seq<T> {
    match s {
        Some(v) => v,
        None => Seq::empty(),
    }
}

/// A mapping that may be missing, with a missing one read as empty.
pub open spec fn map_or_empty<K, V>(m: Option<Map<K, V>>) -> Map<K, V> {
    match m {
        Some(v) => v,
        None => Map::empty(),
    }
}

/// The contents of an optional vector.
pub open spec fn opt_vec_view<T>(v: Option<Vec<T>>) -> Option<Seq<T>> {
    match v {
        Some(x) => Some(x@),
        None => None,
    }
}

/// The contents of an optional map.
pub open spec fn opt_map_view(m: Option<HashMap<String, String>>) -> Option<Map<String, String>> {
    match m {
        Some(x) => Some(x@),
        None => None,
    }
}

impl ConfigDetails {
    /// Whether every field holds its empty value.
    pub open spec fn is_empty_config(&self) -> bool {
        &&& self.user is None
        &&& self.env@.len() == 0
        &&& self.cmd@.len() == 0
        &&& self.working_dir is None
        &&& self.labels@ == Map::<String, String>::empty()
    }

    /// The configuration from fields that the registry may have left out or
    /// sent as null: each missing sequence or mapping becomes an empty one.
    pub fn from_optional(
        user: Option<String>,
        env: Option<Vec<String>>,
        cmd: Option<Vec<String>>,
        working_dir: Option<String>,
        labels: Option<HashMap<String, String>>,
    ) -> (r: Self)
        ensures
            r.user == user,
            r.env@ == seq_or_empty(opt_vec_view(env)),
            r.cmd@ == seq_or_empty(opt_vec_view(cmd)),
            r.working_dir == working_dir,
            r.labels@ == map_or_empty(opt_map_view(labels)),
    {
        let env = match env {
            Some(v) => v,
            None => Vec::new(),
        };
        let cmd = match cmd {
            Some(v) => v,
            None => Vec::new(),
        };
        let labels = match labels {
            Some(m) => m,
            None => HashMap::new(),
        };
        ConfigDetails { user, env, cmd, working_dir, labels }
    }
}

impl Default for ConfigDetails {
    /// A configuration with every field empty.
    fn default() -> (r: Self)
        ensures
            r.is_empty_config(),
    {
        ConfigDetails::from_optional(None, None, None, None, None)
    }
}

} // verus!
