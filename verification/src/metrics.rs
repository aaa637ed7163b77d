//! The registry that a node's metrics are collected in.

use crate::config::{Configuration, PrometheusConfig};
use crate::error::ServiceError;
use std::collections::HashMap;
use substrate_prometheus_endpoint::{PrometheusError, Registry};
use vstd::prelude::*;

verus! {

/// The prefix that a registry was made with. It stands before the name of every
/// metric that the registry hands out.
pub uninterp spec fn registry_prefix(registry: Registry) -> Option<Seq<char>>;

/// The labels that a registry was made with. They stand on every metric that the
/// registry hands out.
pub uninterp spec fn registry_labels(registry: Registry) -> Option<Map<String, String>>;

/// The characters of a string that may be missing.
pub open spec fn text(s: Option<String>) -> Option<Seq<char>> {
    match s {
        Some(chars) => Some(chars@),
        None => None,
    }
}

/// The entries of a table that may be missing.
pub open spec fn entries(table: Option<HashMap<String, String>>) -> Option<Map<String, String>> {
    match table {
        Some(rows) => Some(rows@),
        None => None,
    }
}

/// Whether a prefix is given that has no characters.
pub open spec fn is_blank(prefix: Option<String>) -> bool {
    prefix is Some && prefix->0@.len() == 0
}

/// `prometheus::Registry::new_custom` refuses exactly the prefix that is given
/// and has no characters. Otherwise it makes a registry that keeps the prefix
/// and the labels as they were given; nothing changes them later. What the error
/// says is left open.
pub assume_specification[ Registry::new_custom ](
    prefix: Option<String>,
    labels: Option<HashMap<String, String>>,
) -> (made: Result<Registry, PrometheusError>)
    ensures
        made is Err <==> is_blank(prefix),
        made is Ok ==> registry_prefix(made->Ok_0) == text(prefix),
        made is Ok ==> registry_labels(made->Ok_0) == entries(labels),
;

/// Whether `after` is `before` with its metrics registry, if it has one,
/// replaced by one with the prefix of the node and without labels.
pub open spec fn registry_replaced(before: Configuration, after: Configuration) -> bool {
    &&& after == (Configuration { prometheus_config: after.prometheus_config, ..before })
    &&& before.prometheus_config is None ==> after.prometheus_config is None
    &&& before.prometheus_config is Some ==> {
        &&& after.prometheus_config is Some
        &&& after.prometheus_config->0.port == before.prometheus_config->0.port
        &&& registry_prefix(after.prometheus_config->0.registry) == Some("DRML"@)
        &&& registry_labels(after.prometheus_config->0.registry) is None
    }
}

/// Replaces the registry of the metrics configuration, if there is one, by a
/// fresh registry with the prefix `DRML`.
///
/// The prefix has characters, so the registry is never refused.
pub fn set_prometheus_registry(config: &mut Configuration) -> (r: Result<(), ServiceError>)
    ensures
        r is Ok,
        registry_replaced(*old(config), *final(config)),
{
    proof {
        reveal_strlit("DRML");
    }
    if let Some(PrometheusConfig { registry, .. }) = config.prometheus_config.as_mut() {
        match Registry::new_custom(Some("DRML".to_owned()), None) {
            Ok(made) => {
                *registry = made;
            },
            Err(error) => {
                return Err(ServiceError::Prometheus(error));
            },
        }
    }
    Ok(())
}

} // verus!
