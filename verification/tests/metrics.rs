use hyperspace_service::component::Component;
use hyperspace_service::config::{
    Configuration, KeystoreConfig, NetworkConfiguration, OffchainWorkerConfig, PrometheusConfig,
    Role,
};
use hyperspace_service::metrics::set_prometheus_registry;
use substrate_prometheus_endpoint::{register, Counter, PrometheusError, Registry, U64};

fn config(prometheus_config: Option<PrometheusConfig>) -> Configuration {
    Configuration {
        role: Role {
            authority: true,
            network_authority: false,
        },
        keystore: KeystoreConfig::Path {
            path: "keys".to_string(),
        },
        keystore_remote: Some("http://keys".to_string()),
        prometheus_config,
        network: NetworkConfiguration {
            node_name: "alice".to_string(),
        },
        offchain_worker: OffchainWorkerConfig { enabled: true },
        force_authoring: true,
        disable_grandpa: true,
        cli: true,
    }
}

/// The names under which a registry hands out one counter.
fn names(registry: &Registry) -> Vec<String> {
    let counter = Counter::<U64>::new("blocks", "blocks seen").unwrap();
    register(counter, registry).unwrap();
    registry
        .gather()
        .iter()
        .map(|family| family.get_name().to_string())
        .collect()
}

#[test]
fn registry_gets_the_prefix_of_the_node() {
    let mut config = config(Some(PrometheusConfig {
        port: 9615,
        registry: Registry::new(),
    }));
    assert_eq!(names(&config.prometheus_config.as_ref().unwrap().registry), ["blocks"]);
    assert!(set_prometheus_registry(&mut config).is_ok());
    let prometheus = config.prometheus_config.as_ref().unwrap();
    assert_eq!(prometheus.port, 9615);
    // The registry is a fresh one: the counter can be registered again.
    assert_eq!(names(&prometheus.registry), ["DRML_blocks"]);
}

#[test]
fn registry_carries_no_labels() {
    let mut labels = std::collections::HashMap::new();
    labels.insert("chain".to_string(), "other".to_string());
    let mut config = config(Some(PrometheusConfig {
        port: 1,
        registry: Registry::new_custom(Some("other".to_string()), Some(labels)).unwrap(),
    }));
    assert!(set_prometheus_registry(&mut config).is_ok());
    let registry = &config.prometheus_config.as_ref().unwrap().registry;
    assert_eq!(names(registry), ["DRML_blocks"]);
    assert!(registry.gather()[0].get_metric()[0].get_label().is_empty());
}

#[test]
fn no_registry_stays_no_registry() {
    let mut config = config(None);
    assert!(set_prometheus_registry(&mut config).is_ok());
    assert!(config.prometheus_config.is_none());
    assert_eq!(config.registry(), None);
}

#[test]
fn replacing_twice_is_replacing_once() {
    let mut config = config(Some(PrometheusConfig {
        port: 2,
        registry: Registry::new(),
    }));
    assert!(set_prometheus_registry(&mut config).is_ok());
    assert_eq!(config.registry(), Some(Component::PrometheusRegistry));
    assert!(set_prometheus_registry(&mut config).is_ok());
    assert_eq!(config.registry(), Some(Component::PrometheusRegistry));
    assert_eq!(
        names(&config.prometheus_config.as_ref().unwrap().registry),
        ["DRML_blocks"]
    );
}

#[test]
fn nothing_else_of_the_configuration_changes() {
    let mut config = config(Some(PrometheusConfig {
        port: 3,
        registry: Registry::new(),
    }));
    assert!(set_prometheus_registry(&mut config).is_ok());
    assert!(config.role.is_authority());
    assert!(!config.role.is_network_authority());
    assert_eq!(
        config.keystore,
        KeystoreConfig::Path {
            path: "keys".to_string()
        }
    );
    assert_eq!(config.keystore_remote.as_deref(), Some("http://keys"));
    assert_eq!(config.network.node_name, "alice");
    assert!(config.offchain_worker.enabled);
    assert!(config.force_authoring && config.disable_grandpa && config.cli);
}

#[test]
fn a_registry_refuses_only_the_blank_prefix() {
    let blank: Result<Registry, PrometheusError> = Registry::new_custom(Some(String::new()), None);
    assert!(blank.is_err());
    assert!(Registry::new_custom(None, None).is_ok());
    assert!(Registry::new_custom(Some("x".to_string()), None).is_ok());
}
