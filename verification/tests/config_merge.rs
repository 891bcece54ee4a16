//! Three-tier merge and validation behaviour.
use edc_operator::affinity::StackableAffinity;
use edc_operator::crd::{
    empty_fragment, validate, ConnectorConfig, ConnectorConfigFragment, CommonConfiguration,
    CurrentlySupportedListenerClasses, EDCCluster, EDCClusterConfig, EDCClusterSpec, EDCRole,
    Error, Ionos, MissingField, ObjectMetaRef, ProductImage, Role, RoleGroup, S3BucketDef,
    ClusterOperation,
};

fn empty_common() -> CommonConfiguration {
    CommonConfiguration {
        config: empty_fragment(),
        config_overrides: vec![],
        env_overrides: vec![],
        cli_overrides: vec![],
    }
}

fn role_group(config: ConnectorConfigFragment, replicas: Option<u16>) -> RoleGroup {
    RoleGroup {
        config: CommonConfiguration {
            config,
            config_overrides: vec![],
            env_overrides: vec![],
            cli_overrides: vec![],
        },
        replicas,
        selector: None,
    }
}

fn cluster(name: &str, role: Option<Role>) -> EDCCluster {
    EDCCluster {
        metadata: ObjectMetaRef {
            name: Some(name.to_string()),
            namespace: Some("prod".to_string()),
            uid: Some("uid-0001".to_string()),
        },
        spec: EDCClusterSpec {
            cluster_config: EDCClusterConfig {
                vector_aggregator_config_map_name: None,
                listener_class: CurrentlySupportedListenerClasses::ClusterInternal,
                cert_secret: "edc-cert".to_string(),
                ionos: Ionos {
                    token_secret: "token-secret".to_string(),
                    s3: S3BucketDef::Reference("bucket".to_string()),
                },
            },
            cluster_operation: ClusterOperation { reconciliation_paused: false, stopped: false },
            image: ProductImage { product_version: "1.0.0".to_string(), custom: None },
            connectors: role,
        },
        status: None,
    }
}

#[test]
fn merge_takes_role_group_over_role_over_defaults() {
    // defaults cpu max = "4"; the role leaves it unset; the role-group sets "8".
    let mut rg_fragment = empty_fragment();
    rg_fragment.resources.cpu.max = Some("8".to_string());
    let mut role_fragment = empty_fragment();
    role_fragment.resources.memory.limit = Some("3Gi".to_string());
    let role = Role {
        config: CommonConfiguration {
            config: role_fragment,
            config_overrides: vec![],
            env_overrides: vec![],
            cli_overrides: vec![],
        },
        role_groups: vec![("default".to_string(), role_group(rg_fragment, Some(1)))],
    };
    let edc = cluster("edc1", Some(role));
    let merged = edc.merged_config(&EDCRole::Connector, "default").unwrap();
    // role-group wins
    assert_eq!(merged.resources.cpu.max, "8".to_string());
    // role wins over defaults
    assert_eq!(merged.resources.memory.limit, "3Gi".to_string());
    // defaults fill the rest
    assert_eq!(merged.resources.cpu.min, "200m".to_string());
    assert_eq!(merged.resources.storage.data.capacity, "2Gi".to_string());
    assert!(!merged.logging.enable_vector_agent);
}

#[test]
fn merged_config_of_unknown_group_uses_role_and_defaults() {
    let role = Role { config: empty_common(), role_groups: vec![] };
    let edc = cluster("edc1", Some(role));
    let merged = edc.merged_config(&EDCRole::Connector, "missing").unwrap();
    assert_eq!(merged.resources.cpu.max, "4".to_string());
    assert_eq!(merged.resources.cpu.min, "200m".to_string());
}

#[test]
fn merged_config_without_role_fails() {
    let edc = cluster("edc1", None);
    let r = edc.merged_config(&EDCRole::Connector, "default");
    assert!(matches!(r, Err(Error::MissingMetaStoreRole)));
}

#[test]
fn validation_rejects_missing_storage_capacity() {
    // A merge that bypasses the defaults and leaves capacity unset must
    // fail validation, never produce a zero value.
    let mut f = edc_operator::crd::ConnectorConfig::default_config("edc1", &EDCRole::Connector);
    f.resources.storage.data.capacity = None;
    let r = validate(f);
    assert!(matches!(
        r,
        Err(Error::FragmentValidationFailure { field: MissingField::StorageCapacity })
    ));
}

#[test]
fn validation_reports_first_missing_field() {
    let f = empty_fragment();
    let r = validate(f);
    assert!(matches!(
        r,
        Err(Error::FragmentValidationFailure { field: MissingField::CpuMin })
    ));
    assert_eq!(MissingField::CpuMin.as_str(), "resources.cpu.min");
}

#[test]
fn validation_accepts_complete_defaults() {
    let f = ConnectorConfig::default_config("edc1", &EDCRole::Connector);
    let c = validate(f).unwrap();
    assert_eq!(c.resources.cpu.min, "200m".to_string());
    assert_eq!(c.resources.cpu.max, "4".to_string());
    assert_eq!(c.resources.memory.limit, "2Gi".to_string());
    assert_eq!(c.resources.storage.data.capacity, "2Gi".to_string());
    assert!(c.resources.storage.data.storage_class.is_none());
}

#[test]
fn default_affinity_biases_same_role_apart() {
    let a: StackableAffinity =
        edc_operator::affinity::get_affinity("edc1", &EDCRole::Connector);
    assert!(a.pod_affinity.is_none());
    assert!(a.node_selector.is_none());
    let anti = a.pod_anti_affinity.unwrap();
    assert_eq!(anti.preferred.len(), 1);
    assert!(anti.required.is_empty());
    let term = &anti.preferred[0];
    assert_eq!(term.weight, 70);
    assert_eq!(term.term.topology_key, "kubernetes.io/hostname".to_string());
    assert_eq!(
        term.term.match_labels,
        vec![
            ("app.kubernetes.io/name".to_string(), "edc".to_string()),
            ("app.kubernetes.io/instance".to_string(), "edc1".to_string()),
            ("app.kubernetes.io/component".to_string(), "server".to_string()),
        ]
    );
}

#[test]
fn listener_classes_map_to_service_types() {
    assert_eq!(
        CurrentlySupportedListenerClasses::ClusterInternal.k8s_service_type(),
        "ClusterIP".to_string()
    );
    assert_eq!(
        CurrentlySupportedListenerClasses::ExternalUnstable.k8s_service_type(),
        "NodePort".to_string()
    );
    assert_eq!(
        CurrentlySupportedListenerClasses::ExternalStable.k8s_service_type(),
        "LoadBalancer".to_string()
    );
}
