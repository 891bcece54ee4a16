//! Deterministic object naming and predicted pod listings.
use edc_operator::crd::{
    empty_fragment, ClusterOperation, CommonConfiguration, CurrentlySupportedListenerClasses,
    EDCCluster, EDCClusterConfig, EDCClusterSpec, Ionos, ObjectMetaRef, PodRef, ProductImage,
    Role, RoleGroup, S3BucketDef,
};

fn empty_common() -> CommonConfiguration {
    CommonConfiguration {
        config: empty_fragment(),
        config_overrides: vec![],
        env_overrides: vec![],
        cli_overrides: vec![],
    }
}

fn group(replicas: Option<u16>) -> RoleGroup {
    RoleGroup { config: empty_common(), replicas, selector: None }
}

fn cluster(name: Option<&str>, ns: Option<&str>, groups: Vec<(String, RoleGroup)>) -> EDCCluster {
    EDCCluster {
        metadata: ObjectMetaRef {
            name: name.map(|n| n.to_string()),
            namespace: ns.map(|n| n.to_string()),
            uid: Some("uid-0001".to_string()),
        },
        spec: EDCClusterSpec {
            cluster_config: EDCClusterConfig {
                vector_aggregator_config_map_name: None,
                listener_class: CurrentlySupportedListenerClasses::ClusterInternal,
                cert_secret: "edc-cert".to_string(),
                ionos: Ionos {
                    token_secret: "token-secret".to_string(),
                    s3: S3BucketDef::Reference("bucket".to_string()),
                },
            },
            cluster_operation: ClusterOperation { reconciliation_paused: false, stopped: false },
            image: ProductImage { product_version: "1.0.0".to_string(), custom: None },
            connectors: Some(Role { config: empty_common(), role_groups: groups }),
        },
        status: None,
    }
}

#[test]
fn rolegroup_object_name_is_cluster_role_group() {
    let edc = cluster(Some("edc1"), Some("prod"), vec![]);
    let r = edc.server_rolegroup_ref("default");
    assert_eq!(r.object_name(), "edc1-server-default".to_string());
    // Repeated calls resolve to the same string.
    assert_eq!(r.object_name(), edc.server_rolegroup_ref("default").object_name());
}

#[test]
fn server_role_service_name_is_cluster_name() {
    let edc = cluster(Some("edc1"), Some("prod"), vec![]);
    assert_eq!(edc.server_role_service_name(), Some("edc1"));
    let unnamed = cluster(None, Some("prod"), vec![]);
    assert!(unnamed.server_role_service_name().is_none());
}

#[test]
fn fqdn_joins_pod_service_and_namespace() {
    let p = PodRef {
        namespace: "prod".to_string(),
        role_group_service_name: "edc1-server-default".to_string(),
        pod_name: "edc1-server-default-0".to_string(),
    };
    assert_eq!(
        p.fqdn(),
        "edc1-server-default-0.edc1-server-default.prod.svc.cluster.local".to_string()
    );
}

#[test]
fn pods_enumerates_replicas_in_sorted_group_order() {
    // Groups arrive out of order; the listing is sorted by group name.
    let edc = cluster(
        Some("edc1"),
        Some("prod"),
        vec![("zeta".to_string(), group(Some(1))), ("alpha".to_string(), group(Some(2)))],
    );
    let pods = edc.pods().unwrap();
    let names: Vec<String> = pods.iter().map(|p| p.pod_name.clone()).collect();
    assert_eq!(
        names,
        vec![
            "edc1-server-alpha-0".to_string(),
            "edc1-server-alpha-1".to_string(),
            "edc1-server-zeta-0".to_string(),
        ]
    );
    assert_eq!(pods[0].namespace, "prod".to_string());
    assert_eq!(pods[0].role_group_service_name, "edc1-server-alpha".to_string());
}

#[test]
fn pods_without_replicas_are_empty() {
    let edc = cluster(Some("edc1"), Some("prod"), vec![("a".to_string(), group(None))]);
    let pods = edc.pods().unwrap();
    assert!(pods.is_empty());
}

#[test]
fn pods_without_namespace_fail() {
    let edc = cluster(Some("edc1"), None, vec![("a".to_string(), group(Some(1)))]);
    assert!(edc.pods().is_err());
}
