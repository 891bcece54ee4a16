//! The flat property set resolved from the resource's name.
use edc_operator::crd::{
    empty_fragment, ClusterOperation, CommonConfiguration, CurrentlySupportedListenerClasses,
    EDCCluster, EDCClusterConfig, EDCClusterSpec, Ionos, ObjectMetaRef, ProductImage, Role,
    S3BucketDef,
};
use edc_operator::kvlist::kv_get;

fn cluster(name: &str) -> EDCCluster {
    EDCCluster {
        metadata: ObjectMetaRef {
            name: Some(name.to_string()),
            namespace: Some("prod".to_string()),
            uid: Some("uid-0001".to_string()),
        },
        spec: EDCClusterSpec {
            cluster_config: EDCClusterConfig {
                vector_aggregator_config_map_name: None,
                listener_class: CurrentlySupportedListenerClasses::ClusterInternal,
                cert_secret: "edc-cert".to_string(),
                ionos: Ionos {
                    token_secret: "token-secret".to_string(),
                    s3: S3BucketDef::Reference("bucket".to_string()),
                },
            },
            cluster_operation: ClusterOperation { reconciliation_paused: false, stopped: false },
            image: ProductImage { product_version: "1.0.0".to_string(), custom: None },
            connectors: Some(Role {
                config: CommonConfiguration {
                    config: empty_fragment(),
                    config_overrides: vec![],
                    env_overrides: vec![],
                    cli_overrides: vec![],
                },
                role_groups: vec![],
            }),
        },
        status: None,
    }
}

fn lookup(entries: &Vec<(String, String)>, key: &str) -> Option<String> {
    kv_get(entries, key).cloned()
}

#[test]
fn resolved_properties_for_shop_connector() {
    let edc = cluster("shop-connector");
    let f = empty_fragment();
    let props = f.compute_files(&edc, "server", "config.properties");
    assert_eq!(lookup(&props, "web.http.port"), Some("8181".to_string()));
    assert_eq!(lookup(&props, "web.http.management.path"), Some("/management".to_string()));
    assert_eq!(lookup(&props, "edc.hostname"), Some("shop-connector".to_string()));
    assert_eq!(lookup(&props, "edc.participant.id"), Some("shop-connector".to_string()));
    assert_eq!(lookup(&props, "edc.ids.id"), Some("urn:connector:shop-connector".to_string()));
    assert_eq!(
        lookup(&props, "edc.dsp.callback.address"),
        Some("http://shop-connector:8282/protocol".to_string())
    );
    assert_eq!(
        lookup(&props, "edc.dataplane.token.validation.endpoint"),
        Some("http://shop-connector:8283/control/token".to_string())
    );
    assert_eq!(lookup(&props, "web.http.control.port"), Some("8283".to_string()));
    assert_eq!(lookup(&props, "web.http.management.port"), Some("8182".to_string()));
    assert_eq!(lookup(&props, "web.http.protocol.port"), Some("8282".to_string()));
    assert_eq!(lookup(&props, "web.http.public.port"), Some("8284".to_string()));
    assert_eq!(
        lookup(&props, "edc.keystore"),
        Some("/stackable/mount/cert/cert.pfx".to_string())
    );
    assert_eq!(
        lookup(&props, "edc.vault"),
        Some("/stackable/mount/cert/vault.properties".to_string())
    );
    assert_eq!(props.len(), 24);
}

#[test]
fn resolved_properties_are_sorted_by_key() {
    let edc = cluster("shop-connector");
    let f = empty_fragment();
    let props = f.compute_files(&edc, "server", "config.properties");
    for w in props.windows(2) {
        assert!(w[0].0 < w[1].0);
    }
}

#[test]
fn other_files_and_kinds_resolve_empty() {
    let edc = cluster("shop-connector");
    let f = empty_fragment();
    assert!(f.compute_files(&edc, "server", "security.properties").is_empty());
    assert!(f.compute_env(&edc, "server").is_empty());
    assert!(f.compute_cli(&edc, "server").is_empty());
}
