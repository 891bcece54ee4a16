//! Smaller model behaviours: wire names, defaults, endpoints, status
//! accessors and the shipper's level filter.
use edc_operator::crd::{
    AutomaticLogConfig, ClusterCondition, ClusterConditionType, ConditionStatus, Container,
    EDCCluster, EDCClusterStatus, EDCRole, LogLevel, ObjectMetaRef, RoleGroupRef, ServiceType,
    S3ConnectionSpec, SecretClassVolume, Tls, TlsVerification,
};
use edc_operator::product_logging::create_vector_config;

#[test]
fn wire_names_of_roles_and_containers() {
    assert_eq!(EDCRole::Connector.as_str(), "server");
    assert_eq!(Container::Connector.as_str(), "connector");
    assert_eq!(Container::Vector.as_str(), "vector");
}

#[test]
fn bare_service_type_defaults_to_node_port() {
    assert_eq!(ServiceType::default(), ServiceType::NodePort);
}

#[test]
fn s3_endpoint_scheme_follows_tls() {
    let plain = S3ConnectionSpec {
        host: Some("minio".to_string()),
        port: Some(9000),
        tls: None,
        credentials: None,
    };
    assert_eq!(plain.endpoint(), Some("http://minio:9000".to_string()));

    let tls = S3ConnectionSpec {
        host: Some("minio".to_string()),
        port: None,
        tls: Some(Tls {
            verification: TlsVerification::Server(edc_operator::crd::CaCert::WebPki),
        }),
        credentials: Some(SecretClassVolume { secret_class: "s3-secret".to_string() }),
    };
    assert_eq!(tls.endpoint(), Some("https://minio".to_string()));

    let hostless = S3ConnectionSpec { host: None, port: Some(1), tls: None, credentials: None };
    assert_eq!(hostless.endpoint(), None);
}

#[test]
fn conditions_accessor_returns_status_or_nothing() {
    let meta = ObjectMetaRef {
        name: Some("edc1".to_string()),
        namespace: Some("prod".to_string()),
        uid: None,
    };
    let status = EDCClusterStatus {
        conditions: vec![ClusterCondition {
            condition_type: ClusterConditionType::Available,
            status: ConditionStatus::True,
            message: Some("all ready".to_string()),
            last_transition_time: None,
        }],
    };
    let with_status = EDCCluster {
        metadata: meta,
        spec: minimal_spec(),
        status: Some(status),
    };
    let conds = with_status.conditions();
    assert_eq!(conds.len(), 1);
    assert!(matches!(conds[0].condition_type, ClusterConditionType::Available));
    assert_eq!(conds[0].message, Some("all ready".to_string()));

    let without_status = EDCCluster {
        metadata: ObjectMetaRef { name: None, namespace: None, uid: None },
        spec: minimal_spec(),
        status: None,
    };
    assert!(without_status.conditions().is_empty());
}

fn minimal_spec() -> edc_operator::crd::EDCClusterSpec {
    edc_operator::crd::EDCClusterSpec {
        cluster_config: edc_operator::crd::EDCClusterConfig {
            vector_aggregator_config_map_name: None,
            listener_class: edc_operator::crd::CurrentlySupportedListenerClasses::ClusterInternal,
            cert_secret: "edc-cert".to_string(),
            ionos: edc_operator::crd::Ionos {
                token_secret: "token-secret".to_string(),
                s3: edc_operator::crd::S3BucketDef::Reference("bucket".to_string()),
            },
        },
        cluster_operation: edc_operator::crd::ClusterOperation {
            reconciliation_paused: false,
            stopped: false,
        },
        image: edc_operator::crd::ProductImage {
            product_version: "1.0.0".to_string(),
            custom: None,
        },
        connectors: None,
    }
}

#[test]
fn shipper_filter_follows_configured_file_level() {
    let rg = RoleGroupRef {
        cluster_name: "edc1".to_string(),
        cluster_namespace: Some("prod".to_string()),
        role: "server".to_string(),
        role_group: "default".to_string(),
    };
    let debug_cfg =
        AutomaticLogConfig { file_level: Some(LogLevel::Debug), console_level: None };
    let text = create_vector_config(&rg, "agg:6000", Some(&debug_cfg));
    assert!(text.contains("condition = '.level != \"TRACE\"'"));

    // Without a configured level, records below the default level are
    // filtered.
    let text2 = create_vector_config(&rg, "agg:6000", None);
    assert!(text2.contains("condition = '!includes([\"TRACE\", \"DEBUG\"], .metadata.level)'"));
    assert!(text2.contains("address = \"agg:6000\""));
}
