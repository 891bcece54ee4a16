//! Synthesis of the Kubernetes objects of a role-group.
use edc_operator::controller::{
    build_connector_rolegroup_config_map, build_server_role_service,
    build_server_rolegroup_statefulset, build_rolegroup_service, service_ports, Error,
    ResolvedProductImage, RoleGroupValidatedConfig,
};
use edc_operator::crd::{
    empty_fragment, validate, CaCert, ClusterOperation, CommonConfiguration, ConnectorConfig,
    CurrentlySupportedListenerClasses, EDCCluster, EDCClusterConfig, EDCClusterSpec, EDCRole,
    Ionos, LogChoice, ObjectMetaRef, ProductImage, Role, RoleGroup, S3BucketDef,
    S3ConnectionSpec, SecretClassVolume, Tls, TlsVerification,
};
use edc_operator::kvlist::kv_get;

fn empty_common() -> CommonConfiguration {
    CommonConfiguration {
        config: empty_fragment(),
        config_overrides: vec![],
        env_overrides: vec![],
        cli_overrides: vec![],
    }
}

fn group(replicas: Option<u16>) -> RoleGroup {
    RoleGroup { config: empty_common(), replicas, selector: None }
}

fn cluster(groups: Vec<(String, RoleGroup)>) -> EDCCluster {
    EDCCluster {
        metadata: ObjectMetaRef {
            name: Some("edc1".to_string()),
            namespace: Some("prod".to_string()),
            uid: Some("uid-0001".to_string()),
        },
        spec: EDCClusterSpec {
            cluster_config: EDCClusterConfig {
                vector_aggregator_config_map_name: None,
                listener_class: CurrentlySupportedListenerClasses::ExternalStable,
                cert_secret: "edc-cert".to_string(),
                ionos: Ionos {
                    token_secret: "token-secret".to_string(),
                    s3: S3BucketDef::Reference("bucket".to_string()),
                },
            },
            cluster_operation: ClusterOperation { reconciliation_paused: false, stopped: false },
            image: ProductImage { product_version: "1.0.0".to_string(), custom: None },
            connectors: Some(Role { config: empty_common(), role_groups: groups }),
        },
        status: None,
    }
}

fn image() -> ResolvedProductImage {
    ResolvedProductImage {
        image: "docker.example/edc:1.0.0".to_string(),
        app_version_label: "1.0.0-stackable0".to_string(),
        product_version: "1.0.0".to_string(),
        pull_secrets: vec![],
    }
}

fn merged(edc: &EDCCluster) -> ConnectorConfig {
    edc.merged_config(&EDCRole::Connector, "default").unwrap()
}

fn validated() -> RoleGroupValidatedConfig {
    RoleGroupValidatedConfig {
        env: vec![],
        cli: vec![],
        config_properties: vec![
            ("edc.hostname".to_string(), "edc1".to_string()),
            ("web.http.port".to_string(), "8181".to_string()),
        ],
        jvm_security: vec![("networkaddress.cache.ttl".to_string(), "30".to_string())],
    }
}

#[test]
fn role_service_exposes_fixed_ports_with_configured_type() {
    let edc = cluster(vec![]);
    let svc = build_server_role_service(&edc, &image()).unwrap();
    assert_eq!(svc.metadata.name, "edc1".to_string());
    assert_eq!(svc.metadata.namespace, Some("prod".to_string()));
    assert_eq!(svc.spec.type_, Some("LoadBalancer".to_string()));
    assert!(svc.spec.cluster_ip.is_none());
    let ports: Vec<(String, i32)> =
        svc.spec.ports.iter().map(|p| (p.name.clone(), p.port)).collect();
    assert_eq!(
        ports,
        vec![
            ("http".to_string(), 8181),
            ("control".to_string(), 8283),
            ("management".to_string(), 8182),
            ("protocol".to_string(), 8282),
            ("public".to_string(), 8284),
        ]
    );
    let owner = svc.metadata.owner_reference.unwrap();
    assert_eq!(owner.name, "edc1".to_string());
    assert!(owner.controller);
}

#[test]
fn rolegroup_service_is_headless_and_publishes_unready() {
    let edc = cluster(vec![("default".to_string(), group(Some(1)))]);
    let rg = edc.server_rolegroup_ref("default");
    let svc = build_rolegroup_service(&edc, &image(), &rg).unwrap();
    assert_eq!(svc.metadata.name, "edc1-server-default".to_string());
    assert_eq!(svc.spec.type_, Some("ClusterIP".to_string()));
    assert_eq!(svc.spec.cluster_ip, Some("None".to_string()));
    assert_eq!(svc.spec.publish_not_ready_addresses, Some(true));
    assert!(svc
        .spec
        .selector
        .contains(&("app.kubernetes.io/role-group".to_string(), "default".to_string())));
}

#[test]
fn config_map_serializes_properties_with_endpoint_and_overrides() {
    let edc = cluster(vec![("default".to_string(), group(Some(1)))]);
    let rg = edc.server_rolegroup_ref("default");
    let m = merged(&edc);
    let s3 = S3ConnectionSpec {
        host: Some("minio".to_string()),
        port: Some(9000),
        tls: None,
        credentials: None,
    };
    let cm =
        build_connector_rolegroup_config_map(&edc, &image(), &rg, &validated(), &m, Some(&s3), None)
            .unwrap();
    assert_eq!(cm.metadata.name, "edc1-server-default".to_string());
    let props = kv_get(&cm.data, "config.properties").unwrap();
    assert_eq!(
        props,
        "edc.hostname=edc1\nedc.ionos.endpoint=http://minio:9000\nweb.http.port=8181\n"
    );
    let jvm = kv_get(&cm.data, "security.properties").unwrap();
    assert_eq!(jvm, "networkaddress.cache.ttl=30\n");
    // Automatic logging is the default, so the generated Java logging
    // configuration is part of the data.
    let logging = kv_get(&cm.data, "logging.properties").unwrap();
    assert!(logging.contains("java.util.logging.FileHandler"));
    assert!(kv_get(&cm.data, "vector.toml").is_none());
}

#[test]
fn config_map_user_override_wins_over_endpoint() {
    let edc = cluster(vec![("default".to_string(), group(Some(1)))]);
    let rg = edc.server_rolegroup_ref("default");
    let m = merged(&edc);
    let s3 = S3ConnectionSpec {
        host: Some("minio".to_string()),
        port: None,
        tls: None,
        credentials: None,
    };
    let mut cfg = validated();
    cfg.config_properties
        .push(("edc.ionos.endpoint".to_string(), "http://other:1234".to_string()));
    let cm = build_connector_rolegroup_config_map(&edc, &image(), &rg, &cfg, &m, Some(&s3), None)
        .unwrap();
    let props = kv_get(&cm.data, "config.properties").unwrap();
    assert!(props.contains("edc.ionos.endpoint=http://other:1234\n"));
    assert!(!props.contains("edc.ionos.endpoint=http://minio\n"));
}

#[test]
fn config_map_with_enabled_shipper_needs_address() {
    let edc = cluster(vec![("default".to_string(), group(Some(1)))]);
    let rg = edc.server_rolegroup_ref("default");
    let mut m = merged(&edc);
    m.logging.enable_vector_agent = true;
    let r = build_connector_rolegroup_config_map(&edc, &image(), &rg, &validated(), &m, None, None);
    match r {
        Err(Error::InvalidLoggingConfig { cm_name }) => {
            assert_eq!(cm_name, "edc1-server-default".to_string());
        },
        _ => panic!("expected a logging configuration error"),
    }
    let ok = build_connector_rolegroup_config_map(
        &edc,
        &image(),
        &rg,
        &validated(),
        &m,
        None,
        Some("vector-aggregator:6000"),
    )
    .unwrap();
    let shipper = kv_get(&ok.data, "vector.toml").unwrap();
    assert!(shipper.contains("address = \"vector-aggregator:6000\""));
    assert!(shipper.contains(".roleGroup = \"default\""));
    assert!(shipper.contains(".cluster = \"edc1\""));
    assert!(shipper.contains(".namespace = \"prod\""));
}

#[test]
fn statefulset_carries_replicas_command_and_claims() {
    // A role-group asking for three replicas produces a StatefulSet
    // requesting exactly three; an unset count stays unset.
    let edc = cluster(vec![
        ("default".to_string(), group(Some(3))),
        ("bare".to_string(), group(None)),
    ]);
    let m = merged(&edc);
    let rg = edc.server_rolegroup_ref("default");
    let sts =
        build_server_rolegroup_statefulset(&edc, &image(), &rg, &validated(), &m, None, "edc1-sa")
            .unwrap();
    assert_eq!(sts.metadata.name, "edc1-server-default".to_string());
    assert_eq!(sts.spec.replicas, Some(3));
    assert_eq!(sts.spec.pod_management_policy, "Parallel".to_string());
    assert_eq!(sts.spec.service_name, "edc1-server-default".to_string());
    assert_eq!(sts.spec.template.service_account_name, "edc1-sa".to_string());
    let edc_container = &sts.spec.template.containers[0];
    assert_eq!(edc_container.name, "edc".to_string());
    assert_eq!(edc_container.image, "docker.example/edc:1.0.0".to_string());
    assert_eq!(
        edc_container.command,
        vec!["/bin/bash".to_string(), "-c".to_string()]
    );
    assert!(edc_container.args[0].contains("-Dedc.fs.config=/stackable/config/config.properties"));
    assert!(edc_container.args[0].ends_with("-jar connector.jar"));
    // No credentials configured: nothing is read from secret files.
    assert!(!edc_container.args[0].contains("$(cat"));
    let claims = &sts.spec.volume_claim_templates;
    assert_eq!(claims.len(), 1);
    assert_eq!(claims[0].name, "data".to_string());
    assert_eq!(claims[0].capacity, "2Gi".to_string());
    assert_eq!(claims[0].access_modes, vec!["ReadWriteOnce".to_string()]);

    let rg2 = edc.server_rolegroup_ref("bare");
    let sts2 =
        build_server_rolegroup_statefulset(&edc, &image(), &rg2, &validated(), &m, None, "edc1-sa")
            .unwrap();
    assert_eq!(sts2.spec.replicas, None);
}

#[test]
fn statefulset_injects_credentials_and_refuses_unverified_tls() {
    let edc = cluster(vec![("default".to_string(), group(Some(1)))]);
    let m = merged(&edc);
    let rg = edc.server_rolegroup_ref("default");
    let with_creds = S3ConnectionSpec {
        host: Some("minio".to_string()),
        port: None,
        tls: Some(Tls { verification: TlsVerification::Server(CaCert::WebPki) }),
        credentials: Some(SecretClassVolume { secret_class: "s3-secret".to_string() }),
    };
    let sts = build_server_rolegroup_statefulset(
        &edc,
        &image(),
        &rg,
        &validated(),
        &m,
        Some(&with_creds),
        "edc1-sa",
    )
    .unwrap();
    let args = &sts.spec.template.containers[0].args[0];
    assert!(args.contains("-Dedc.ionos.access.key=$(cat /stackable/secrets/accessKey)"));
    assert!(args.contains("-Dedc.ionos.secret.key=$(cat /stackable/secrets/secretKey)"));
    assert!(sts
        .spec
        .template
        .volumes
        .iter()
        .any(|v| v.name == "s3-credentials".to_string()));

    let unverified = S3ConnectionSpec {
        host: Some("minio".to_string()),
        port: None,
        tls: Some(Tls { verification: TlsVerification::Unverified }),
        credentials: None,
    };
    let r = build_server_rolegroup_statefulset(
        &edc,
        &image(),
        &rg,
        &validated(),
        &m,
        Some(&unverified),
        "edc1-sa",
    );
    assert!(matches!(r, Err(Error::S3TlsNoVerificationNotSupported)));
}

#[test]
fn statefulset_mounts_custom_log_config_map() {
    let edc = cluster(vec![("default".to_string(), group(Some(1)))]);
    let mut f = ConnectorConfig::default_config("edc1", &EDCRole::Connector);
    f.logging.connector = Some(edc_operator::crd::ContainerLogConfig {
        choice: Some(LogChoice::Custom { config_map: "my-log-config".to_string() }),
    });
    let m = validate(f).unwrap();
    let rg = edc.server_rolegroup_ref("default");
    let sts =
        build_server_rolegroup_statefulset(&edc, &image(), &rg, &validated(), &m, None, "edc1-sa")
            .unwrap();
    let log_cfg = sts
        .spec
        .template
        .volumes
        .iter()
        .find(|v| v.name == "log-config-mount".to_string())
        .unwrap();
    match &log_cfg.source {
        edc_operator::k8s::VolumeSource::ConfigMapVol { config_map_name } => {
            assert_eq!(config_map_name, "my-log-config");
        },
        _ => panic!("expected a ConfigMap volume"),
    }
    // A custom configuration also suppresses the output-capture prelude.
    assert!(!sts.spec.template.containers[0].args[0].contains("tee"));
}

#[test]
fn vector_sidecar_appears_only_when_enabled() {
    let edc = cluster(vec![("default".to_string(), group(Some(1)))]);
    let rg = edc.server_rolegroup_ref("default");
    let m = merged(&edc);
    let sts =
        build_server_rolegroup_statefulset(&edc, &image(), &rg, &validated(), &m, None, "edc1-sa")
            .unwrap();
    assert_eq!(sts.spec.template.containers.len(), 1);

    let mut m2 = merged(&edc);
    m2.logging.enable_vector_agent = true;
    let sts2 =
        build_server_rolegroup_statefulset(&edc, &image(), &rg, &validated(), &m2, None, "edc1-sa")
            .unwrap();
    assert_eq!(sts2.spec.template.containers.len(), 2);
    assert_eq!(sts2.spec.template.containers[1].name, "vector".to_string());
}

#[test]
fn service_port_list_is_stable() {
    let a = service_ports();
    let b = service_ports();
    let pa: Vec<(String, i32, String)> =
        a.iter().map(|p| (p.name.clone(), p.port, p.protocol.clone())).collect();
    let pb: Vec<(String, i32, String)> =
        b.iter().map(|p| (p.name.clone(), p.port, p.protocol.clone())).collect();
    assert_eq!(pa, pb);
}
