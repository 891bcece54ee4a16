//! The reconciliation decisions: desired state, status conditions, orphan
//! pruning, and the retry policy.
use edc_operator::controller::{
    apply_actions_enabled, compute_conditions, error_policy, orphaned_object_names,
    reconcile_edc, success_action, Error, ReconcileAction, ResolvedProductImage,
    RoleGroupValidatedConfig,
};
use edc_operator::crd::{
    empty_fragment, ClusterOperation, ClusterConditionType, CommonConfiguration, ConditionStatus,
    CurrentlySupportedListenerClasses, EDCCluster, EDCClusterConfig, EDCClusterSpec, Ionos,
    ObjectMetaRef, ProductImage, Role, RoleGroup, S3BucketDef,
};
use edc_operator::product_logging::{resolve_vector_aggregator_address, Error as LoggingError};

fn empty_common() -> CommonConfiguration {
    CommonConfiguration {
        config: empty_fragment(),
        config_overrides: vec![],
        env_overrides: vec![],
        cli_overrides: vec![],
    }
}

fn group(replicas: Option<u16>) -> RoleGroup {
    RoleGroup { config: empty_common(), replicas, selector: None }
}

fn cluster_with(
    name: Option<&str>,
    aggregator_cm: Option<&str>,
    role: Option<Role>,
    paused: bool,
    stopped: bool,
) -> EDCCluster {
    EDCCluster {
        metadata: ObjectMetaRef {
            name: name.map(|n| n.to_string()),
            namespace: Some("prod".to_string()),
            uid: Some("uid-0001".to_string()),
        },
        spec: EDCClusterSpec {
            cluster_config: EDCClusterConfig {
                vector_aggregator_config_map_name: aggregator_cm.map(|n| n.to_string()),
                listener_class: CurrentlySupportedListenerClasses::ClusterInternal,
                cert_secret: "edc-cert".to_string(),
                ionos: Ionos {
                    token_secret: "token-secret".to_string(),
                    s3: S3BucketDef::Reference("bucket".to_string()),
                },
            },
            cluster_operation: ClusterOperation { reconciliation_paused: paused, stopped },
            image: ProductImage { product_version: "1.0.0".to_string(), custom: None },
            connectors: role,
        },
        status: None,
    }
}

fn cluster(groups: Vec<(String, RoleGroup)>) -> EDCCluster {
    cluster_with(
        Some("edc1"),
        None,
        Some(Role { config: empty_common(), role_groups: groups }),
        false,
        false,
    )
}

fn image() -> ResolvedProductImage {
    ResolvedProductImage {
        image: "docker.example/edc:1.0.0".to_string(),
        app_version_label: "1.0.0-stackable0".to_string(),
        product_version: "1.0.0".to_string(),
        pull_secrets: vec![],
    }
}

fn validated_for(groups: &[&str]) -> Vec<(String, RoleGroupValidatedConfig)> {
    groups
        .iter()
        .map(|g| {
            (
                g.to_string(),
                RoleGroupValidatedConfig {
                    env: vec![],
                    cli: vec![],
                    config_properties: vec![(
                        "edc.hostname".to_string(),
                        "edc1".to_string(),
                    )],
                    jvm_security: vec![],
                },
            )
        })
        .collect()
}

#[test]
fn reconcile_produces_objects_per_group_in_name_order() {
    let edc = cluster(vec![
        ("zeta".to_string(), group(Some(1))),
        ("alpha".to_string(), group(Some(2))),
    ]);
    let state =
        reconcile_edc(&edc, &image(), &validated_for(&["zeta", "alpha"]), None, None, "edc1-sa")
            .unwrap();
    assert_eq!(state.server_role_service.metadata.name, "edc1".to_string());
    let names: Vec<String> = state.role_groups.iter().map(|g| g.0.clone()).collect();
    assert_eq!(names, vec!["alpha".to_string(), "zeta".to_string()]);
    assert_eq!(
        state.role_groups[0].1.service.metadata.name,
        "edc1-server-alpha".to_string()
    );
    assert_eq!(
        state.role_groups[0].1.config_map.metadata.name,
        "edc1-server-alpha".to_string()
    );
    assert_eq!(
        state.role_groups[0].1.stateful_set.metadata.name,
        "edc1-server-alpha".to_string()
    );
    assert_eq!(state.role_groups[0].1.stateful_set.spec.replicas, Some(2));
    assert_eq!(state.role_groups[1].1.stateful_set.spec.replicas, Some(1));
}

#[test]
fn reconcile_twice_yields_identical_objects() {
    // Byte-identical synthesis: the second pass repeats the first.
    let edc = cluster(vec![("a".to_string(), group(Some(1)))]);
    let v = validated_for(&["a"]);
    let s1 = reconcile_edc(&edc, &image(), &v, None, None, "edc1-sa").unwrap();
    let s2 = reconcile_edc(&edc, &image(), &v, None, None, "edc1-sa").unwrap();
    assert_eq!(
        s1.server_role_service.metadata.name,
        s2.server_role_service.metadata.name
    );
    assert_eq!(s1.role_groups.len(), s2.role_groups.len());
    for (g1, g2) in s1.role_groups.iter().zip(s2.role_groups.iter()) {
        assert_eq!(g1.0, g2.0);
        assert_eq!(g1.1.config_map.data, g2.1.config_map.data);
        assert_eq!(g1.1.service.metadata.name, g2.1.service.metadata.name);
        assert_eq!(g1.1.service.metadata.labels, g2.1.service.metadata.labels);
        assert_eq!(
            g1.1.stateful_set.spec.template.containers[0].args,
            g2.1.stateful_set.spec.template.containers[0].args
        );
    }
}

#[test]
fn reconcile_without_role_or_name_fails() {
    let no_role = cluster_with(Some("edc1"), None, None, false, false);
    assert!(matches!(
        reconcile_edc(&no_role, &image(), &vec![], None, None, "sa"),
        Err(Error::NoServerRole)
    ));
    let no_name = cluster_with(
        None,
        None,
        Some(Role { config: empty_common(), role_groups: vec![] }),
        false,
        false,
    );
    assert!(matches!(
        reconcile_edc(&no_name, &image(), &vec![], None, None, "sa"),
        Err(Error::GlobalServiceNameNotFound)
    ));
}

#[test]
fn orphans_are_exactly_the_no_longer_desired() {
    // A previous pass produced groups {a, b}; the current pass keeps {a}.
    let previous = vec!["edc1-server-a".to_string(), "edc1-server-b".to_string()];
    let desired = vec!["edc1-server-a".to_string()];
    let orphans = orphaned_object_names(&previous, &desired);
    assert_eq!(orphans, vec!["edc1-server-b".to_string()]);
    let none = orphaned_object_names(&desired, &desired);
    assert!(none.is_empty());
}

#[test]
fn conditions_aggregate_rollouts_and_operation_flags() {
    let edc = cluster(vec![]);
    let all_ready = vec![("a".to_string(), true), ("b".to_string(), true)];
    let conds = compute_conditions(&edc, &all_ready);
    assert_eq!(conds.len(), 3);
    assert!(matches!(conds[0].condition_type, ClusterConditionType::Available));
    assert!(matches!(conds[0].status, ConditionStatus::True));
    assert!(matches!(conds[1].condition_type, ClusterConditionType::ReconciliationPaused));
    assert!(matches!(conds[1].status, ConditionStatus::False));
    assert!(matches!(conds[2].condition_type, ClusterConditionType::Stopped));
    assert!(matches!(conds[2].status, ConditionStatus::False));

    let one_down = vec![("a".to_string(), true), ("b".to_string(), false)];
    let conds2 = compute_conditions(&edc, &one_down);
    assert!(matches!(conds2[0].status, ConditionStatus::False));

    let paused = cluster_with(
        Some("edc1"),
        None,
        Some(Role { config: empty_common(), role_groups: vec![] }),
        true,
        true,
    );
    let conds3 = compute_conditions(&paused, &vec![]);
    assert!(matches!(conds3[0].status, ConditionStatus::True));
    assert!(matches!(conds3[1].status, ConditionStatus::True));
    assert!(matches!(conds3[2].status, ConditionStatus::True));
}

#[test]
fn paused_clusters_skip_actions_and_success_awaits_change() {
    assert!(apply_actions_enabled(&ClusterOperation {
        reconciliation_paused: false,
        stopped: false,
    }));
    assert!(!apply_actions_enabled(&ClusterOperation {
        reconciliation_paused: true,
        stopped: false,
    }));
    assert_eq!(success_action(), ReconcileAction::AwaitChange);
}

#[test]
fn every_error_retries_after_five_seconds() {
    let edc = cluster(vec![]);
    let action = error_policy(&edc, &Error::ApplyStatus);
    assert_eq!(action, ReconcileAction::Requeue { seconds: 5 });
    let action2 = error_policy(&edc, &Error::NoServerRole);
    assert_eq!(action2, ReconcileAction::Requeue { seconds: 5 });
}

#[test]
fn error_categories_name_the_variant() {
    assert_eq!(Error::NoServerRole.category(), "NoServerRole");
    assert_eq!(
        Error::InvalidLoggingConfig { cm_name: "x".to_string() }.category(),
        "InvalidLoggingConfig"
    );
    assert_eq!(
        Error::S3TlsNoVerificationNotSupported.category(),
        "S3TlsNoVerificationNotSupported"
    );
}

#[test]
fn aggregator_resolution_needs_a_namespace() {
    let mut edc = cluster_with(
        Some("edc1"),
        Some("vector-cm"),
        Some(Role { config: empty_common(), role_groups: vec![] }),
        false,
        false,
    );
    edc.metadata.namespace = None;
    assert_eq!(
        resolve_vector_aggregator_address(&edc, None),
        Err(LoggingError::ObjectHasNoNamespace)
    );
}

#[test]
fn aggregator_address_resolution_cases() {
    // No ConfigMap configured: no address, no error.
    let plain = cluster(vec![]);
    assert_eq!(resolve_vector_aggregator_address(&plain, None), Ok(None));

    // Configured and present with the ADDRESS entry: the address.
    let discovering = cluster_with(
        Some("edc1"),
        Some("vector-cm"),
        Some(Role { config: empty_common(), role_groups: vec![] }),
        false,
        false,
    );
    let data = vec![("ADDRESS".to_string(), "vector-aggregator:6000".to_string())];
    assert_eq!(
        resolve_vector_aggregator_address(&discovering, Some(&data)),
        Ok(Some("vector-aggregator:6000".to_string()))
    );

    // Configured but the ConfigMap was not found.
    match resolve_vector_aggregator_address(&discovering, None) {
        Err(LoggingError::ConfigMapNotFound { cm_name }) => {
            assert_eq!(cm_name, "vector-cm".to_string());
        },
        _ => panic!("expected a missing-ConfigMap error"),
    }

    // Found, but without the ADDRESS entry.
    let empty: Vec<(String, String)> = vec![];
    match resolve_vector_aggregator_address(&discovering, Some(&empty)) {
        Err(LoggingError::MissingConfigMapEntry { entry, cm_name }) => {
            assert_eq!(entry, "ADDRESS".to_string());
            assert_eq!(cm_name, "vector-cm".to_string());
        },
        _ => panic!("expected a missing-entry error"),
    }
}
