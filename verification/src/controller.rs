//! Ensures that the desired Kubernetes objects exist for a connector
//! cluster: the reconciliation error taxonomy, the object synthesizers, the
//! status-condition aggregation, and the orphan-pruning decision.
use vstd::prelude::*;

use crate::affinity::{pairs_view, role_selector_view};
use crate::crd::{
    name_any_view, ostr_view, rolegroup_object_name_view, s3_endpoint_view, ClusterCondition,
    ClusterConditionType, ConditionStatus, ConnectorConfig, EDCCluster, EDCRole, RoleGroupRef,
    S3ConnectionSpec,
};
use crate::k8s::{
    container_ports_view, containers_view, env_vars_view, strings_view, volume_mounts_view,
    volumes_view, ConfigMap, ContainerPort, ContainerPortView, ContainerSpec, ContainerSpecView,
    EnvVar, EnvVarView, ObjectMeta, ObjectMetaView, OwnerRefView, PodSecurityContext, PodTemplate,
    PodTemplateView, PvcTemplate, PvcTemplateView, ResourceRequirements, ResourceRequirementsView,
    Service, ServiceSpec, ServiceSpecView, ServiceView, StatefulSet, StatefulSetSpec,
    StatefulSetSpecView, StatefulSetView, TcpProbe, TcpProbeTimings, TcpProbeView, Volume,
    VolumeMount, VolumeMountView, VolumeSource, VolumeSourceView, VolumeView,
};
use crate::kvlist::{
    kv_map, kv_put, kv_sorted, kv_upsert, kv_upsert_all, lemma_upsert_all_view,
    pairs_view as kv_pairs_view, properties_text_v, to_properties_text, upsert_all_v,
};
use crate::namelist::has_name;

verus! {

/// The controller's name, as carried in the managed-by label.
pub open spec fn managed_by_view() -> Seq<char> {
    "edc.stackable.tech_edccluster"@
}

/// The size limit of the log volume: room for the rotated log files of
/// the connector plus the shipper's buffer.
pub open spec fn log_volume_size_view() -> Seq<char> {
    "30Mi"@
}

/// Largest total size of the connector's rotated log files, in mebibytes.
pub const MAX_LOG_FILES_SIZE_IN_MIB: u32 = 10;

/// Everything that can go wrong in one reconciliation pass. Every failure
/// aborts the pass; the shell retries after a fixed delay.
#[derive(Clone, PartialEq, Eq, Debug)]
pub enum Error {
    ObjectHasNoNamespace,
    NoServerRole,
    GlobalServiceNameNotFound,
    RoleGroupServiceNameNotFound { rolegroup: String },
    ApplyRoleService,
    ApplyRoleGroupService { rolegroup: String },
    BuildRoleGroupConfig { rolegroup: String },
    ApplyRoleGroupConfig { rolegroup: String },
    ApplyRoleGroupStatefulSet { rolegroup: String },
    GenerateProductConfig,
    InvalidProductConfig,
    ObjectMissingMetadataForOwnerRef,
    ApplyDiscoveryConfig,
    ApplyStatus,
    PropertiesWriteError,
    ResolveS3Connection,
    FailedToResolveResourceConfig { source: crate::crd::Error },
    FailedToCreateEdcContainer { name: String },
    CreateClusterResources,
    DeleteOrphanedResources,
    ResolveVectorAggregatorAddress { cause: crate::product_logging::Error },
    InvalidLoggingConfig { cm_name: String },
    ApplyServiceAccount,
    ApplyRoleBinding,
    BuildRbacResources,
    S3TlsNoVerificationNotSupported,
    JvmSecurityProperties { rolegroup: String },
    BuildLabel,
    ObjectMeta,
    BuildTlsVolume { volume_name: String },
    CredentialsToVolume { volume_name: String },
}

/// The category of an error: one fixed word per variant, for metrics and
/// logging.
pub open spec fn category_view(e: &Error) -> Seq<char> {
    match e {
        Error::ObjectHasNoNamespace => "ObjectHasNoNamespace"@,
        Error::NoServerRole => "NoServerRole"@,
        Error::GlobalServiceNameNotFound => "GlobalServiceNameNotFound"@,
        Error::RoleGroupServiceNameNotFound { .. } => "RoleGroupServiceNameNotFound"@,
        Error::ApplyRoleService => "ApplyRoleService"@,
        Error::ApplyRoleGroupService { .. } => "ApplyRoleGroupService"@,
        Error::BuildRoleGroupConfig { .. } => "BuildRoleGroupConfig"@,
        Error::ApplyRoleGroupConfig { .. } => "ApplyRoleGroupConfig"@,
        Error::ApplyRoleGroupStatefulSet { .. } => "ApplyRoleGroupStatefulSet"@,
        Error::GenerateProductConfig => "GenerateProductConfig"@,
        Error::InvalidProductConfig => "InvalidProductConfig"@,
        Error::ObjectMissingMetadataForOwnerRef => "ObjectMissingMetadataForOwnerRef"@,
        Error::ApplyDiscoveryConfig => "ApplyDiscoveryConfig"@,
        Error::ApplyStatus => "ApplyStatus"@,
        Error::PropertiesWriteError => "PropertiesWriteError"@,
        Error::ResolveS3Connection => "ResolveS3Connection"@,
        Error::FailedToResolveResourceConfig { .. } => "FailedToResolveResourceConfig"@,
        Error::FailedToCreateEdcContainer { .. } => "FailedToCreateEdcContainer"@,
        Error::CreateClusterResources => "CreateClusterResources"@,
        Error::DeleteOrphanedResources => "DeleteOrphanedResources"@,
        Error::ResolveVectorAggregatorAddress { .. } => "ResolveVectorAggregatorAddress"@,
        Error::InvalidLoggingConfig { .. } => "InvalidLoggingConfig"@,
        Error::ApplyServiceAccount => "ApplyServiceAccount"@,
        Error::ApplyRoleBinding => "ApplyRoleBinding"@,
        Error::BuildRbacResources => "BuildRbacResources"@,
        Error::S3TlsNoVerificationNotSupported => "S3TlsNoVerificationNotSupported"@,
        Error::JvmSecurityProperties { .. } => "JvmSecurityProperties"@,
        Error::BuildLabel => "BuildLabel"@,
        Error::ObjectMeta => "ObjectMeta"@,
        Error::BuildTlsVolume { .. } => "BuildTlsVolume"@,
        Error::CredentialsToVolume { .. } => "CredentialsToVolume"@,
    }
}

impl Error {
    /// The category of the error: one fixed word per variant.
    pub fn category(&self) -> (r: &'static str)
        ensures
            r@ == category_view(self),
    {
        match self {
            Error::ObjectHasNoNamespace => "ObjectHasNoNamespace",
            Error::NoServerRole => "NoServerRole",
            Error::GlobalServiceNameNotFound => "GlobalServiceNameNotFound",
            Error::RoleGroupServiceNameNotFound { .. } => "RoleGroupServiceNameNotFound",
            Error::ApplyRoleService => "ApplyRoleService",
            Error::ApplyRoleGroupService { .. } => "ApplyRoleGroupService",
            Error::BuildRoleGroupConfig { .. } => "BuildRoleGroupConfig",
            Error::ApplyRoleGroupConfig { .. } => "ApplyRoleGroupConfig",
            Error::ApplyRoleGroupStatefulSet { .. } => "ApplyRoleGroupStatefulSet",
            Error::GenerateProductConfig => "GenerateProductConfig",
            Error::InvalidProductConfig => "InvalidProductConfig",
            Error::ObjectMissingMetadataForOwnerRef => "ObjectMissingMetadataForOwnerRef",
            Error::ApplyDiscoveryConfig => "ApplyDiscoveryConfig",
            Error::ApplyStatus => "ApplyStatus",
            Error::PropertiesWriteError => "PropertiesWriteError",
            Error::ResolveS3Connection => "ResolveS3Connection",
            Error::FailedToResolveResourceConfig { .. } => "FailedToResolveResourceConfig",
            Error::FailedToCreateEdcContainer { .. } => "FailedToCreateEdcContainer",
            Error::CreateClusterResources => "CreateClusterResources",
            Error::DeleteOrphanedResources => "DeleteOrphanedResources",
            Error::ResolveVectorAggregatorAddress { .. } => "ResolveVectorAggregatorAddress",
            Error::InvalidLoggingConfig { .. } => "InvalidLoggingConfig",
            Error::ApplyServiceAccount => "ApplyServiceAccount",
            Error::ApplyRoleBinding => "ApplyRoleBinding",
            Error::BuildRbacResources => "BuildRbacResources",
            Error::S3TlsNoVerificationNotSupported => "S3TlsNoVerificationNotSupported",
            Error::JvmSecurityProperties { .. } => "JvmSecurityProperties",
            Error::BuildLabel => "BuildLabel",
            Error::ObjectMeta => "ObjectMeta",
            Error::BuildTlsVolume { .. } => "BuildTlsVolume",
            Error::CredentialsToVolume { .. } => "CredentialsToVolume",
        }
    }
}

/// What the controller asks the runtime to do after a pass.
#[derive(Clone, Copy, PartialEq, Eq, Structural, Debug)]
pub enum ReconcileAction {
    /// Wait for the next change or resync event.
    AwaitChange,
    /// Run the pass again after the given delay.
    Requeue { seconds: u64 },
}

/// After any failure, the pass is retried after a fixed five seconds; no
/// error kind retries differently.
pub fn error_policy(_edc: &EDCCluster, _error: &Error) -> (r: ReconcileAction)
    ensures
        r == (ReconcileAction::Requeue { seconds: 5u64 }),
{
    ReconcileAction::Requeue { seconds: 5 }
}

/// After a successful pass the controller waits for the next change or
/// resync event; there is no fixed-interval polling.
pub fn success_action() -> (r: ReconcileAction)
    ensures
        r == ReconcileAction::AwaitChange,
{
    ReconcileAction::AwaitChange
}

/// Whether the pass performs apply and delete actions: a paused cluster
/// skips them, but its status is still computed and reported.
pub fn apply_actions_enabled(op: &crate::crd::ClusterOperation) -> (r: bool)
    ensures
        r == !op.reconciliation_paused,
{
    !op.reconciliation_paused
}

/// A container image reference resolved against the registry, as the
/// shell hands it in.
pub struct ResolvedProductImage {
    pub image: String,
    pub app_version_label: String,
    pub product_version: String,
    pub pull_secrets: Vec<String>,
}

/// The validated per-role-group configuration the product-config
/// collaborator hands back: overrides per property kind.
pub struct RoleGroupValidatedConfig {
    pub env: Vec<(String, String)>,
    pub cli: Vec<(String, String)>,
    pub config_properties: Vec<(String, String)>,
    pub jvm_security: Vec<(String, String)>,
}

/// The fixed port set every Service of the cluster exposes.
pub open spec fn service_ports_spec() -> Seq<crate::k8s::ServicePortView> {
    seq![
        crate::k8s::ServicePortView { name: "http"@, port: 8181, protocol: "TCP"@ },
        crate::k8s::ServicePortView { name: "control"@, port: 8283, protocol: "TCP"@ },
        crate::k8s::ServicePortView { name: "management"@, port: 8182, protocol: "TCP"@ },
        crate::k8s::ServicePortView { name: "protocol"@, port: 8282, protocol: "TCP"@ },
        crate::k8s::ServicePortView { name: "public"@, port: 8284, protocol: "TCP"@ },
    ]
}

/// Builds the fixed port set every Service of the cluster exposes.
pub fn service_ports() -> (r: Vec<crate::k8s::ServicePort>)
    ensures
        crate::k8s::service_ports_view(r@) == service_ports_spec(),
{
    let mut v: Vec<crate::k8s::ServicePort> = Vec::new();
    v.push(
        crate::k8s::ServicePort {
            name: String::from_str("http"),
            port: 8181,
            protocol: String::from_str("TCP"),
        },
    );
    v.push(
        crate::k8s::ServicePort {
            name: String::from_str("control"),
            port: 8283,
            protocol: String::from_str("TCP"),
        },
    );
    v.push(
        crate::k8s::ServicePort {
            name: String::from_str("management"),
            port: 8182,
            protocol: String::from_str("TCP"),
        },
    );
    v.push(
        crate::k8s::ServicePort {
            name: String::from_str("protocol"),
            port: 8282,
            protocol: String::from_str("TCP"),
        },
    );
    v.push(
        crate::k8s::ServicePort {
            name: String::from_str("public"),
            port: 8284,
            protocol: String::from_str("TCP"),
        },
    );
    proof {
        assert(crate::k8s::service_ports_view(v@) =~= service_ports_spec());
    }
    v
}

/// The recommended label set every owned object carries.
pub open spec fn recommended_labels_view(
    cluster: Seq<char>,
    app_version: Seq<char>,
    role: Seq<char>,
    role_group: Seq<char>,
) -> Seq<(Seq<char>, Seq<char>)> {
    seq![
        ("app.kubernetes.io/name"@, "edc"@),
        ("app.kubernetes.io/instance"@, cluster),
        ("app.kubernetes.io/version"@, app_version),
        ("app.kubernetes.io/component"@, role),
        ("app.kubernetes.io/role-group"@, role_group),
        ("app.kubernetes.io/managed-by"@, managed_by_view()),
    ]
}

/// Builds the recommended label set carried by every owned object.
pub fn build_recommended_labels(
    owner: &EDCCluster,
    app_version: &str,
    role: &str,
    role_group: &str,
) -> (r: Vec<(String, String)>)
    ensures
        pairs_view(r@) == recommended_labels_view(
            name_any_view(owner),
            app_version@,
            role@,
            role_group@,
        ),
{
    let mut v: Vec<(String, String)> = Vec::new();
    v.push((String::from_str("app.kubernetes.io/name"), String::from_str("edc")));
    v.push((String::from_str("app.kubernetes.io/instance"), owner.name_any()));
    v.push((String::from_str("app.kubernetes.io/version"), String::from_str(app_version)));
    v.push((String::from_str("app.kubernetes.io/component"), String::from_str(role)));
    v.push((String::from_str("app.kubernetes.io/role-group"), String::from_str(role_group)));
    v.push(
        (
            String::from_str("app.kubernetes.io/managed-by"),
            String::from_str("edc.stackable.tech_edccluster"),
        ),
    );
    proof {
        assert(pairs_view(v@) =~= recommended_labels_view(
            name_any_view(owner),
            app_version@,
            role@,
            role_group@,
        ));
    }
    v
}

/// The labels selecting the pods of one role-group.
pub open spec fn role_group_selector_view(
    cluster: Seq<char>,
    role: Seq<char>,
    role_group: Seq<char>,
) -> Seq<(Seq<char>, Seq<char>)> {
    role_selector_view(cluster, role) + seq![("app.kubernetes.io/role-group"@, role_group)]
}

/// Builds the labels selecting the pods of one role-group.
pub fn role_group_selector_labels(edc: &EDCCluster, role: &str, role_group: &str) -> (r: Vec<
    (String, String),
>)
    ensures
        pairs_view(r@) == role_group_selector_view(name_any_view(edc), role@, role_group@),
{
    let mut v: Vec<(String, String)> = Vec::new();
    v.push((String::from_str("app.kubernetes.io/name"), String::from_str("edc")));
    v.push((String::from_str("app.kubernetes.io/instance"), edc.name_any()));
    v.push((String::from_str("app.kubernetes.io/component"), String::from_str(role)));
    v.push((String::from_str("app.kubernetes.io/role-group"), String::from_str(role_group)));
    proof {
        assert(pairs_view(v@) =~= role_group_selector_view(name_any_view(edc), role@, role_group@));
    }
    v
}

/// The owner reference every derived object points back with.
pub open spec fn owner_ref_view(c: &EDCCluster) -> crate::k8s::OwnerRefView {
    crate::k8s::OwnerRefView {
        name: name_any_view(c),
        uid: match c.metadata.uid {
            Some(u) => Some(u@),
            None => None,
        },
        controller: true,
    }
}

/// Builds the owner reference pointing back at the cluster resource.
pub fn build_owner_ref(c: &EDCCluster) -> (r: crate::k8s::OwnerRef)
    ensures
        r@ == owner_ref_view(c),
{
    crate::k8s::OwnerRef {
        name: c.name_any(),
        uid: crate::crd::clone_ostr(&c.metadata.uid),
        controller: true,
    }
}

/// Which status conditions hold after a pass: the StatefulSet rollouts
/// aggregate into availability, and the cluster-operation flags surface as
/// their own conditions.
pub open spec fn computed_conditions_view(
    c: &EDCCluster,
    rollouts: Seq<(String, bool)>,
) -> Seq<crate::crd::ClusterConditionView> {
    seq![
        crate::crd::ClusterConditionView {
            condition_type: ClusterConditionType::Available,
            status: if forall|i: int| 0 <= i < rollouts.len() ==> #[trigger] rollouts[i].1 {
                ConditionStatus::True
            } else {
                ConditionStatus::False
            },
            message: None,
            last_transition_time: None,
        },
        crate::crd::ClusterConditionView {
            condition_type: ClusterConditionType::ReconciliationPaused,
            status: if c.spec.cluster_operation.reconciliation_paused {
                ConditionStatus::True
            } else {
                ConditionStatus::False
            },
            message: None,
            last_transition_time: None,
        },
        crate::crd::ClusterConditionView {
            condition_type: ClusterConditionType::Stopped,
            status: if c.spec.cluster_operation.stopped {
                ConditionStatus::True
            } else {
                ConditionStatus::False
            },
            message: None,
            last_transition_time: None,
        },
    ]
}

/// The views of a list of conditions.
pub open spec fn conditions_view(s: Seq<ClusterCondition>) -> Seq<
    crate::crd::ClusterConditionView,
> {
    s.map_values(|c: ClusterCondition| c@)
}

/// Aggregates the per-role-group StatefulSet rollout observations and the
/// cluster-operation flags into the cluster's status conditions.
pub fn compute_conditions(edc: &EDCCluster, rollouts: &Vec<(String, bool)>) -> (r: Vec<
    ClusterCondition,
>)
    ensures
        conditions_view(r@) == computed_conditions_view(edc, rollouts@),
{
    let mut all_ready = true;
    let mut i: usize = 0;
    let n = rollouts.len();
    while i < n
        invariant
            n == rollouts@.len(),
            0 <= i <= n,
            all_ready == forall|j: int| 0 <= j < i ==> #[trigger] rollouts@[j].1,
        decreases n - i,
    {
        if !rollouts[i].1 {
            all_ready = false;
        }
        i = i + 1;
    }
    let mut v: Vec<ClusterCondition> = Vec::new();
    v.push(
        ClusterCondition {
            condition_type: ClusterConditionType::Available,
            status: if all_ready {
                ConditionStatus::True
            } else {
                ConditionStatus::False
            },
            message: None,
            last_transition_time: None,
        },
    );
    v.push(
        ClusterCondition {
            condition_type: ClusterConditionType::ReconciliationPaused,
            status: if edc.spec.cluster_operation.reconciliation_paused {
                ConditionStatus::True
            } else {
                ConditionStatus::False
            },
            message: None,
            last_transition_time: None,
        },
    );
    v.push(
        ClusterCondition {
            condition_type: ClusterConditionType::Stopped,
            status: if edc.spec.cluster_operation.stopped {
                ConditionStatus::True
            } else {
                ConditionStatus::False
            },
            message: None,
            last_transition_time: None,
        },
    );
    proof {
        assert(conditions_view(v@) =~= computed_conditions_view(edc, rollouts@));
    }
    v
}

/// The names owned by the previous pass that the current pass no longer
/// wants, in their previous order.
pub open spec fn orphans_spec(prev: Seq<String>, desired: Seq<String>) -> Seq<String>
    decreases prev.len(),
{
    if prev.len() == 0 {
        Seq::empty()
    } else if has_name(desired, prev[0]@) {
        orphans_spec(prev.skip(1), desired)
    } else {
        seq![prev[0]] + orphans_spec(prev.skip(1), desired)
    }
}

/// True when one of the names reads `n`.
pub fn contains_name(v: &Vec<String>, n: &str) -> (r: bool)
    ensures
        r == has_name(v@, n@),
{
    let mut i: usize = 0;
    let len = v.len();
    while i < len
        invariant
            len == v@.len(),
            0 <= i <= len,
            forall|j: int| 0 <= j < i ==> (#[trigger] v@[j]@) != n@,
        decreases len - i,
    {
        if crate::strcmp::str_eq(v[i].as_str(), n) {
            return true;
        }
        i = i + 1;
    }
    false
}

/// Orphan pruning: of the objects the previous pass produced, exactly
/// those no longer desired are handed back for deletion; every name the
/// current pass still wants is kept untouched.
pub fn orphaned_object_names(previous: &Vec<String>, desired: &Vec<String>) -> (r: Vec<String>)
    ensures
        r@ == orphans_spec(previous@, desired@),
{
    let ghost p = previous@;
    let mut out: Vec<String> = Vec::new();
    let mut i: usize = 0;
    let n = previous.len();
    proof {
        assert(p.skip(0) =~= p);
        assert(out@ + orphans_spec(p, desired@) =~= orphans_spec(p, desired@));
    }
    while i < n
        invariant
            n == p.len(),
            previous@ == p,
            0 <= i <= n,
            out@ + orphans_spec(p.skip(i as int), desired@) == orphans_spec(p, desired@),
        decreases n - i,
    {
        proof {
            assert(p.skip(i as int)[0] == p[i as int]);
            assert(p.skip(i as int).skip(1) =~= p.skip(i + 1));
        }
        if !contains_name(desired, previous[i].as_str()) {
            let item = previous[i].clone();
            proof {
                assert(item == p[i as int]);
                assert(out@.push(p[i as int]) + orphans_spec(p.skip(i + 1), desired@) =~= out@ + (
                seq![p[i as int]] + orphans_spec(p.skip(i + 1), desired@)));
            }
            out.push(item);
        }
        i = i + 1;
    }
    proof {
        assert(p.skip(n as int) =~= Seq::<String>::empty());
        assert(out@ + Seq::<String>::empty() =~= out@);
    }
    out
}

/// A name is an orphan exactly when the previous pass produced it and the
/// current pass no longer desires it.
pub proof fn lemma_orphans_exact(prev: Seq<String>, desired: Seq<String>, v: Seq<char>)
    ensures
        has_name(orphans_spec(prev, desired), v) <==> (has_name(prev, v) && !has_name(
            desired,
            v,
        )),
    decreases prev.len(),
{
    let r = orphans_spec(prev, desired);
    if prev.len() == 0 {
        if has_name(r, v) {
            let i = choose|i: int| 0 <= i < r.len() && r[i]@ == v;
        }
        if has_name(prev, v) {
            let i = choose|i: int| 0 <= i < prev.len() && prev[i]@ == v;
        }
    } else {
        lemma_orphans_exact(prev.skip(1), desired, v);
        let t = orphans_spec(prev.skip(1), desired);
        if has_name(desired, prev[0]@) {
            if has_name(prev, v) && !has_name(desired, v) {
                let i = choose|i: int| 0 <= i < prev.len() && prev[i]@ == v;
                assert(i > 0);
                assert(prev.skip(1)[i - 1] == prev[i]);
                assert(has_name(prev.skip(1), v));
            }
            if has_name(t, v) {
                let i = choose|i: int| 0 <= i < t.len() && t[i]@ == v;
                let m = choose|m: int| 0 <= m < prev.skip(1).len() && prev.skip(1)[m]@ == v;
                assert(prev.skip(1)[m] == prev[m + 1]);
                assert(has_name(prev, v));
            }
        } else {
            if has_name(r, v) {
                let i = choose|i: int| 0 <= i < r.len() && r[i]@ == v;
                if i == 0 {
                    assert(r[0] == prev[0]);
                    assert(has_name(prev, v));
                } else {
                    assert(r[i] == t[i - 1]);
                    assert(has_name(t, v));
                    let m = choose|m: int| 0 <= m < prev.skip(1).len() && prev.skip(1)[m]@ == v;
                    assert(prev.skip(1)[m] == prev[m + 1]);
                    assert(has_name(prev, v));
                }
            }
            if has_name(prev, v) && !has_name(desired, v) {
                let i = choose|i: int| 0 <= i < prev.len() && prev[i]@ == v;
                if i == 0 {
                    assert(r[0] == prev[0]);
                    assert(has_name(r, v));
                } else {
                    assert(prev.skip(1)[i - 1] == prev[i]);
                    assert(has_name(prev.skip(1), v));
                    assert(has_name(t, v));
                    let m = choose|m: int| 0 <= m < t.len() && t[m]@ == v;
                    assert(r[m + 1] == t[m]);
                    assert(has_name(r, v));
                }
            }
        }
    }
}


/// The namespace of the cluster resource, as a view.
pub open spec fn ns_view(c: &EDCCluster) -> Option<Seq<char>> {
    match c.metadata.namespace {
        Some(n) => Some(n@),
        None => None,
    }
}

/// The metadata every derived object carries: the given name, the
/// cluster's namespace, the recommended labels, and an owner reference.
pub open spec fn object_meta_view(
    c: &EDCCluster,
    name: Seq<char>,
    app_version: Seq<char>,
    role: Seq<char>,
    role_group: Seq<char>,
) -> ObjectMetaView {
    ObjectMetaView {
        name: name,
        namespace: ns_view(c),
        labels: recommended_labels_view(name_any_view(c), app_version, role, role_group),
        owner_reference: Some(owner_ref_view(c)),
    }
}

/// Builds the metadata of a derived object.
pub fn build_object_meta(
    edc: &EDCCluster,
    name: String,
    app_version: &str,
    role: &str,
    role_group: &str,
) -> (r: ObjectMeta)
    ensures
        r@ == object_meta_view(edc, name@, app_version@, role@, role_group@),
{
    ObjectMeta {
        name,
        namespace: crate::crd::clone_ostr(&edc.metadata.namespace),
        labels: build_recommended_labels(edc, app_version, role, role_group),
        owner_reference: Some(build_owner_ref(edc)),
    }
}

/// The role-level Service: exposes the fixed port set on all pods of the
/// role, with the Service type of the configured exposure class.
pub open spec fn server_role_service_view(c: &EDCCluster, app_version: Seq<char>) -> ServiceView {
    ServiceView {
        metadata: object_meta_view(
            c,
            c.metadata.name->Some_0@,
            app_version,
            "server"@,
            "global"@,
        ),
        spec: ServiceSpecView {
            type_: Some(c.spec.cluster_config.listener_class.k8s_service_type_view()),
            cluster_ip: None,
            ports: service_ports_spec(),
            selector: role_selector_view(name_any_view(c), "server"@),
            publish_not_ready_addresses: None,
        },
    }
}

/// Builds the role-level load-balanced Service of the cluster.
pub fn build_server_role_service(
    edc: &EDCCluster,
    resolved_product_image: &ResolvedProductImage,
) -> (r: Result<Service, Error>)
    ensures
        edc.metadata.name is None ==> r matches Err(Error::GlobalServiceNameNotFound),
        edc.metadata.name is Some ==> (r matches Ok(svc) && svc@ == server_role_service_view(
            edc,
            resolved_product_image.app_version_label@,
        )),
{
    let role_svc_name = match edc.server_role_service_name() {
        Some(n) => String::from_str(n),
        None => {
            return Err(Error::GlobalServiceNameNotFound);
        },
    };
    let name = edc.name_any();
    let metadata = build_object_meta(
        edc,
        role_svc_name,
        resolved_product_image.app_version_label.as_str(),
        EDCRole::Connector.as_str(),
        "global",
    );
    let selector = crate::affinity::role_selector_labels(name.as_str(), &EDCRole::Connector);
    let spec = ServiceSpec {
        type_: Some(edc.spec.cluster_config.listener_class.k8s_service_type()),
        cluster_ip: None,
        ports: service_ports(),
        selector,
        publish_not_ready_addresses: None,
    };
    Ok(Service { metadata, spec })
}

/// The role-group's headless Service: directly addresses the pods of one
/// role-group, published even before readiness so peers can connect.
pub open spec fn rolegroup_service_view(
    c: &EDCCluster,
    app_version: Seq<char>,
    cluster_name: Seq<char>,
    role: Seq<char>,
    group: Seq<char>,
) -> ServiceView {
    ServiceView {
        metadata: object_meta_view(
            c,
            rolegroup_object_name_view(cluster_name, role, group),
            app_version,
            role,
            group,
        ),
        spec: ServiceSpecView {
            type_: Some("ClusterIP"@),
            cluster_ip: Some("None"@),
            ports: service_ports_spec(),
            selector: role_group_selector_view(name_any_view(c), role, group),
            publish_not_ready_addresses: Some(true),
        },
    }
}

/// Builds the headless Service of one role-group.
pub fn build_rolegroup_service(
    edc: &EDCCluster,
    resolved_product_image: &ResolvedProductImage,
    rolegroup: &RoleGroupRef,
) -> (r: Result<Service, Error>)
    ensures
        r matches Ok(svc) && svc@ == rolegroup_service_view(
            edc,
            resolved_product_image.app_version_label@,
            rolegroup.cluster_name@,
            rolegroup.role@,
            rolegroup.role_group@,
        ),
{
    let metadata = build_object_meta(
        edc,
        rolegroup.object_name(),
        resolved_product_image.app_version_label.as_str(),
        rolegroup.role.as_str(),
        rolegroup.role_group.as_str(),
    );
    let selector = role_group_selector_labels(
        edc,
        rolegroup.role.as_str(),
        rolegroup.role_group.as_str(),
    );
    let spec = ServiceSpec {
        type_: Some(String::from_str("ClusterIP")),
        cluster_ip: Some(String::from_str("None")),
        ports: service_ports(),
        selector,
        publish_not_ready_addresses: Some(true),
    };
    Ok(Service { metadata, spec })
}

/// The endpoint of the object-storage connection, if one is configured.
pub open spec fn s3_opt_endpoint_view(s3_conn: Option<&S3ConnectionSpec>) -> Option<Seq<char>> {
    match s3_conn {
        Some(c) => s3_endpoint_view(c@),
        None => None,
    }
}

/// The entries of the runtime property file of one role-group: the
/// object-storage endpoint where one is known, then the validated
/// properties upserted over it (user overrides win), in ascending key
/// order.
pub open spec fn config_properties_entries_v(
    s3_conn: Option<&S3ConnectionSpec>,
    overrides: Seq<(Seq<char>, Seq<char>)>,
) -> Seq<(Seq<char>, Seq<char>)> {
    let base = match s3_opt_endpoint_view(s3_conn) {
        Some(e) => seq![("edc.ionos.endpoint"@, e)],
        None => Seq::empty(),
    };
    upsert_all_v(base, overrides)
}

/// The role-group's ConfigMap data before logging entries are added: the
/// serialized runtime property file and the JVM security property file.
pub open spec fn base_config_map_data_v(
    s3_conn: Option<&S3ConnectionSpec>,
    cfg: &RoleGroupValidatedConfig,
) -> Map<Seq<char>, Seq<char>> {
    Map::<Seq<char>, Seq<char>>::empty().insert(
        "config.properties"@,
        properties_text_v(config_properties_entries_v(s3_conn, kv_pairs_view(cfg.config_properties@))),
    ).insert("security.properties"@, properties_text_v(kv_pairs_view(cfg.jvm_security@)))
}

/// The view of an optional borrowed string.
pub open spec fn oref_view(o: Option<&str>) -> Option<Seq<char>> {
    match o {
        Some(x) => Some(x@),
        None => None,
    }
}

/// The ConfigMap of a role-group cannot be produced: its log shipper is
/// enabled but no aggregator address is known.
pub open spec fn cm_blocked(merged: crate::crd::ConnectorConfigView, addr: Option<Seq<char>>)
    -> bool {
    merged.logging.enable_vector_agent && addr is None
}

/// The level the role-group's log shipper filters at.
pub open spec fn vector_file_level_v(merged: crate::crd::ConnectorConfigView) -> crate::crd::LogLevel {
    match merged.logging.vector.choice {
        Some(crate::crd::LogChoiceView::Automatic(c)) => match c.file_level {
            Some(l) => l,
            None => crate::crd::LogLevel::Info,
        },
        _ => crate::crd::LogLevel::Info,
    }
}

/// The full data of a role-group's ConfigMap: the property files, the
/// generated logging configuration where automatic, and the shipper
/// configuration where enabled.
pub open spec fn config_map_data_view(
    ns: Option<Seq<char>>,
    cluster_name: Seq<char>,
    role: Seq<char>,
    group: Seq<char>,
    cfg: &RoleGroupValidatedConfig,
    merged: crate::crd::ConnectorConfigView,
    s3_conn: Option<&S3ConnectionSpec>,
    addr: Option<Seq<char>>,
) -> Map<Seq<char>, Seq<char>> {
    let m0 = base_config_map_data_v(s3_conn, cfg);
    let m1 = if merged.logging.connector.choice matches Some(
        crate::crd::LogChoiceView::Automatic(_),
    ) {
        m0.insert("logging.properties"@, crate::product_logging::java_logging_config_text())
    } else {
        m0
    };
    if merged.logging.enable_vector_agent {
        m1.insert(
            "vector.toml"@,
            crate::product_logging::vector_config_text(
                match ns {
                    Some(n) => n,
                    None => Seq::empty(),
                },
                cluster_name,
                role,
                group,
                addr->Some_0,
                vector_file_level_v(merged),
            ),
        )
    } else {
        m1
    }
}

/// Builds the role-group's ConfigMap: the runtime property file (with the
/// object-storage endpoint and the validated overrides), the JVM security
/// property file, and the logging configuration per the merged config.
pub fn build_connector_rolegroup_config_map(
    edc: &EDCCluster,
    resolved_product_image: &ResolvedProductImage,
    rolegroup: &RoleGroupRef,
    rolegroup_config: &RoleGroupValidatedConfig,
    merged_config: &ConnectorConfig,
    s3_conn: Option<&S3ConnectionSpec>,
    vector_aggregator_address: Option<&str>,
) -> (r: Result<ConfigMap, Error>)
    ensures
        cm_blocked(merged_config@, oref_view(vector_aggregator_address)) ==> (r matches Err(
            Error::InvalidLoggingConfig { cm_name },
        ) && cm_name@ == rolegroup_object_name_view(
            rolegroup.cluster_name@,
            rolegroup.role@,
            rolegroup.role_group@,
        )),
        !cm_blocked(merged_config@, oref_view(vector_aggregator_address)) ==> (r matches Ok(cm)
            && kv_sorted(cm.data@) && kv_map(cm.data@) == config_map_data_view(
            ostr_view(rolegroup.cluster_namespace),
            rolegroup.cluster_name@,
            rolegroup.role@,
            rolegroup.role_group@,
            rolegroup_config,
            merged_config@,
            s3_conn,
            oref_view(vector_aggregator_address),
        ) && cm.metadata@ == object_meta_view(
            edc,
            rolegroup_object_name_view(
                rolegroup.cluster_name@,
                rolegroup.role@,
                rolegroup.role_group@,
            ),
            resolved_product_image.app_version_label@,
            rolegroup.role@,
            rolegroup.role_group@,
        )),
{
    let mut props: Vec<(String, String)> = Vec::new();
    let ghost base0 = props@;
    match s3_conn {
        Some(conn) => match conn.endpoint() {
            Some(endpoint) => {
                let key = String::from_str("edc.ionos.endpoint");
                let ghost e = (key, endpoint);
                props = kv_upsert(props, key, endpoint);
                proof {
                    assert(props@ =~= seq![e]);
                }
            },
            None => (),
        },
        None => (),
    }
    proof {
        let base = match s3_opt_endpoint_view(s3_conn) {
            Some(e) => seq![("edc.ionos.endpoint"@, e)],
            None => Seq::<(Seq<char>, Seq<char>)>::empty(),
        };
        assert(kv_pairs_view(props@) =~= base);
    }
    let ghost props_before = props@;
    let entries = kv_upsert_all(props, &rolegroup_config.config_properties);
    proof {
        lemma_upsert_all_view(props_before, rolegroup_config.config_properties@);
    }
    let config_properties_text = to_properties_text(&entries);
    let jvm_text = to_properties_text(&rolegroup_config.jvm_security);

    let mut data: Vec<(String, String)> = Vec::new();
    proof {
        assert(kv_sorted(data@));
        assert(kv_map(data@) =~= Map::<Seq<char>, Seq<char>>::empty());
    }
    data = kv_put(data, "config.properties", config_properties_text);
    data = kv_put(data, "security.properties", jvm_text);
    let data = match crate::product_logging::extend_role_group_config_map(
        rolegroup,
        vector_aggregator_address,
        &merged_config.logging,
        data,
    ) {
        Ok(d) => d,
        Err(_e) => {
            return Err(Error::InvalidLoggingConfig { cm_name: rolegroup.object_name() });
        },
    };
    let metadata = build_object_meta(
        edc,
        rolegroup.object_name(),
        resolved_product_image.app_version_label.as_str(),
        rolegroup.role.as_str(),
        rolegroup.role_group.as_str(),
    );
    Ok(ConfigMap { metadata, data })
}


/// The shell prelude that captures the connector's output under the log
/// directory before handing control to the java process.
pub open spec fn capture_shell_output_text() -> Seq<char> {
    "mkdir --parents /stackable/log/edc && exec > >(tee /stackable/log/edc/edc.stdout.log) 2> >(tee /stackable/log/edc/edc.stderr.log >&2)"@
}

/// The one shell argument the connector container runs: the optional
/// output capture, then the java invocation with the config-file path,
/// the logging configuration, the optional object-storage credentials read
/// from their mounted secret files at container start, the JVM security
/// properties, and finally the connector jar.
pub open spec fn java_command_text(capture: bool, creds: bool) -> Seq<char> {
    (if capture {
        capture_shell_output_text() + " "@
    } else {
        Seq::empty()
    }) + "java -Dedc.fs.config=/stackable/config/config.properties -Djava.util.logging.config.file=/stackable/config/logging.properties "@
        + (if creds {
        "-Dedc.ionos.access.key=$(cat /stackable/secrets/accessKey) -Dedc.ionos.secret.key=$(cat /stackable/secrets/secretKey) "@
    } else {
        Seq::empty()
    }) + "-Djava.security.properties=/stackable/config/security.properties -jar connector.jar"@
}

/// Builds the connector's shell argument.
fn build_java_command(capture: bool, creds: bool) -> (r: String)
    ensures
        r@ == java_command_text(capture, creds),
{
    let mut out = String::new();
    if capture {
        out.append(
            "mkdir --parents /stackable/log/edc && exec > >(tee /stackable/log/edc/edc.stdout.log) 2> >(tee /stackable/log/edc/edc.stderr.log >&2)",
        );
        out.append(" ");
    }
    out.append(
        "java -Dedc.fs.config=/stackable/config/config.properties -Djava.util.logging.config.file=/stackable/config/logging.properties ",
    );
    if creds {
        out.append(
            "-Dedc.ionos.access.key=$(cat /stackable/secrets/accessKey) -Dedc.ionos.secret.key=$(cat /stackable/secrets/secretKey) ",
        );
    }
    out.append("-Djava.security.properties=/stackable/config/security.properties -jar connector.jar");
    proof {
        if !capture {
            assert(Seq::<char>::empty() + "java -Dedc.fs.config=/stackable/config/config.properties -Djava.util.logging.config.file=/stackable/config/logging.properties "@
                =~= "java -Dedc.fs.config=/stackable/config/config.properties -Djava.util.logging.config.file=/stackable/config/logging.properties "@);
        }
        if !creds {
            assert(out@ =~= java_command_text(capture, creds));
        }
    }
    out
}

/// The environment of the connector container contributed by the user's
/// overrides: entries in order, except that an entry with an empty name is
/// tolerated and skipped.
pub open spec fn env_overrides_v(s: Seq<(Seq<char>, Seq<char>)>) -> Seq<EnvVarView>
    decreases s.len(),
{
    if s.len() == 0 {
        Seq::empty()
    } else {
        let rest = env_overrides_v(s.skip(1));
        if s[0].0.len() == 0 {
            rest
        } else {
            seq![EnvVarView { name: s[0].0, value: Some(s[0].1), value_from_secret: None }] + rest
        }
    }
}

/// The environment variable drawing the object-storage token from its
/// secret.
pub open spec fn token_env_view(token_secret: Seq<char>) -> EnvVarView {
    EnvVarView {
        name: "EDC_IONOS_TOKEN"@,
        value: None,
        value_from_secret: Some((token_secret, "EDC_IONOS_TOKEN"@)),
    }
}

/// Builds the environment of the connector container: the user's
/// overrides (skipping empty names), then the object-storage token.
fn build_env_vars(env_overrides: &Vec<(String, String)>, token_secret: &String) -> (r: Vec<EnvVar>)
    ensures
        env_vars_view(r@) == env_overrides_v(kv_pairs_view(env_overrides@)) + seq![
            token_env_view(token_secret@),
        ],
{
    let ghost s = kv_pairs_view(env_overrides@);
    let mut out: Vec<EnvVar> = Vec::new();
    let mut i: usize = 0;
    let n = env_overrides.len();
    proof {
        assert(s.skip(0) =~= s);
        assert(env_vars_view(out@) + env_overrides_v(s) =~= env_overrides_v(s));
    }
    while i < n
        invariant
            n == env_overrides@.len(),
            s == kv_pairs_view(env_overrides@),
            s.len() == n,
            0 <= i <= n,
            env_vars_view(out@) + env_overrides_v(s.skip(i as int)) == env_overrides_v(s),
        decreases n - i,
    {
        proof {
            assert(s.skip(i as int)[0] == s[i as int]);
            assert(s[i as int] == crate::kvlist::pair_view(env_overrides@[i as int]));
            assert(s.skip(i as int).skip(1) =~= s.skip(i + 1));
        }
        if !env_overrides[i].0.as_str().is_empty() {
            let e = EnvVar {
                name: env_overrides[i].0.clone(),
                value: Some(env_overrides[i].1.clone()),
                value_from_secret: None,
            };
            proof {
                assert(e@ == (EnvVarView {
                    name: s[i as int].0,
                    value: Some(s[i as int].1),
                    value_from_secret: None,
                }));
                assert(env_vars_view(out@.push(e)) =~= env_vars_view(out@).push(e@));
                assert(env_vars_view(out@).push(e@) + env_overrides_v(s.skip(i + 1))
                    =~= env_vars_view(out@) + (seq![e@] + env_overrides_v(s.skip(i + 1))));
            }
            out.push(e);
        }
        i = i + 1;
    }
    proof {
        assert(s.skip(n as int) =~= Seq::<(Seq<char>, Seq<char>)>::empty());
        assert(env_vars_view(out@) + Seq::<EnvVarView>::empty() =~= env_vars_view(out@));
    }
    let token = EnvVar {
        name: String::from_str("EDC_IONOS_TOKEN"),
        value: None,
        value_from_secret: Some((token_secret.clone(), String::from_str("EDC_IONOS_TOKEN"))),
    };
    proof {
        assert(token@ == token_env_view(token_secret@));
        assert(env_vars_view(out@.push(token)) =~= env_vars_view(out@).push(token@));
        assert(env_vars_view(out@).push(token@) =~= env_overrides_v(s) + seq![
            token_env_view(token_secret@),
        ]);
    }
    out.push(token);
    out
}

/// The volume holding the object-storage credentials, where configured.
pub open spec fn s3_credential_volumes_v(c: crate::crd::S3ConnectionSpecView) -> Seq<VolumeView> {
    match c.credentials {
        Some(sc) => seq![
            VolumeView {
                name: "s3-credentials"@,
                source: VolumeSourceView::SecretClassEphemeral(sc),
            },
        ],
        None => Seq::empty(),
    }
}

/// The mount of the object-storage credential volume, where configured.
pub open spec fn s3_credential_mounts_v(c: crate::crd::S3ConnectionSpecView) -> Seq<
    VolumeMountView,
> {
    match c.credentials {
        Some(_sc) => seq![
            VolumeMountView { name: "s3-credentials"@, mount_path: "/stackable/secrets"@ },
        ],
        None => Seq::empty(),
    }
}

/// The volume holding the certificate of a TLS-verified object-storage
/// connection, where the certificate authority comes from a secret class.
pub open spec fn s3_tls_volumes_v(c: crate::crd::S3ConnectionSpecView) -> Seq<VolumeView> {
    match c.tls {
        Some(
            crate::crd::TlsVerificationView::Server(crate::crd::CaCertView::SecretClass(scls)),
        ) => seq![
            VolumeView {
                name: scls + "-tls-certificate"@,
                source: VolumeSourceView::SecretClassEphemeral(scls),
            },
        ],
        _ => Seq::empty(),
    }
}

/// The mount of the object-storage certificate volume.
pub open spec fn s3_tls_mounts_v(c: crate::crd::S3ConnectionSpecView) -> Seq<VolumeMountView> {
    match c.tls {
        Some(
            crate::crd::TlsVerificationView::Server(crate::crd::CaCertView::SecretClass(scls)),
        ) => seq![
            VolumeMountView {
                name: scls + "-tls-certificate"@,
                mount_path: "/stackable/certificates/"@ + scls + "-tls-certificate"@,
            },
        ],
        _ => Seq::empty(),
    }
}

/// The volumes the object-storage connection adds to the pod.
pub open spec fn s3_volumes_v(s3_conn: Option<&S3ConnectionSpec>) -> Seq<VolumeView> {
    match s3_conn {
        Some(c) => s3_credential_volumes_v(c@) + s3_tls_volumes_v(c@),
        None => Seq::empty(),
    }
}

/// The volume mounts the object-storage connection adds to the container.
pub open spec fn s3_mounts_v(s3_conn: Option<&S3ConnectionSpec>) -> Seq<VolumeMountView> {
    match s3_conn {
        Some(c) => s3_credential_mounts_v(c@) + s3_tls_mounts_v(c@),
        None => Seq::empty(),
    }
}

/// The object-storage connection refuses TLS without verification.
pub open spec fn s3_tls_unverified(s3_conn: Option<&S3ConnectionSpec>) -> bool {
    match s3_conn {
        Some(c) => c@.tls matches Some(crate::crd::TlsVerificationView::Unverified),
        None => false,
    }
}

/// Adds the object-storage volumes and mounts: the credential volume
/// first, then, for a TLS connection verified against a secret-class
/// certificate authority, the certificate volume. TLS without server
/// verification is refused.
pub fn add_s3_volume_and_volume_mounts(
    s3_conn: Option<&S3ConnectionSpec>,
    mounts: &mut Vec<VolumeMount>,
    volumes: &mut Vec<Volume>,
) -> (r: Result<(), Error>)
    ensures
        !s3_tls_unverified(s3_conn) ==> (r is Ok && volumes_view(final(volumes)@) == volumes_view(
            old(volumes)@,
        ) + s3_volumes_v(s3_conn) && volume_mounts_view(final(mounts)@) == volume_mounts_view(
            old(mounts)@,
        ) + s3_mounts_v(s3_conn)),
        s3_tls_unverified(s3_conn) ==> r matches Err(Error::S3TlsNoVerificationNotSupported),
{
    match s3_conn {
        None => {
            proof {
                assert(volumes_view(volumes@) + Seq::<VolumeView>::empty() =~= volumes_view(
                    volumes@,
                ));
                assert(volume_mounts_view(mounts@) + Seq::<VolumeMountView>::empty()
                    =~= volume_mounts_view(mounts@));
            }
            Ok(())
        },
        Some(c) => {
            let ghost vols0 = volumes_view(volumes@);
            let ghost mnts0 = volume_mounts_view(mounts@);
            match &c.credentials {
                Some(creds) => {
                    let vol = Volume {
                        name: String::from_str("s3-credentials"),
                        source: VolumeSource::SecretClassEphemeral {
                            secret_class: creds.secret_class.clone(),
                        },
                    };
                    let mnt = VolumeMount {
                        name: String::from_str("s3-credentials"),
                        mount_path: String::from_str("/stackable/secrets"),
                    };
                    proof {
                        assert(volumes_view(volumes@.push(vol)) =~= volumes_view(volumes@).push(
                            vol@,
                        ));
                        assert(volume_mounts_view(mounts@.push(mnt)) =~= volume_mounts_view(
                            mounts@,
                        ).push(mnt@));
                    }
                    volumes.push(vol);
                    mounts.push(mnt);
                    proof {
                        assert(volumes_view(volumes@) =~= vols0 + s3_credential_volumes_v(c@));
                        assert(volume_mounts_view(mounts@) =~= mnts0 + s3_credential_mounts_v(c@));
                    }
                },
                None => {
                    proof {
                        assert(volumes_view(volumes@) =~= vols0 + s3_credential_volumes_v(c@));
                        assert(volume_mounts_view(mounts@) =~= mnts0 + s3_credential_mounts_v(c@));
                    }
                },
            }
            match &c.tls {
                Some(tls) => match &tls.verification {
                    crate::crd::TlsVerification::Unverified => {
                        return Err(Error::S3TlsNoVerificationNotSupported);
                    },
                    crate::crd::TlsVerification::Server(ca) => match ca {
                        crate::crd::CaCert::WebPki => {
                            proof {
                                assert(volumes_view(volumes@) =~= vols0 + s3_volumes_v(s3_conn));
                                assert(volume_mounts_view(mounts@) =~= mnts0 + s3_mounts_v(
                                    s3_conn,
                                ));
                            }
                        },
                        crate::crd::CaCert::SecretClass(scls) => {
                            let mut vol_name = scls.clone();
                            vol_name.append("-tls-certificate");
                            let mut path = String::from_str("/stackable/certificates/");
                            path.append(vol_name.as_str());
                            let vol = Volume {
                                name: vol_name.clone(),
                                source: VolumeSource::SecretClassEphemeral {
                                    secret_class: scls.clone(),
                                },
                            };
                            let mnt = VolumeMount { name: vol_name, mount_path: path };
                            proof {
                                assert(mnt@.mount_path =~= "/stackable/certificates/"@
                                    + (match c@.tls {
                                    Some(
                                        crate::crd::TlsVerificationView::Server(
                                            crate::crd::CaCertView::SecretClass(x),
                                        ),
                                    ) => x,
                                    _ => Seq::empty(),
                                }) + "-tls-certificate"@);
                                assert(volumes_view(volumes@.push(vol)) =~= volumes_view(
                                    volumes@,
                                ).push(vol@));
                                assert(volume_mounts_view(mounts@.push(mnt))
                                    =~= volume_mounts_view(mounts@).push(mnt@));
                            }
                            volumes.push(vol);
                            mounts.push(mnt);
                            proof {
                                assert(volumes_view(volumes@) =~= vols0 + s3_volumes_v(s3_conn));
                                assert(volume_mounts_view(mounts@) =~= mnts0 + s3_mounts_v(
                                    s3_conn,
                                ));
                            }
                        },
                    },
                },
                None => {
                    proof {
                        assert(volumes_view(volumes@) =~= vols0 + s3_volumes_v(s3_conn));
                        assert(volume_mounts_view(mounts@) =~= mnts0 + s3_mounts_v(s3_conn));
                    }
                },
            }
            Ok(())
        },
    }
}


/// The fixed container ports of the connector.
pub open spec fn container_ports_spec() -> Seq<ContainerPortView> {
    seq![
        ContainerPortView { name: "http"@, container_port: 8181 },
        ContainerPortView { name: "control"@, container_port: 8283 },
        ContainerPortView { name: "management"@, container_port: 8182 },
        ContainerPortView { name: "protocol"@, container_port: 8282 },
        ContainerPortView { name: "public"@, container_port: 8284 },
    ]
}

/// Builds the fixed container ports of the connector.
fn build_container_ports() -> (r: Vec<ContainerPort>)
    ensures
        container_ports_view(r@) == container_ports_spec(),
{
    let mut v: Vec<ContainerPort> = Vec::new();
    v.push(ContainerPort { name: String::from_str("http"), container_port: 8181 });
    v.push(ContainerPort { name: String::from_str("control"), container_port: 8283 });
    v.push(ContainerPort { name: String::from_str("management"), container_port: 8182 });
    v.push(ContainerPort { name: String::from_str("protocol"), container_port: 8282 });
    v.push(ContainerPort { name: String::from_str("public"), container_port: 8284 });
    proof {
        assert(container_ports_view(v@) =~= container_ports_spec());
    }
    v
}

/// The fixed mounts of the connector container: configuration, keystore
/// certificates, the log directory, and the mounted logging configuration.
pub open spec fn fixed_edc_mounts_v() -> Seq<VolumeMountView> {
    seq![
        VolumeMountView { name: "config"@, mount_path: "/stackable/config"@ },
        VolumeMountView { name: "cert-mount"@, mount_path: "/stackable/mount/cert"@ },
        VolumeMountView { name: "log"@, mount_path: "/stackable/log"@ },
        VolumeMountView { name: "log-config-mount"@, mount_path: "/stackable/mount/log-config"@ },
    ]
}

/// The connector container's resources: requests pinned to the merged
/// minima, limits to the merged maxima, memory request equal to its limit.
pub open spec fn merged_resources_view(
    merged: crate::crd::ConnectorConfigView,
) -> ResourceRequirementsView {
    ResourceRequirementsView {
        cpu_request: Some(merged.resources.cpu.min),
        cpu_limit: Some(merged.resources.cpu.max),
        memory_request: Some(merged.resources.memory.limit),
        memory_limit: Some(merged.resources.memory.limit),
    }
}

/// The connector's readiness probe: TCP on the primary port, a short
/// initial delay, many retries.
pub open spec fn readiness_probe_view() -> TcpProbeView {
    TcpProbeView {
        port_name: "http"@,
        timings: TcpProbeTimings {
            initial_delay_seconds: 10,
            period_seconds: 10,
            failure_threshold: Some(50),
        },
    }
}

/// The connector's liveness probe: TCP on the primary port, a longer
/// initial delay, default retries.
pub open spec fn liveness_probe_view() -> TcpProbeView {
    TcpProbeView {
        port_name: "http"@,
        timings: TcpProbeTimings {
            initial_delay_seconds: 60,
            period_seconds: 20,
            failure_threshold: None,
        },
    }
}

/// Whether the connector's log output is captured by the generated shell
/// prelude: exactly when its logging is configured automatically.
pub open spec fn has_capture(merged: crate::crd::ConnectorConfigView) -> bool {
    merged.logging.connector.choice matches Some(crate::crd::LogChoiceView::Automatic(_))
}

/// Whether object-storage credentials are injected at container start.
pub open spec fn has_creds(s3_conn: Option<&S3ConnectionSpec>) -> bool {
    match s3_conn {
        Some(c) => c.credentials is Some,
        None => false,
    }
}

/// The connector container of the pod template.
pub open spec fn edc_container_view(
    edc: &EDCCluster,
    merged: crate::crd::ConnectorConfigView,
    s3_conn: Option<&S3ConnectionSpec>,
    image: Seq<char>,
    env_overrides: Seq<(Seq<char>, Seq<char>)>,
) -> ContainerSpecView {
    ContainerSpecView {
        name: "edc"@,
        image: image,
        command: seq!["/bin/bash"@, "-c"@],
        args: seq![java_command_text(has_capture(merged), has_creds(s3_conn))],
        env: env_overrides_v(env_overrides) + seq![
            token_env_view(edc.spec.cluster_config.ionos.token_secret@),
        ],
        ports: container_ports_spec(),
        volume_mounts: s3_mounts_v(s3_conn) + fixed_edc_mounts_v(),
        resources: merged_resources_view(merged),
        readiness_probe: Some(readiness_probe_view()),
        liveness_probe: Some(liveness_probe_view()),
    }
}

/// The log-shipper sidecar: ships from the log volume, configured from
/// the role-group ConfigMap, with small fixed resources.
pub open spec fn vector_container_view(image: Seq<char>) -> ContainerSpecView {
    ContainerSpecView {
        name: "vector"@,
        image: image,
        command: seq!["/bin/bash"@, "-c"@],
        args: seq!["vector --config /stackable/config/vector.toml"@],
        env: Seq::empty(),
        ports: Seq::empty(),
        volume_mounts: seq![
            VolumeMountView { name: "config"@, mount_path: "/stackable/config"@ },
            VolumeMountView { name: "log"@, mount_path: "/stackable/log"@ },
        ],
        resources: ResourceRequirementsView {
            cpu_request: Some("250m"@),
            cpu_limit: Some("500m"@),
            memory_request: Some("128Mi"@),
            memory_limit: Some("128Mi"@),
        },
        readiness_probe: None,
        liveness_probe: None,
    }
}

/// Builds the log-shipper sidecar container.
fn build_vector_container(image: &String) -> (r: ContainerSpec)
    ensures
        r@ == vector_container_view(image@),
{
    let mut command: Vec<String> = Vec::new();
    command.push(String::from_str("/bin/bash"));
    command.push(String::from_str("-c"));
    let mut args: Vec<String> = Vec::new();
    args.push(String::from_str("vector --config /stackable/config/vector.toml"));
    let mut mounts: Vec<VolumeMount> = Vec::new();
    mounts.push(
        VolumeMount {
            name: String::from_str("config"),
            mount_path: String::from_str("/stackable/config"),
        },
    );
    mounts.push(
        VolumeMount {
            name: String::from_str("log"),
            mount_path: String::from_str("/stackable/log"),
        },
    );
    let r = ContainerSpec {
        name: String::from_str("vector"),
        image: image.clone(),
        command,
        args,
        env: Vec::new(),
        ports: Vec::new(),
        volume_mounts: mounts,
        resources: ResourceRequirements {
            cpu_request: Some(String::from_str("250m")),
            cpu_limit: Some(String::from_str("500m")),
            memory_request: Some(String::from_str("128Mi")),
            memory_limit: Some(String::from_str("128Mi")),
        },
        readiness_probe: None,
        liveness_probe: None,
    };
    proof {
        assert(strings_view(r.command@) =~= vector_container_view(image@).command);
        assert(strings_view(r.args@) =~= vector_container_view(image@).args);
        assert(env_vars_view(r.env@) =~= Seq::<EnvVarView>::empty());
        assert(container_ports_view(r.ports@) =~= Seq::<ContainerPortView>::empty());
        assert(volume_mounts_view(r.volume_mounts@) =~= vector_container_view(
            image@,
        ).volume_mounts);
        assert(r@ == vector_container_view(image@));
    }
    r
}

/// The source of the mounted logging configuration: a user-supplied
/// ConfigMap where one is named, else the role-group's own ConfigMap.
pub open spec fn log_config_volume_source_v(
    merged: crate::crd::ConnectorConfigView,
    object_name: Seq<char>,
) -> VolumeSourceView {
    match merged.logging.connector.choice {
        Some(crate::crd::LogChoiceView::Custom(config_map)) => VolumeSourceView::ConfigMapVol(
            config_map,
        ),
        _ => VolumeSourceView::ConfigMapVol(object_name),
    }
}

/// The pod's volumes: the object-storage volumes, the role-group
/// configuration, the log scratch volume, the keystore certificates, and
/// the mounted logging configuration.
pub open spec fn pod_volumes_v(
    edc: &EDCCluster,
    merged: crate::crd::ConnectorConfigView,
    s3_conn: Option<&S3ConnectionSpec>,
    object_name: Seq<char>,
) -> Seq<VolumeView> {
    s3_volumes_v(s3_conn) + seq![
        VolumeView { name: "config"@, source: VolumeSourceView::ConfigMapVol(object_name) },
        VolumeView {
            name: "log"@,
            source: VolumeSourceView::EmptyDir(Some(log_volume_size_view())),
        },
        VolumeView {
            name: "cert-mount"@,
            source: VolumeSourceView::Secret(edc.spec.cluster_config.cert_secret@),
        },
        VolumeView {
            name: "log-config-mount"@,
            source: log_config_volume_source_v(merged, object_name),
        },
    ]
}

/// The replica count of the StatefulSet: the role-group's, where set.
pub open spec fn statefulset_replicas_v(edc: &EDCCluster, group: Seq<char>) -> Option<i32> {
    match edc.spec.connectors {
        Some(role) => match crate::crd::find_group(role.role_groups@, group) {
            Some(g) => match g.replicas {
                Some(n) => Some(n as i32),
                None => None,
            },
            None => None,
        },
        None => None,
    }
}

/// The StatefulSet of one role-group.
pub open spec fn statefulset_view(
    edc: &EDCCluster,
    merged: crate::crd::ConnectorConfigView,
    s3_conn: Option<&S3ConnectionSpec>,
    cluster_name: Seq<char>,
    role: Seq<char>,
    group: Seq<char>,
    image: Seq<char>,
    app_version: Seq<char>,
    pull_secrets: Seq<Seq<char>>,
    sa_name: Seq<char>,
    env_overrides: Seq<(Seq<char>, Seq<char>)>,
) -> StatefulSetView {
    let object_name = rolegroup_object_name_view(cluster_name, role, group);
    StatefulSetView {
        metadata: object_meta_view(edc, object_name, app_version, role, group),
        spec: StatefulSetSpecView {
            pod_management_policy: "Parallel"@,
            replicas: statefulset_replicas_v(edc, group),
            selector_match_labels: role_group_selector_view(name_any_view(edc), role, group),
            service_name: object_name,
            template: PodTemplateView {
                labels: recommended_labels_view(name_any_view(edc), app_version, role, group),
                image_pull_secrets: pull_secrets,
                containers: seq![edc_container_view(edc, merged, s3_conn, image, env_overrides)]
                    + (if merged.logging.enable_vector_agent {
                    seq![vector_container_view(image)]
                } else {
                    Seq::empty()
                }),
                volumes: pod_volumes_v(edc, merged, s3_conn, object_name),
                affinity: merged.affinity,
                service_account_name: sa_name,
                security_context: PodSecurityContext {
                    run_as_user: 1000,
                    run_as_group: 0,
                    fs_group: 1000,
                },
            },
            volume_claim_templates: seq![
                PvcTemplateView {
                    name: "data"@,
                    capacity: merged.resources.storage.data.capacity,
                    storage_class: merged.resources.storage.data.storage_class,
                    access_modes: seq!["ReadWriteOnce"@],
                },
            ],
        },
    }
}

/// Builds the StatefulSet that runs one role-group: the connector
/// container with its computed launch command, ports, mounts, probes and
/// merged resources; the optional log-shipper sidecar; the pod's volumes
/// and affinity; and the data volume claim template.
pub fn build_server_rolegroup_statefulset(
    edc: &EDCCluster,
    resolved_product_image: &ResolvedProductImage,
    rolegroup_ref: &RoleGroupRef,
    rolegroup_config: &RoleGroupValidatedConfig,
    merged_config: &ConnectorConfig,
    s3_conn: Option<&S3ConnectionSpec>,
    sa_name: &str,
) -> (r: Result<StatefulSet, Error>)
    ensures
        edc.spec.connectors is None ==> r matches Err(Error::NoServerRole),
        edc.spec.connectors is Some && s3_tls_unverified(s3_conn) ==> r matches Err(
            Error::S3TlsNoVerificationNotSupported,
        ),
        edc.spec.connectors is Some && !s3_tls_unverified(s3_conn) ==> (r matches Ok(sts) && sts@
            == statefulset_view(
            edc,
            merged_config@,
            s3_conn,
            rolegroup_ref.cluster_name@,
            rolegroup_ref.role@,
            rolegroup_ref.role_group@,
            resolved_product_image.image@,
            resolved_product_image.app_version_label@,
            strings_view(resolved_product_image.pull_secrets@),
            sa_name@,
            kv_pairs_view(rolegroup_config.env@),
        )),
{
    let replicas: Option<i32> = match &edc.spec.connectors {
        Some(role) => match crate::crd::find_role_group(role, rolegroup_ref.role_group.as_str()) {
            Some(g) => match g.replicas {
                Some(n) => Some(n as i32),
                None => None,
            },
            None => None,
        },
        None => {
            return Err(Error::NoServerRole);
        },
    };
    let object_name = rolegroup_ref.object_name();
    let ghost object_name_v = object_name@;

    let mut mounts: Vec<VolumeMount> = Vec::new();
    let mut volumes: Vec<Volume> = Vec::new();
    match add_s3_volume_and_volume_mounts(s3_conn, &mut mounts, &mut volumes) {
        Ok(()) => (),
        Err(e) => {
            return Err(e);
        },
    }
    proof {
        assert(volumes_view(volumes@) =~= s3_volumes_v(s3_conn));
        assert(volume_mounts_view(mounts@) =~= s3_mounts_v(s3_conn));
    }
    let ghost s3_mounts_part = volume_mounts_view(mounts@);
    mounts.push(
        VolumeMount {
            name: String::from_str("config"),
            mount_path: String::from_str("/stackable/config"),
        },
    );
    mounts.push(
        VolumeMount {
            name: String::from_str("cert-mount"),
            mount_path: String::from_str("/stackable/mount/cert"),
        },
    );
    mounts.push(
        VolumeMount {
            name: String::from_str("log"),
            mount_path: String::from_str("/stackable/log"),
        },
    );
    mounts.push(
        VolumeMount {
            name: String::from_str("log-config-mount"),
            mount_path: String::from_str("/stackable/mount/log-config"),
        },
    );
    proof {
        assert(volume_mounts_view(mounts@) =~= s3_mounts_v(s3_conn) + fixed_edc_mounts_v());
    }

    let capture = match &merged_config.logging.connector.choice {
        Some(crate::crd::LogChoice::Automatic(_)) => true,
        _ => false,
    };
    let creds = match s3_conn {
        Some(c) => c.credentials.is_some(),
        None => false,
    };
    let command_text = build_java_command(capture, creds);
    let mut command: Vec<String> = Vec::new();
    command.push(String::from_str("/bin/bash"));
    command.push(String::from_str("-c"));
    let mut args: Vec<String> = Vec::new();
    args.push(command_text);
    let env = build_env_vars(&rolegroup_config.env, &edc.spec.cluster_config.ionos.token_secret);
    let container_edc = ContainerSpec {
        name: String::from_str("edc"),
        image: resolved_product_image.image.clone(),
        command,
        args,
        env,
        ports: build_container_ports(),
        volume_mounts: mounts,
        resources: ResourceRequirements {
            cpu_request: Some(merged_config.resources.cpu.min.clone()),
            cpu_limit: Some(merged_config.resources.cpu.max.clone()),
            memory_request: Some(merged_config.resources.memory.limit.clone()),
            memory_limit: Some(merged_config.resources.memory.limit.clone()),
        },
        readiness_probe: Some(
            TcpProbe {
                port_name: String::from_str("http"),
                timings: TcpProbeTimings {
                    initial_delay_seconds: 10,
                    period_seconds: 10,
                    failure_threshold: Some(50),
                },
            },
        ),
        liveness_probe: Some(
            TcpProbe {
                port_name: String::from_str("http"),
                timings: TcpProbeTimings {
                    initial_delay_seconds: 60,
                    period_seconds: 20,
                    failure_threshold: None,
                },
            },
        ),
    };
    proof {
        assert(strings_view(container_edc.command@) =~= seq!["/bin/bash"@, "-c"@]);
        assert(strings_view(container_edc.args@) =~= seq![java_command_text(capture, creds)]);
        assert(container_edc@ == edc_container_view(
            edc,
            merged_config@,
            s3_conn,
            resolved_product_image.image@,
            kv_pairs_view(rolegroup_config.env@),
        ));
    }

    volumes.push(
        Volume {
            name: String::from_str("config"),
            source: VolumeSource::ConfigMapVol { config_map_name: object_name.clone() },
        },
    );
    volumes.push(
        Volume {
            name: String::from_str("log"),
            source: VolumeSource::EmptyDir { size_limit: Some(String::from_str("30Mi")) },
        },
    );
    volumes.push(
        Volume {
            name: String::from_str("cert-mount"),
            source: VolumeSource::Secret {
                secret_name: edc.spec.cluster_config.cert_secret.clone(),
            },
        },
    );
    let log_config_source = match &merged_config.logging.connector.choice {
        Some(crate::crd::LogChoice::Custom { config_map }) => VolumeSource::ConfigMapVol {
            config_map_name: config_map.clone(),
        },
        _ => VolumeSource::ConfigMapVol { config_map_name: object_name.clone() },
    };
    volumes.push(Volume { name: String::from_str("log-config-mount"), source: log_config_source });
    proof {
        assert(volumes_view(volumes@) =~= pod_volumes_v(
            edc,
            merged_config@,
            s3_conn,
            object_name_v,
        ));
    }

    let mut containers: Vec<ContainerSpec> = Vec::new();
    containers.push(container_edc);
    if merged_config.logging.enable_vector_agent {
        containers.push(build_vector_container(&resolved_product_image.image));
    }
    proof {
        assert(containers_view(containers@) =~= seq![
            edc_container_view(
                edc,
                merged_config@,
                s3_conn,
                resolved_product_image.image@,
                kv_pairs_view(rolegroup_config.env@),
            ),
        ] + (if merged_config.logging.enable_vector_agent {
            seq![vector_container_view(resolved_product_image.image@)]
        } else {
            Seq::<ContainerSpecView>::empty()
        }));
    }

    let mut pull_secrets: Vec<String> = Vec::new();
    let mut pi: usize = 0;
    let pn = resolved_product_image.pull_secrets.len();
    while pi < pn
        invariant
            pn == resolved_product_image.pull_secrets@.len(),
            0 <= pi <= pn,
            pull_secrets@ == resolved_product_image.pull_secrets@.take(pi as int),
        decreases pn - pi,
    {
        let item = resolved_product_image.pull_secrets[pi].clone();
        proof {
            assert(item == resolved_product_image.pull_secrets@[pi as int]);
            assert(resolved_product_image.pull_secrets@.take(pi as int).push(
                resolved_product_image.pull_secrets@[pi as int],
            ) =~= resolved_product_image.pull_secrets@.take(pi + 1));
        }
        pull_secrets.push(item);
        pi = pi + 1;
    }
    proof {
        assert(resolved_product_image.pull_secrets@.take(pn as int)
            =~= resolved_product_image.pull_secrets@);
    }

    let template = PodTemplate {
        labels: build_recommended_labels(
            edc,
            resolved_product_image.app_version_label.as_str(),
            rolegroup_ref.role.as_str(),
            rolegroup_ref.role_group.as_str(),
        ),
        image_pull_secrets: pull_secrets,
        containers,
        volumes,
        affinity: crate::crd::clone_affinity(&merged_config.affinity),
        service_account_name: String::from_str(sa_name),
        security_context: PodSecurityContext { run_as_user: 1000, run_as_group: 0, fs_group: 1000 },
    };

    let mut access_modes: Vec<String> = Vec::new();
    access_modes.push(String::from_str("ReadWriteOnce"));
    let mut vcts: Vec<PvcTemplate> = Vec::new();
    vcts.push(
        PvcTemplate {
            name: String::from_str("data"),
            capacity: merged_config.resources.storage.data.capacity.clone(),
            storage_class: crate::crd::clone_ostr(&merged_config.resources.storage.data.storage_class),
            access_modes,
        },
    );

    let metadata = build_object_meta(
        edc,
        rolegroup_ref.object_name(),
        resolved_product_image.app_version_label.as_str(),
        rolegroup_ref.role.as_str(),
        rolegroup_ref.role_group.as_str(),
    );
    let spec = StatefulSetSpec {
        pod_management_policy: String::from_str("Parallel"),
        replicas,
        selector_match_labels: role_group_selector_labels(
            edc,
            rolegroup_ref.role.as_str(),
            rolegroup_ref.role_group.as_str(),
        ),
        service_name: object_name,
        template,
        volume_claim_templates: vcts,
    };
    let r = StatefulSet { metadata, spec };
    proof {
        let goal = statefulset_view(
            edc,
            merged_config@,
            s3_conn,
            rolegroup_ref.cluster_name@,
            rolegroup_ref.role@,
            rolegroup_ref.role_group@,
            resolved_product_image.image@,
            resolved_product_image.app_version_label@,
            strings_view(resolved_product_image.pull_secrets@),
            sa_name@,
            kv_pairs_view(rolegroup_config.env@),
        );
        assert(r.spec@.volume_claim_templates =~= goal.spec.volume_claim_templates) by {
            assert(strings_view(r.spec.volume_claim_templates@[0].access_modes@) =~= seq![
                "ReadWriteOnce"@,
            ]);
            assert(r.spec.volume_claim_templates@[0]@ == goal.spec.volume_claim_templates[0]);
        }
        assert(r.spec.template@ == goal.spec.template);
        assert(r@ == goal);
    }
    Ok(r)
}



/// One role-group entry of the desired state is exactly what the
/// synthesizer derives for group `g` from the given inputs.
pub open spec fn group_entry_matches(
    edc: &EDCCluster,
    image: &ResolvedProductImage,
    validated: Seq<(String, RoleGroupValidatedConfig)>,
    s3_conn: Option<&S3ConnectionSpec>,
    addr: Option<Seq<char>>,
    sa_name: Seq<char>,
    g: Seq<char>,
    entry: (String, DesiredRoleGroup),
) -> bool {
    let cfg = find_validated(validated, g)->Some_0;
    let merged = crate::crd::validated_view(crate::crd::merged_fragment_view(edc, g));
    &&& entry.0@ == g
    &&& entry.1.service@ == rolegroup_service_view(
        edc,
        image.app_version_label@,
        name_any_view(edc),
        "server"@,
        g,
    )
    &&& kv_sorted(entry.1.config_map.data@)
    &&& kv_map(entry.1.config_map.data@) == config_map_data_view(
        ns_view(edc),
        name_any_view(edc),
        "server"@,
        g,
        &cfg,
        merged,
        s3_conn,
        addr,
    )
    &&& entry.1.config_map.metadata@ == object_meta_view(
        edc,
        rolegroup_object_name_view(name_any_view(edc), "server"@, g),
        image.app_version_label@,
        "server"@,
        g,
    )
    &&& entry.1.stateful_set@ == statefulset_view(
        edc,
        merged,
        s3_conn,
        name_any_view(edc),
        "server"@,
        g,
        image.image@,
        image.app_version_label@,
        strings_view(image.pull_secrets@),
        sa_name,
        crate::kvlist::pairs_view(cfg.env@),
    )
}

/// The desired state is exactly what one pass derives from the inputs:
/// the role Service, and per role-group, in ascending name order, its
/// Service, ConfigMap and StatefulSet.
pub open spec fn desired_state_matches(
    edc: &EDCCluster,
    image: &ResolvedProductImage,
    validated: Seq<(String, RoleGroupValidatedConfig)>,
    s3_conn: Option<&S3ConnectionSpec>,
    addr: Option<Seq<char>>,
    sa_name: Seq<char>,
    state: &DesiredClusterState,
) -> bool {
    let snames = crate::namelist::sort_names(validated_names(validated));
    &&& state.server_role_service@ == server_role_service_view(edc, image.app_version_label@)
    &&& state.role_groups@.len() == snames.len()
    &&& forall|i: int|
        0 <= i < snames.len() ==> group_entry_matches(
            edc,
            image,
            validated,
            s3_conn,
            addr,
            sa_name,
            snames[i]@,
            #[trigger] state.role_groups@[i],
        )
}

/// The desired objects of one role-group.
pub struct DesiredRoleGroup {
    pub service: Service,
    pub config_map: ConfigMap,
    pub stateful_set: StatefulSet,
}

/// Everything one reconciliation pass wants to exist: the role-level
/// Service, and per role-group (in ascending name order) a headless
/// Service, a ConfigMap and a StatefulSet.
pub struct DesiredClusterState {
    pub server_role_service: Service,
    pub role_groups: Vec<(String, DesiredRoleGroup)>,
}

/// The role-group names of the validated configuration, in given order.
pub open spec fn validated_names(s: Seq<(String, RoleGroupValidatedConfig)>) -> Seq<String> {
    s.map_values(|e: (String, RoleGroupValidatedConfig)| e.0)
}

/// The first validated configuration of the given name, if any.
pub open spec fn find_validated(
    s: Seq<(String, RoleGroupValidatedConfig)>,
    name: Seq<char>,
) -> Option<RoleGroupValidatedConfig>
    decreases s.len(),
{
    if s.len() == 0 {
        None
    } else if s[0].0@ == name {
        Some(s[0].1)
    } else {
        find_validated(s.skip(1), name)
    }
}

/// A name occurring among the validated entries is found.
proof fn lemma_find_validated_some(s: Seq<(String, RoleGroupValidatedConfig)>, v: Seq<char>)
    requires
        has_name(validated_names(s), v),
    ensures
        find_validated(s, v) is Some,
    decreases s.len(),
{
    let names = validated_names(s);
    let i = choose|i: int| 0 <= i < names.len() && names[i]@ == v;
    assert(names[i] == s[i].0);
    if s[0].0@ != v {
        assert(i > 0);
        assert(validated_names(s.skip(1)) =~= names.skip(1));
        assert(names.skip(1)[i - 1] == names[i]);
        assert(has_name(validated_names(s.skip(1)), v));
        lemma_find_validated_some(s.skip(1), v);
    }
}

/// What blocks a pass while walking the role-groups.
pub ghost enum ReconcileBlock {
    /// This group's log shipper is enabled but no aggregator address is
    /// known.
    VectorAddressMissing(Seq<char>),
    /// The object-storage connection uses TLS without verification.
    TlsUnverified,
}

/// Walks the role-groups in order and reports the first blocking
/// condition, if any: a missing aggregator address surfaces at the
/// group's ConfigMap, then an unverifiable TLS connection at its
/// StatefulSet.
pub open spec fn groups_outcome(
    edc: &EDCCluster,
    s3_conn: Option<&S3ConnectionSpec>,
    addr: Option<Seq<char>>,
    names: Seq<String>,
) -> Option<ReconcileBlock>
    decreases names.len(),
{
    if names.len() == 0 {
        None
    } else {
        let merged = crate::crd::validated_view(
            crate::crd::merged_fragment_view(edc, names[0]@),
        );
        if cm_blocked(merged, addr) {
            Some(ReconcileBlock::VectorAddressMissing(names[0]@))
        } else if s3_tls_unverified(s3_conn) {
            Some(ReconcileBlock::TlsUnverified)
        } else {
            groups_outcome(edc, s3_conn, addr, names.skip(1))
        }
    }
}

/// Finds the first validated configuration of the given name.
fn find_validated_cfg<'a>(
    validated: &'a Vec<(String, RoleGroupValidatedConfig)>,
    name: &str,
) -> (r: Option<&'a RoleGroupValidatedConfig>)
    ensures
        match r {
            Some(c) => find_validated(validated@, name@) is Some && *c == find_validated(
                validated@,
                name@,
            )->Some_0,
            None => find_validated(validated@, name@) is None,
        },
{
    let ghost s = validated@;
    let mut i: usize = 0;
    let n = validated.len();
    proof {
        assert(s.skip(0) =~= s);
    }
    while i < n
        invariant
            n == s.len(),
            validated@ == s,
            0 <= i <= n,
            find_validated(s, name@) == find_validated(s.skip(i as int), name@),
        decreases n - i,
    {
        proof {
            assert(s.skip(i as int)[0] == s[i as int]);
            assert(s.skip(i as int).skip(1) =~= s.skip(i + 1));
        }
        if crate::strcmp::str_eq(validated[i].0.as_str(), name) {
            return Some(&validated[i].1);
        }
        i = i + 1;
    }
    proof {
        assert(s.skip(n as int) =~= Seq::<(String, RoleGroupValidatedConfig)>::empty());
    }
    None
}

/// One reconciliation pass over the desired state: merges each
/// role-group's configuration, synthesizes its objects in ascending
/// role-group name order, and reports the first blocking condition. The
/// shell applies the result, patches the status, and prunes orphans.
pub fn reconcile_edc(
    edc: &EDCCluster,
    resolved_product_image: &ResolvedProductImage,
    validated: &Vec<(String, RoleGroupValidatedConfig)>,
    s3_conn: Option<&S3ConnectionSpec>,
    vector_aggregator_address: Option<&String>,
    sa_name: &str,
) -> (r: Result<DesiredClusterState, Error>)
    ensures
        edc.spec.connectors is None ==> r matches Err(Error::NoServerRole),
        edc.spec.connectors is Some && edc.metadata.name is None ==> r matches Err(
            Error::GlobalServiceNameNotFound,
        ),
        edc.spec.connectors is Some && edc.metadata.name is Some ==> ({
            let snames = crate::namelist::sort_names(validated_names(validated@));
            let addr = match vector_aggregator_address {
                Some(a) => Some(a@),
                None => None,
            };
            match groups_outcome(edc, s3_conn, addr, snames) {
                Some(ReconcileBlock::VectorAddressMissing(g)) => r matches Err(
                    Error::InvalidLoggingConfig { cm_name },
                ) && cm_name@ == rolegroup_object_name_view(
                    name_any_view(edc),
                    "server"@,
                    g,
                ),
                Some(ReconcileBlock::TlsUnverified) => r matches Err(
                    Error::S3TlsNoVerificationNotSupported,
                ),
                None => (r matches Ok(state) && desired_state_matches(
                    edc,
                    resolved_product_image,
                    validated@,
                    s3_conn,
                    addr,
                    sa_name@,
                    &state,
                )),
            }
        }),
{
    if edc.spec.connectors.is_none() {
        return Err(Error::NoServerRole);
    }
    let server_role_service = match build_server_role_service(edc, resolved_product_image) {
        Ok(svc) => svc,
        Err(_e) => {
            return Err(Error::GlobalServiceNameNotFound);
        },
    };
    let mut names: Vec<String> = Vec::new();
    let ghost target = validated_names(validated@);
    let mut vi: usize = 0;
    let vn = validated.len();
    while vi < vn
        invariant
            vn == validated@.len(),
            target == validated_names(validated@),
            0 <= vi <= vn,
            names@ == target.take(vi as int),
        decreases vn - vi,
    {
        let name = validated[vi].0.clone();
        proof {
            assert(target[vi as int] == validated@[vi as int].0);
            assert(target.take(vi as int).push(target[vi as int]) =~= target.take(vi + 1));
        }
        names.push(name);
        vi = vi + 1;
    }
    proof {
        assert(target.take(vn as int) =~= target);
    }
    let sorted = crate::namelist::names_sort(&names);
    let ghost snames = crate::namelist::sort_names(target);
    let ghost addrv = match vector_aggregator_address {
        Some(a) => Some(a@),
        None => None,
    };

    let mut groups: Vec<(String, DesiredRoleGroup)> = Vec::new();
    let mut gi: usize = 0;
    let gn = sorted.len();
    proof {
        assert(snames.skip(0) =~= snames);
    }
    while gi < gn
        invariant
            edc.spec.connectors is Some,
            edc.metadata.name is Some,
            gn == snames.len(),
            sorted@ == snames,
            snames == crate::namelist::sort_names(validated_names(validated@)),
            addrv == (match vector_aggregator_address {
                Some(a) => Some(a@),
                None => None,
            }),
            0 <= gi <= gn,
            groups@.len() == gi,
            groups_outcome(edc, s3_conn, addrv, snames) == groups_outcome(
                edc,
                s3_conn,
                addrv,
                snames.skip(gi as int),
            ),
            forall|i: int|
                0 <= i < gi ==> group_entry_matches(
                    edc,
                    resolved_product_image,
                    validated@,
                    s3_conn,
                    addrv,
                    sa_name@,
                    snames[i]@,
                    #[trigger] groups@[i],
                ),
        decreases gn - gi,
    {
        let group_name = &sorted[gi];
        let ghost g = snames[gi as int]@;
        proof {
            assert(snames.skip(gi as int)[0] == snames[gi as int]);
            assert(snames.skip(gi as int).skip(1) =~= snames.skip(gi + 1));
        }
        let cfg = match find_validated_cfg(validated, group_name.as_str()) {
            Some(c) => c,
            None => {
                proof {
                    crate::namelist::lemma_insert_all_names_has(
                        Seq::empty(),
                        validated_names(validated@),
                        g,
                    );
                    assert(has_name(snames, g)) by {
                        assert(snames[gi as int]@ == g);
                    }
                    lemma_find_validated_some(validated@, g);
                }
                return Err(Error::InvalidProductConfig);
            },
        };
        let merged = match edc.merged_config(&EDCRole::Connector, group_name.as_str()) {
            Ok(m) => m,
            Err(e) => {
                return Err(Error::FailedToResolveResourceConfig { source: e });
            },
        };
        let rolegroup_ref = edc.server_rolegroup_ref(group_name.as_str());
        let rg_service = match build_rolegroup_service(edc, resolved_product_image, &rolegroup_ref)
            {
            Ok(svc) => svc,
            Err(e) => {
                return Err(e);
            },
        };
        let addr_ref: Option<&str> = match vector_aggregator_address {
            Some(a) => Some(a.as_str()),
            None => None,
        };
        let rg_configmap = match build_connector_rolegroup_config_map(
            edc,
            resolved_product_image,
            &rolegroup_ref,
            cfg,
            &merged,
            s3_conn,
            addr_ref,
        ) {
            Ok(cm) => cm,
            Err(e) => {
                proof {
                    assert(cm_blocked(merged@, addrv));
                    assert(groups_outcome(edc, s3_conn, addrv, snames.skip(gi as int)) == Some(
                        ReconcileBlock::VectorAddressMissing(g),
                    ));
                }
                return Err(e);
            },
        };
        let rg_statefulset = match build_server_rolegroup_statefulset(
            edc,
            resolved_product_image,
            &rolegroup_ref,
            cfg,
            &merged,
            s3_conn,
            sa_name,
        ) {
            Ok(sts) => sts,
            Err(e) => {
                proof {
                    assert(s3_tls_unverified(s3_conn));
                    assert(!cm_blocked(merged@, addrv));
                    assert(groups_outcome(edc, s3_conn, addrv, snames.skip(gi as int)) == Some(
                        ReconcileBlock::TlsUnverified,
                    ));
                }
                return Err(e);
            },
        };
        proof {
            assert(!cm_blocked(merged@, addrv));
            assert(!s3_tls_unverified(s3_conn));
        }
        let entry = (
            group_name.clone(),
            DesiredRoleGroup {
                service: rg_service,
                config_map: rg_configmap,
                stateful_set: rg_statefulset,
            },
        );
        groups.push(entry);
        gi = gi + 1;
    }
    proof {
        assert(snames.skip(gn as int) =~= Seq::<String>::empty());
    }
    Ok(DesiredClusterState { server_role_service, role_groups: groups })
}


/// Idempotence of the synthesizer: two desired states derived from
/// identical inputs are identical, object for object and byte for byte —
/// the same names, the same Service and StatefulSet definitions, and the
/// same ConfigMap entries in the same order. Applying the second is
/// therefore a no-op wherever the first was applied.
pub proof fn lemma_synthesis_idempotent(
    edc: &EDCCluster,
    image: &ResolvedProductImage,
    validated: Seq<(String, RoleGroupValidatedConfig)>,
    s3_conn: Option<&S3ConnectionSpec>,
    addr: Option<Seq<char>>,
    sa_name: Seq<char>,
    s1: &DesiredClusterState,
    s2: &DesiredClusterState,
)
    requires
        desired_state_matches(edc, image, validated, s3_conn, addr, sa_name, s1),
        desired_state_matches(edc, image, validated, s3_conn, addr, sa_name, s2),
    ensures
        s1.server_role_service@ == s2.server_role_service@,
        s1.role_groups@.len() == s2.role_groups@.len(),
        forall|i: int|
            0 <= i < s1.role_groups@.len() ==> {
                let e1 = #[trigger] s1.role_groups@[i];
                let e2 = s2.role_groups@[i];
                &&& e1.0@ == e2.0@
                &&& e1.1.service@ == e2.1.service@
                &&& e1.1.config_map.metadata@ == e2.1.config_map.metadata@
                &&& crate::kvlist::pairs_view(e1.1.config_map.data@) == crate::kvlist::pairs_view(
                    e2.1.config_map.data@,
                )
                &&& e1.1.stateful_set@ == e2.1.stateful_set@
            },
{
    let snames = crate::namelist::sort_names(validated_names(validated));
    assert forall|i: int| 0 <= i < s1.role_groups@.len() implies {
        let e1 = #[trigger] s1.role_groups@[i];
        let e2 = s2.role_groups@[i];
        &&& e1.0@ == e2.0@
        &&& e1.1.service@ == e2.1.service@
        &&& e1.1.config_map.metadata@ == e2.1.config_map.metadata@
        &&& crate::kvlist::pairs_view(e1.1.config_map.data@) == crate::kvlist::pairs_view(
            e2.1.config_map.data@,
        )
        &&& e1.1.stateful_set@ == e2.1.stateful_set@
    } by {
        assert(group_entry_matches(
            edc,
            image,
            validated,
            s3_conn,
            addr,
            sa_name,
            snames[i]@,
            s1.role_groups@[i],
        ));
        assert(group_entry_matches(
            edc,
            image,
            validated,
            s3_conn,
            addr,
            sa_name,
            snames[i]@,
            s2.role_groups@[i],
        ));
        crate::kvlist::lemma_sorted_map_unique(
            s1.role_groups@[i].1.config_map.data@,
            s2.role_groups@[i].1.config_map.data@,
        );
    }
}


/// Deterministic naming: within one role-group, the headless Service, the
/// ConfigMap and the StatefulSet all carry the one object name
/// `<cluster>-<role>-<role-group>`, and the StatefulSet points its
/// `serviceName` at the same string; the name is a pure function of the
/// three parts, never generated.
pub proof fn lemma_naming_consistent(
    edc: &EDCCluster,
    image: &ResolvedProductImage,
    validated: Seq<(String, RoleGroupValidatedConfig)>,
    s3_conn: Option<&S3ConnectionSpec>,
    addr: Option<Seq<char>>,
    sa_name: Seq<char>,
    state: &DesiredClusterState,
)
    requires
        desired_state_matches(edc, image, validated, s3_conn, addr, sa_name, state),
    ensures
        forall|i: int|
            0 <= i < state.role_groups@.len() ==> {
                let entry = #[trigger] state.role_groups@[i];
                let object_name = rolegroup_object_name_view(
                    name_any_view(edc),
                    "server"@,
                    entry.0@,
                );
                &&& entry.1.service.metadata.name@ == object_name
                &&& entry.1.config_map.metadata.name@ == object_name
                &&& entry.1.stateful_set.metadata.name@ == object_name
                &&& entry.1.stateful_set.spec.service_name@ == object_name
            },
{
    let snames = crate::namelist::sort_names(validated_names(validated));
    assert forall|i: int| 0 <= i < state.role_groups@.len() implies {
        let entry = #[trigger] state.role_groups@[i];
        let object_name = rolegroup_object_name_view(name_any_view(edc), "server"@, entry.0@);
        &&& entry.1.service.metadata.name@ == object_name
        &&& entry.1.config_map.metadata.name@ == object_name
        &&& entry.1.stateful_set.metadata.name@ == object_name
        &&& entry.1.stateful_set.spec.service_name@ == object_name
    } by {
        assert(group_entry_matches(
            edc,
            image,
            validated,
            s3_conn,
            addr,
            sa_name,
            snames[i]@,
            state.role_groups@[i],
        ));
    }
}

} // verus!
