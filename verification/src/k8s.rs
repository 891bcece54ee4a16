//! Plain models of the Kubernetes objects this operator synthesizes, with
//! their ghost images. The synthesizer produces values of these types; the
//! unverified shell converts them into live API objects.
use vstd::prelude::*;

use crate::affinity::{pairs_view, StackableAffinity, StackableAffinityView};
use crate::crd::ostr_view;

verus! {

/// An owner reference back to the cluster custom resource.
pub struct OwnerRef {
    pub name: String,
    pub uid: Option<String>,
    pub controller: bool,
}

/// Ghost image of [`OwnerRef`].
pub ghost struct OwnerRefView {
    pub name: Seq<char>,
    pub uid: Option<Seq<char>>,
    pub controller: bool,
}

impl View for OwnerRef {
    type V = OwnerRefView;

    open spec fn view(&self) -> OwnerRefView {
        OwnerRefView { name: self.name@, uid: ostr_view(self.uid), controller: self.controller }
    }
}

/// Identifying metadata of a synthesized object.
pub struct ObjectMeta {
    pub name: String,
    pub namespace: Option<String>,
    pub labels: Vec<(String, String)>,
    pub owner_reference: Option<OwnerRef>,
}

/// Ghost image of [`ObjectMeta`].
pub ghost struct ObjectMetaView {
    pub name: Seq<char>,
    pub namespace: Option<Seq<char>>,
    pub labels: Seq<(Seq<char>, Seq<char>)>,
    pub owner_reference: Option<OwnerRefView>,
}

impl View for ObjectMeta {
    type V = ObjectMetaView;

    open spec fn view(&self) -> ObjectMetaView {
        ObjectMetaView {
            name: self.name@,
            namespace: ostr_view(self.namespace),
            labels: pairs_view(self.labels@),
            owner_reference: match self.owner_reference {
                Some(ref o) => Some(o@),
                None => None,
            },
        }
    }
}

/// One exposed port of a Service.
pub struct ServicePort {
    pub name: String,
    pub port: i32,
    pub protocol: String,
}

/// Ghost image of [`ServicePort`].
pub ghost struct ServicePortView {
    pub name: Seq<char>,
    pub port: i32,
    pub protocol: Seq<char>,
}

impl View for ServicePort {
    type V = ServicePortView;

    open spec fn view(&self) -> ServicePortView {
        ServicePortView { name: self.name@, port: self.port, protocol: self.protocol@ }
    }
}

/// The views of a list of service ports.
pub open spec fn service_ports_view(s: Seq<ServicePort>) -> Seq<ServicePortView> {
    s.map_values(|p: ServicePort| p@)
}

/// The specification of a Service.
pub struct ServiceSpec {
    pub type_: Option<String>,
    pub cluster_ip: Option<String>,
    pub ports: Vec<ServicePort>,
    pub selector: Vec<(String, String)>,
    pub publish_not_ready_addresses: Option<bool>,
}

/// Ghost image of [`ServiceSpec`].
pub ghost struct ServiceSpecView {
    pub type_: Option<Seq<char>>,
    pub cluster_ip: Option<Seq<char>>,
    pub ports: Seq<ServicePortView>,
    pub selector: Seq<(Seq<char>, Seq<char>)>,
    pub publish_not_ready_addresses: Option<bool>,
}

impl View for ServiceSpec {
    type V = ServiceSpecView;

    open spec fn view(&self) -> ServiceSpecView {
        ServiceSpecView {
            type_: ostr_view(self.type_),
            cluster_ip: ostr_view(self.cluster_ip),
            ports: service_ports_view(self.ports@),
            selector: pairs_view(self.selector@),
            publish_not_ready_addresses: self.publish_not_ready_addresses,
        }
    }
}

/// A Kubernetes Service.
pub struct Service {
    pub metadata: ObjectMeta,
    pub spec: ServiceSpec,
}

/// Ghost image of [`Service`].
pub ghost struct ServiceView {
    pub metadata: ObjectMetaView,
    pub spec: ServiceSpecView,
}

impl View for Service {
    type V = ServiceView;

    open spec fn view(&self) -> ServiceView {
        ServiceView { metadata: self.metadata@, spec: self.spec@ }
    }
}

/// A Kubernetes ConfigMap: named text files.
pub struct ConfigMap {
    pub metadata: ObjectMeta,
    pub data: Vec<(String, String)>,
}

/// Ghost image of [`ConfigMap`].
pub ghost struct ConfigMapView {
    pub metadata: ObjectMetaView,
    pub data: Seq<(Seq<char>, Seq<char>)>,
}

impl View for ConfigMap {
    type V = ConfigMapView;

    open spec fn view(&self) -> ConfigMapView {
        ConfigMapView { metadata: self.metadata@, data: pairs_view(self.data@) }
    }
}

/// A TCP probe against a named container port.
#[derive(Clone, Copy, PartialEq, Eq, Structural, Debug)]
pub struct TcpProbeTimings {
    pub initial_delay_seconds: i32,
    pub period_seconds: i32,
    pub failure_threshold: Option<i32>,
}

/// A TCP probe against a named container port.
pub struct TcpProbe {
    pub port_name: String,
    pub timings: TcpProbeTimings,
}

/// Ghost image of [`TcpProbe`].
pub ghost struct TcpProbeView {
    pub port_name: Seq<char>,
    pub timings: TcpProbeTimings,
}

impl View for TcpProbe {
    type V = TcpProbeView;

    open spec fn view(&self) -> TcpProbeView {
        TcpProbeView { port_name: self.port_name@, timings: self.timings }
    }
}

/// One exposed port of a container.
pub struct ContainerPort {
    pub name: String,
    pub container_port: i32,
}

/// Ghost image of [`ContainerPort`].
pub ghost struct ContainerPortView {
    pub name: Seq<char>,
    pub container_port: i32,
}

impl View for ContainerPort {
    type V = ContainerPortView;

    open spec fn view(&self) -> ContainerPortView {
        ContainerPortView { name: self.name@, container_port: self.container_port }
    }
}

/// The views of a list of container ports.
pub open spec fn container_ports_view(s: Seq<ContainerPort>) -> Seq<ContainerPortView> {
    s.map_values(|p: ContainerPort| p@)
}

/// A volume mounted into a container.
pub struct VolumeMount {
    pub name: String,
    pub mount_path: String,
}

/// Ghost image of [`VolumeMount`].
pub ghost struct VolumeMountView {
    pub name: Seq<char>,
    pub mount_path: Seq<char>,
}

impl View for VolumeMount {
    type V = VolumeMountView;

    open spec fn view(&self) -> VolumeMountView {
        VolumeMountView { name: self.name@, mount_path: self.mount_path@ }
    }
}

/// The views of a list of volume mounts.
pub open spec fn volume_mounts_view(s: Seq<VolumeMount>) -> Seq<VolumeMountView> {
    s.map_values(|m: VolumeMount| m@)
}

/// Where a pod volume draws its contents from.
pub enum VolumeSource {
    ConfigMapVol { config_map_name: String },
    EmptyDir { size_limit: Option<String> },
    Secret { secret_name: String },
    SecretClassEphemeral { secret_class: String },
}

/// Ghost image of [`VolumeSource`].
pub ghost enum VolumeSourceView {
    ConfigMapVol(Seq<char>),
    EmptyDir(Option<Seq<char>>),
    Secret(Seq<char>),
    SecretClassEphemeral(Seq<char>),
}

impl View for VolumeSource {
    type V = VolumeSourceView;

    open spec fn view(&self) -> VolumeSourceView {
        match self {
            VolumeSource::ConfigMapVol { config_map_name } => VolumeSourceView::ConfigMapVol(
                config_map_name@,
            ),
            VolumeSource::EmptyDir { size_limit } => VolumeSourceView::EmptyDir(
                ostr_view(*size_limit),
            ),
            VolumeSource::Secret { secret_name } => VolumeSourceView::Secret(secret_name@),
            VolumeSource::SecretClassEphemeral { secret_class } => (
            VolumeSourceView::SecretClassEphemeral(secret_class@)),
        }
    }
}

/// A pod volume.
pub struct Volume {
    pub name: String,
    pub source: VolumeSource,
}

/// Ghost image of [`Volume`].
pub ghost struct VolumeView {
    pub name: Seq<char>,
    pub source: VolumeSourceView,
}

impl View for Volume {
    type V = VolumeView;

    open spec fn view(&self) -> VolumeView {
        VolumeView { name: self.name@, source: self.source@ }
    }
}

/// The views of a list of volumes.
pub open spec fn volumes_view(s: Seq<Volume>) -> Seq<VolumeView> {
    s.map_values(|v: Volume| v@)
}

/// An environment variable: a plain value, or one drawn from a secret key.
pub struct EnvVar {
    pub name: String,
    pub value: Option<String>,
    pub value_from_secret: Option<(String, String)>,
}

/// Ghost image of [`EnvVar`].
pub ghost struct EnvVarView {
    pub name: Seq<char>,
    pub value: Option<Seq<char>>,
    pub value_from_secret: Option<(Seq<char>, Seq<char>)>,
}

impl View for EnvVar {
    type V = EnvVarView;

    open spec fn view(&self) -> EnvVarView {
        EnvVarView {
            name: self.name@,
            value: ostr_view(self.value),
            value_from_secret: match self.value_from_secret {
                Some(ref p) => Some((p.0@, p.1@)),
                None => None,
            },
        }
    }
}

/// The views of a list of environment variables.
pub open spec fn env_vars_view(s: Seq<EnvVar>) -> Seq<EnvVarView> {
    s.map_values(|e: EnvVar| e@)
}

/// Resource requests and limits of one container.
pub struct ResourceRequirements {
    pub cpu_request: Option<String>,
    pub cpu_limit: Option<String>,
    pub memory_request: Option<String>,
    pub memory_limit: Option<String>,
}

/// Ghost image of [`ResourceRequirements`].
pub ghost struct ResourceRequirementsView {
    pub cpu_request: Option<Seq<char>>,
    pub cpu_limit: Option<Seq<char>>,
    pub memory_request: Option<Seq<char>>,
    pub memory_limit: Option<Seq<char>>,
}

impl View for ResourceRequirements {
    type V = ResourceRequirementsView;

    open spec fn view(&self) -> ResourceRequirementsView {
        ResourceRequirementsView {
            cpu_request: ostr_view(self.cpu_request),
            cpu_limit: ostr_view(self.cpu_limit),
            memory_request: ostr_view(self.memory_request),
            memory_limit: ostr_view(self.memory_limit),
        }
    }
}

/// One container of the pod template.
pub struct ContainerSpec {
    pub name: String,
    pub image: String,
    pub command: Vec<String>,
    pub args: Vec<String>,
    pub env: Vec<EnvVar>,
    pub ports: Vec<ContainerPort>,
    pub volume_mounts: Vec<VolumeMount>,
    pub resources: ResourceRequirements,
    pub readiness_probe: Option<TcpProbe>,
    pub liveness_probe: Option<TcpProbe>,
}

/// Ghost image of [`ContainerSpec`].
pub ghost struct ContainerSpecView {
    pub name: Seq<char>,
    pub image: Seq<char>,
    pub command: Seq<Seq<char>>,
    pub args: Seq<Seq<char>>,
    pub env: Seq<EnvVarView>,
    pub ports: Seq<ContainerPortView>,
    pub volume_mounts: Seq<VolumeMountView>,
    pub resources: ResourceRequirementsView,
    pub readiness_probe: Option<TcpProbeView>,
    pub liveness_probe: Option<TcpProbeView>,
}

/// The views of a list of strings.
pub open spec fn strings_view(s: Seq<String>) -> Seq<Seq<char>> {
    s.map_values(|x: String| x@)
}

impl View for ContainerSpec {
    type V = ContainerSpecView;

    open spec fn view(&self) -> ContainerSpecView {
        ContainerSpecView {
            name: self.name@,
            image: self.image@,
            command: strings_view(self.command@),
            args: strings_view(self.args@),
            env: env_vars_view(self.env@),
            ports: container_ports_view(self.ports@),
            volume_mounts: volume_mounts_view(self.volume_mounts@),
            resources: self.resources@,
            readiness_probe: match self.readiness_probe {
                Some(ref p) => Some(p@),
                None => None,
            },
            liveness_probe: match self.liveness_probe {
                Some(ref p) => Some(p@),
                None => None,
            },
        }
    }
}

/// The views of a list of containers.
pub open spec fn containers_view(s: Seq<ContainerSpec>) -> Seq<ContainerSpecView> {
    s.map_values(|c: ContainerSpec| c@)
}

/// The pod security context the operator always applies.
#[derive(Clone, Copy, PartialEq, Eq, Structural, Debug)]
pub struct PodSecurityContext {
    pub run_as_user: i64,
    pub run_as_group: i64,
    pub fs_group: i64,
}

/// The pod template of a StatefulSet.
pub struct PodTemplate {
    pub labels: Vec<(String, String)>,
    pub image_pull_secrets: Vec<String>,
    pub containers: Vec<ContainerSpec>,
    pub volumes: Vec<Volume>,
    pub affinity: StackableAffinity,
    pub service_account_name: String,
    pub security_context: PodSecurityContext,
}

/// Ghost image of [`PodTemplate`].
pub ghost struct PodTemplateView {
    pub labels: Seq<(Seq<char>, Seq<char>)>,
    pub image_pull_secrets: Seq<Seq<char>>,
    pub containers: Seq<ContainerSpecView>,
    pub volumes: Seq<VolumeView>,
    pub affinity: StackableAffinityView,
    pub service_account_name: Seq<char>,
    pub security_context: PodSecurityContext,
}

impl View for PodTemplate {
    type V = PodTemplateView;

    open spec fn view(&self) -> PodTemplateView {
        PodTemplateView {
            labels: pairs_view(self.labels@),
            image_pull_secrets: strings_view(self.image_pull_secrets@),
            containers: containers_view(self.containers@),
            volumes: volumes_view(self.volumes@),
            affinity: self.affinity@,
            service_account_name: self.service_account_name@,
            security_context: self.security_context,
        }
    }
}

/// A volume claim template of a StatefulSet.
pub struct PvcTemplate {
    pub name: String,
    pub capacity: String,
    pub storage_class: Option<String>,
    pub access_modes: Vec<String>,
}

/// Ghost image of [`PvcTemplate`].
pub ghost struct PvcTemplateView {
    pub name: Seq<char>,
    pub capacity: Seq<char>,
    pub storage_class: Option<Seq<char>>,
    pub access_modes: Seq<Seq<char>>,
}

impl View for PvcTemplate {
    type V = PvcTemplateView;

    open spec fn view(&self) -> PvcTemplateView {
        PvcTemplateView {
            name: self.name@,
            capacity: self.capacity@,
            storage_class: ostr_view(self.storage_class),
            access_modes: strings_view(self.access_modes@),
        }
    }
}

/// The specification of a StatefulSet.
pub struct StatefulSetSpec {
    pub pod_management_policy: String,
    pub replicas: Option<i32>,
    pub selector_match_labels: Vec<(String, String)>,
    pub service_name: String,
    pub template: PodTemplate,
    pub volume_claim_templates: Vec<PvcTemplate>,
}

/// Ghost image of [`StatefulSetSpec`].
pub ghost struct StatefulSetSpecView {
    pub pod_management_policy: Seq<char>,
    pub replicas: Option<i32>,
    pub selector_match_labels: Seq<(Seq<char>, Seq<char>)>,
    pub service_name: Seq<char>,
    pub template: PodTemplateView,
    pub volume_claim_templates: Seq<PvcTemplateView>,
}

impl View for StatefulSetSpec {
    type V = StatefulSetSpecView;

    open spec fn view(&self) -> StatefulSetSpecView {
        StatefulSetSpecView {
            pod_management_policy: self.pod_management_policy@,
            replicas: self.replicas,
            selector_match_labels: pairs_view(self.selector_match_labels@),
            service_name: self.service_name@,
            template: self.template@,
            volume_claim_templates: self.volume_claim_templates@.map_values(
                |p: PvcTemplate| p@,
            ),
        }
    }
}

/// A Kubernetes StatefulSet.
pub struct StatefulSet {
    pub metadata: ObjectMeta,
    pub spec: StatefulSetSpec,
}

/// Ghost image of [`StatefulSet`].
pub ghost struct StatefulSetView {
    pub metadata: ObjectMetaView,
    pub spec: StatefulSetSpecView,
}

impl View for StatefulSet {
    type V = StatefulSetView;

    open spec fn view(&self) -> StatefulSetView {
        StatefulSetView { metadata: self.metadata@, spec: self.spec@ }
    }
}

} // verus!
