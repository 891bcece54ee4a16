//! The typed model of the connector cluster custom resource: roles,
//! role-groups, the three-tier configuration fragments, and their merge
//! into a fully validated configuration.
use vstd::prelude::*;

use crate::affinity::{
    aterms_view, default_affinity_view, get_affinity, wterms_view, AffinityTerm,
    LabelSelectorModel, LabelSelectorView, PodAffinityRules, StackableAffinity,
    StackableAffinityView, WeightedAffinityTerm,
};
use crate::namelist::sort_names;
use crate::strcmp::str_eq;
use crate::strnum::dec_str;

verus! {

/// Default port of the public HTTP API endpoint.
pub const HTTP_PORT: u16 = 8181;

/// Default port of the control endpoint.
pub const CONTROL_PORT: u16 = 8283;

/// Default port of the management endpoint.
pub const MANAGEMENT_PORT: u16 = 8182;

/// Default port of the protocol (DSP) endpoint.
pub const PROTOCOL_PORT: u16 = 8282;

/// Default port of the public data endpoint.
pub const PUBLIC_PORT: u16 = 8284;

/// The one role a connector cluster has.
#[derive(Clone, Copy, PartialEq, Eq, Structural, Debug)]
pub enum EDCRole {
    Connector,
}

impl EDCRole {
    /// The role's wire name.
    pub open spec fn name_view(&self) -> Seq<char> {
        "server"@
    }

    /// The role's wire name.
    pub fn as_str(&self) -> (r: &'static str)
        ensures
            r@ == self.name_view(),
    {
        "server"
    }
}

/// The containers of a connector pod.
#[derive(Clone, Copy, PartialEq, Eq, Structural, Debug)]
pub enum Container {
    Connector,
    Vector,
}

impl Container {
    /// The container's wire name.
    pub open spec fn name_view(&self) -> Seq<char> {
        match self {
            Container::Connector => "connector"@,
            Container::Vector => "vector"@,
        }
    }

    /// The container's wire name.
    pub fn as_str(&self) -> (r: &'static str)
        ensures
            r@ == self.name_view(),
    {
        match self {
            Container::Connector => "connector",
            Container::Vector => "vector",
        }
    }
}

/// The service-exposure classes the operator supports; each maps onto one
/// Kubernetes Service type.
#[derive(Clone, Copy, PartialEq, Eq, Structural, Debug)]
pub enum CurrentlySupportedListenerClasses {
    ClusterInternal,
    ExternalUnstable,
    ExternalStable,
}

impl CurrentlySupportedListenerClasses {
    /// The Kubernetes Service type of this exposure class.
    pub open spec fn k8s_service_type_view(&self) -> Seq<char> {
        match self {
            CurrentlySupportedListenerClasses::ClusterInternal => "ClusterIP"@,
            CurrentlySupportedListenerClasses::ExternalUnstable => "NodePort"@,
            CurrentlySupportedListenerClasses::ExternalStable => "LoadBalancer"@,
        }
    }

    /// The Kubernetes Service type of this exposure class.
    pub fn k8s_service_type(&self) -> (r: String)
        ensures
            r@ == self.k8s_service_type_view(),
    {
        match self {
            CurrentlySupportedListenerClasses::ClusterInternal => String::from_str("ClusterIP"),
            CurrentlySupportedListenerClasses::ExternalUnstable => String::from_str("NodePort"),
            CurrentlySupportedListenerClasses::ExternalStable => String::from_str("LoadBalancer"),
        }
    }
}

impl Default for CurrentlySupportedListenerClasses {
    /// The default exposure class keeps the service cluster-internal.
    fn default() -> (r: Self)
        ensures
            r == CurrentlySupportedListenerClasses::ClusterInternal,
    {
        CurrentlySupportedListenerClasses::ClusterInternal
    }
}

/// A bare service type, kept for compatibility with older specs.
#[derive(Clone, Copy, PartialEq, Eq, Structural, Debug)]
pub enum ServiceType {
    NodePort,
    ClusterIP,
}

impl Default for ServiceType {
    fn default() -> (r: Self)
        ensures
            r == ServiceType::NodePort,
    {
        ServiceType::NodePort
    }
}

/// A log level of the automatic logging configuration.
#[derive(Clone, Copy, PartialEq, Eq, Structural, Debug)]
pub enum LogLevel {
    Trace,
    Debug,
    Info,
    Warn,
    Error,
    Fatal,
    Off,
}

/// Automatically generated logging configuration: the levels of the log
/// file and of the console stream.
#[derive(Clone, Copy, PartialEq, Eq, Structural, Debug)]
pub struct AutomaticLogConfig {
    pub file_level: Option<LogLevel>,
    pub console_level: Option<LogLevel>,
}

/// How one container's logging is configured: generated automatically from
/// levels, or taken from a user-supplied ConfigMap.
pub enum LogChoice {
    Automatic(AutomaticLogConfig),
    Custom { config_map: String },
}

/// Ghost image of [`LogChoice`].
pub ghost enum LogChoiceView {
    Automatic(AutomaticLogConfig),
    Custom(Seq<char>),
}

impl View for LogChoice {
    type V = LogChoiceView;

    open spec fn view(&self) -> LogChoiceView {
        match self {
            LogChoice::Automatic(c) => LogChoiceView::Automatic(*c),
            LogChoice::Custom { config_map } => LogChoiceView::Custom(config_map@),
        }
    }
}

/// One container's logging configuration.
pub struct ContainerLogConfig {
    pub choice: Option<LogChoice>,
}

/// Ghost image of [`ContainerLogConfig`].
pub ghost struct ContainerLogConfigView {
    pub choice: Option<LogChoiceView>,
}

impl View for ContainerLogConfig {
    type V = ContainerLogConfigView;

    open spec fn view(&self) -> ContainerLogConfigView {
        ContainerLogConfigView {
            choice: match self.choice {
                Some(ref c) => Some(c@),
                None => None,
            },
        }
    }
}

/// The merged logging configuration of a role-group.
pub struct Logging {
    pub enable_vector_agent: bool,
    pub connector: ContainerLogConfig,
    pub vector: ContainerLogConfig,
}

/// Ghost image of [`Logging`].
pub ghost struct LoggingView {
    pub enable_vector_agent: bool,
    pub connector: ContainerLogConfigView,
    pub vector: ContainerLogConfigView,
}

impl View for Logging {
    type V = LoggingView;

    open spec fn view(&self) -> LoggingView {
        LoggingView {
            enable_vector_agent: self.enable_vector_agent,
            connector: self.connector@,
            vector: self.vector@,
        }
    }
}

/// The logging tier of a configuration fragment.
pub struct LoggingFragment {
    pub enable_vector_agent: Option<bool>,
    pub connector: Option<ContainerLogConfig>,
    pub vector: Option<ContainerLogConfig>,
}

/// Ghost image of [`LoggingFragment`].
pub ghost struct LoggingFragmentView {
    pub enable_vector_agent: Option<bool>,
    pub connector: Option<ContainerLogConfigView>,
    pub vector: Option<ContainerLogConfigView>,
}

impl View for LoggingFragment {
    type V = LoggingFragmentView;

    open spec fn view(&self) -> LoggingFragmentView {
        LoggingFragmentView {
            enable_vector_agent: self.enable_vector_agent,
            connector: match self.connector {
                Some(ref c) => Some(c@),
                None => None,
            },
            vector: match self.vector {
                Some(ref c) => Some(c@),
                None => None,
            },
        }
    }
}

/// The view of an optional string.
pub open spec fn ostr_view(o: Option<String>) -> Option<Seq<char>> {
    match o {
        Some(s) => Some(s@),
        None => None,
    }
}

/// The view of an optional label selector.
pub open spec fn osel_view(o: Option<LabelSelectorModel>) -> Option<LabelSelectorView> {
    match o {
        Some(s) => Some(s@),
        None => None,
    }
}

/// CPU requests and limits of a fragment.
pub struct CpuLimitsFragment {
    pub min: Option<String>,
    pub max: Option<String>,
}

/// Ghost image of [`CpuLimitsFragment`].
pub ghost struct CpuLimitsFragmentView {
    pub min: Option<Seq<char>>,
    pub max: Option<Seq<char>>,
}

impl View for CpuLimitsFragment {
    type V = CpuLimitsFragmentView;

    open spec fn view(&self) -> CpuLimitsFragmentView {
        CpuLimitsFragmentView { min: ostr_view(self.min), max: ostr_view(self.max) }
    }
}

/// Memory limit of a fragment.
pub struct MemoryLimitsFragment {
    pub limit: Option<String>,
}

/// Ghost image of [`MemoryLimitsFragment`].
pub ghost struct MemoryLimitsFragmentView {
    pub limit: Option<Seq<char>>,
}

impl View for MemoryLimitsFragment {
    type V = MemoryLimitsFragmentView;

    open spec fn view(&self) -> MemoryLimitsFragmentView {
        MemoryLimitsFragmentView { limit: ostr_view(self.limit) }
    }
}

/// Persistent volume claim settings of a fragment.
pub struct PvcConfigFragment {
    pub capacity: Option<String>,
    pub storage_class: Option<String>,
    pub selectors: Option<LabelSelectorModel>,
}

/// Ghost image of [`PvcConfigFragment`].
pub ghost struct PvcConfigFragmentView {
    pub capacity: Option<Seq<char>>,
    pub storage_class: Option<Seq<char>>,
    pub selectors: Option<LabelSelectorView>,
}

impl View for PvcConfigFragment {
    type V = PvcConfigFragmentView;

    open spec fn view(&self) -> PvcConfigFragmentView {
        PvcConfigFragmentView {
            capacity: ostr_view(self.capacity),
            storage_class: ostr_view(self.storage_class),
            selectors: osel_view(self.selectors),
        }
    }
}

/// Data-volume storage of a fragment.
pub struct ConnectorStorageConfigFragment {
    pub data: PvcConfigFragment,
}

/// Ghost image of [`ConnectorStorageConfigFragment`].
pub ghost struct ConnectorStorageConfigFragmentView {
    pub data: PvcConfigFragmentView,
}

impl View for ConnectorStorageConfigFragment {
    type V = ConnectorStorageConfigFragmentView;

    open spec fn view(&self) -> ConnectorStorageConfigFragmentView {
        ConnectorStorageConfigFragmentView { data: self.data@ }
    }
}

/// The resources tier of a fragment.
pub struct ResourcesFragment {
    pub cpu: CpuLimitsFragment,
    pub memory: MemoryLimitsFragment,
    pub storage: ConnectorStorageConfigFragment,
}

/// Ghost image of [`ResourcesFragment`].
pub ghost struct ResourcesFragmentView {
    pub cpu: CpuLimitsFragmentView,
    pub memory: MemoryLimitsFragmentView,
    pub storage: ConnectorStorageConfigFragmentView,
}

impl View for ResourcesFragment {
    type V = ResourcesFragmentView;

    open spec fn view(&self) -> ResourcesFragmentView {
        ResourcesFragmentView { cpu: self.cpu@, memory: self.memory@, storage: self.storage@ }
    }
}

/// A partial configuration: any field may still be absent. Three of these
/// — role-group, role, and the hardcoded defaults — merge into the final
/// configuration of a role-group.
pub struct ConnectorConfigFragment {
    pub resources: ResourcesFragment,
    pub logging: LoggingFragment,
    pub affinity: StackableAffinity,
}

/// Ghost image of [`ConnectorConfigFragment`].
pub ghost struct ConnectorConfigFragmentView {
    pub resources: ResourcesFragmentView,
    pub logging: LoggingFragmentView,
    pub affinity: StackableAffinityView,
}

impl View for ConnectorConfigFragment {
    type V = ConnectorConfigFragmentView;

    open spec fn view(&self) -> ConnectorConfigFragmentView {
        ConnectorConfigFragmentView {
            resources: self.resources@,
            logging: self.logging@,
            affinity: self.affinity@,
        }
    }
}

/// Fully resolved CPU limits.
pub struct CpuLimits {
    pub min: String,
    pub max: String,
}

/// Ghost image of [`CpuLimits`].
pub ghost struct CpuLimitsView {
    pub min: Seq<char>,
    pub max: Seq<char>,
}

impl View for CpuLimits {
    type V = CpuLimitsView;

    open spec fn view(&self) -> CpuLimitsView {
        CpuLimitsView { min: self.min@, max: self.max@ }
    }
}

/// Fully resolved memory limits.
pub struct MemoryLimits {
    pub limit: String,
}

/// Ghost image of [`MemoryLimits`].
pub ghost struct MemoryLimitsView {
    pub limit: Seq<char>,
}

impl View for MemoryLimits {
    type V = MemoryLimitsView;

    open spec fn view(&self) -> MemoryLimitsView {
        MemoryLimitsView { limit: self.limit@ }
    }
}

/// Fully resolved persistent volume claim settings.
pub struct PvcConfig {
    pub capacity: String,
    pub storage_class: Option<String>,
    pub selectors: Option<LabelSelectorModel>,
}

/// Ghost image of [`PvcConfig`].
pub ghost struct PvcConfigView {
    pub capacity: Seq<char>,
    pub storage_class: Option<Seq<char>>,
    pub selectors: Option<LabelSelectorView>,
}

impl View for PvcConfig {
    type V = PvcConfigView;

    open spec fn view(&self) -> PvcConfigView {
        PvcConfigView {
            capacity: self.capacity@,
            storage_class: ostr_view(self.storage_class),
            selectors: osel_view(self.selectors),
        }
    }
}

/// Fully resolved data-volume storage.
pub struct ConnectorStorageConfig {
    pub data: PvcConfig,
}

/// Ghost image of [`ConnectorStorageConfig`].
pub ghost struct ConnectorStorageConfigView {
    pub data: PvcConfigView,
}

impl View for ConnectorStorageConfig {
    type V = ConnectorStorageConfigView;

    open spec fn view(&self) -> ConnectorStorageConfigView {
        ConnectorStorageConfigView { data: self.data@ }
    }
}

/// Fully resolved resources.
pub struct Resources {
    pub cpu: CpuLimits,
    pub memory: MemoryLimits,
    pub storage: ConnectorStorageConfig,
}

/// Ghost image of [`Resources`].
pub ghost struct ResourcesView {
    pub cpu: CpuLimitsView,
    pub memory: MemoryLimitsView,
    pub storage: ConnectorStorageConfigView,
}

impl View for Resources {
    type V = ResourcesView;

    open spec fn view(&self) -> ResourcesView {
        ResourcesView { cpu: self.cpu@, memory: self.memory@, storage: self.storage@ }
    }
}

/// The fully resolved configuration of a role-group. Once validation has
/// produced a value of this type, no further defaulting happens downstream.
pub struct ConnectorConfig {
    pub resources: Resources,
    pub logging: Logging,
    pub affinity: StackableAffinity,
}

/// Ghost image of [`ConnectorConfig`].
pub ghost struct ConnectorConfigView {
    pub resources: ResourcesView,
    pub logging: LoggingView,
    pub affinity: StackableAffinityView,
}

impl View for ConnectorConfig {
    type V = ConnectorConfigView;

    open spec fn view(&self) -> ConnectorConfigView {
        ConnectorConfigView {
            resources: self.resources@,
            logging: self.logging@,
            affinity: self.affinity@,
        }
    }
}

/// A required configuration field that validation found unset.
#[derive(Clone, Copy, PartialEq, Eq, Structural, Debug)]
pub enum MissingField {
    CpuMin,
    CpuMax,
    MemoryLimit,
    StorageCapacity,
    EnableVectorAgent,
    ConnectorLogConfig,
    VectorLogConfig,
}

impl MissingField {
    /// The path of the field within the configuration, for messages.
    pub fn as_str(&self) -> (r: &'static str)
        ensures
            r@ == match self {
                MissingField::CpuMin => "resources.cpu.min"@,
                MissingField::CpuMax => "resources.cpu.max"@,
                MissingField::MemoryLimit => "resources.memory.limit"@,
                MissingField::StorageCapacity => "resources.storage.data.capacity"@,
                MissingField::EnableVectorAgent => "logging.enableVectorAgent"@,
                MissingField::ConnectorLogConfig => "logging.containers.connector"@,
                MissingField::VectorLogConfig => "logging.containers.vector"@,
            },
    {
        match self {
            MissingField::CpuMin => "resources.cpu.min",
            MissingField::CpuMax => "resources.cpu.max",
            MissingField::MemoryLimit => "resources.memory.limit",
            MissingField::StorageCapacity => "resources.storage.data.capacity",
            MissingField::EnableVectorAgent => "logging.enableVectorAgent",
            MissingField::ConnectorLogConfig => "logging.containers.connector",
            MissingField::VectorLogConfig => "logging.containers.vector",
        }
    }
}

/// Why a configuration could not be produced.
#[derive(Clone, Copy, PartialEq, Eq, Structural, Debug)]
pub enum Error {
    /// The cluster spec holds no connector role at all.
    MissingMetaStoreRole,
    /// After the three-tier merge a required field was still unset.
    FragmentValidationFailure { field: MissingField },
}

/// The more specific value where present, else the less specific one.
pub open spec fn or_opt<T>(a: Option<T>, b: Option<T>) -> Option<T> {
    if a is Some {
        a
    } else {
        b
    }
}

/// Field-wise merge of two fragments: a field present in `a` (the more
/// specific tier) always overrides `b`; absent fields fall through.
pub open spec fn merge_fragment_view(
    a: ConnectorConfigFragmentView,
    b: ConnectorConfigFragmentView,
) -> ConnectorConfigFragmentView {
    ConnectorConfigFragmentView {
        resources: ResourcesFragmentView {
            cpu: CpuLimitsFragmentView {
                min: or_opt(a.resources.cpu.min, b.resources.cpu.min),
                max: or_opt(a.resources.cpu.max, b.resources.cpu.max),
            },
            memory: MemoryLimitsFragmentView {
                limit: or_opt(a.resources.memory.limit, b.resources.memory.limit),
            },
            storage: ConnectorStorageConfigFragmentView {
                data: PvcConfigFragmentView {
                    capacity: or_opt(a.resources.storage.data.capacity, b.resources.storage.data.capacity),
                    storage_class: or_opt(
                        a.resources.storage.data.storage_class,
                        b.resources.storage.data.storage_class,
                    ),
                    selectors: or_opt(a.resources.storage.data.selectors, b.resources.storage.data.selectors),
                },
            },
        },
        logging: LoggingFragmentView {
            enable_vector_agent: or_opt(a.logging.enable_vector_agent, b.logging.enable_vector_agent),
            connector: or_opt(a.logging.connector, b.logging.connector),
            vector: or_opt(a.logging.vector, b.logging.vector),
        },
        affinity: StackableAffinityView {
            pod_affinity: or_opt(a.affinity.pod_affinity, b.affinity.pod_affinity),
            pod_anti_affinity: or_opt(a.affinity.pod_anti_affinity, b.affinity.pod_anti_affinity),
            node_selector: or_opt(a.affinity.node_selector, b.affinity.node_selector),
        },
    }
}

/// A fragment with every field absent.
pub open spec fn empty_fragment_view() -> ConnectorConfigFragmentView {
    ConnectorConfigFragmentView {
        resources: ResourcesFragmentView {
            cpu: CpuLimitsFragmentView { min: None, max: None },
            memory: MemoryLimitsFragmentView { limit: None },
            storage: ConnectorStorageConfigFragmentView {
                data: PvcConfigFragmentView { capacity: None, storage_class: None, selectors: None },
            },
        },
        logging: LoggingFragmentView { enable_vector_agent: None, connector: None, vector: None },
        affinity: StackableAffinityView {
            pod_affinity: None,
            pod_anti_affinity: None,
            node_selector: None,
        },
    }
}

/// Every required field of the fragment is concretely set.
pub open spec fn fragment_complete_view(f: ConnectorConfigFragmentView) -> bool {
    &&& f.resources.cpu.min is Some
    &&& f.resources.cpu.max is Some
    &&& f.resources.memory.limit is Some
    &&& f.resources.storage.data.capacity is Some
    &&& f.logging.enable_vector_agent is Some
    &&& f.logging.connector is Some
    &&& f.logging.vector is Some
}

/// The first required field that is still unset, in validation order.
pub open spec fn first_missing_view(f: ConnectorConfigFragmentView) -> MissingField {
    if f.resources.cpu.min is None {
        MissingField::CpuMin
    } else if f.resources.cpu.max is None {
        MissingField::CpuMax
    } else if f.resources.memory.limit is None {
        MissingField::MemoryLimit
    } else if f.resources.storage.data.capacity is None {
        MissingField::StorageCapacity
    } else if f.logging.enable_vector_agent is None {
        MissingField::EnableVectorAgent
    } else if f.logging.connector is None {
        MissingField::ConnectorLogConfig
    } else {
        MissingField::VectorLogConfig
    }
}

/// The configuration a complete fragment validates to.
pub open spec fn validated_view(f: ConnectorConfigFragmentView) -> ConnectorConfigView {
    ConnectorConfigView {
        resources: ResourcesView {
            cpu: CpuLimitsView {
                min: f.resources.cpu.min->Some_0,
                max: f.resources.cpu.max->Some_0,
            },
            memory: MemoryLimitsView { limit: f.resources.memory.limit->Some_0 },
            storage: ConnectorStorageConfigView {
                data: PvcConfigView {
                    capacity: f.resources.storage.data.capacity->Some_0,
                    storage_class: f.resources.storage.data.storage_class,
                    selectors: f.resources.storage.data.selectors,
                },
            },
        },
        logging: LoggingView {
            enable_vector_agent: f.logging.enable_vector_agent->Some_0,
            connector: f.logging.connector->Some_0,
            vector: f.logging.vector->Some_0,
        },
        affinity: f.affinity,
    }
}

/// The hardcoded baseline configuration of a cluster's role: resource
/// floors and ceilings, a small data volume, automatic logging at the
/// default levels with the log shipper off, and the default anti-affinity.
pub open spec fn default_fragment_view(cluster_name: Seq<char>, role: Seq<char>)
    -> ConnectorConfigFragmentView {
    ConnectorConfigFragmentView {
        resources: ResourcesFragmentView {
            cpu: CpuLimitsFragmentView { min: Some("200m"@), max: Some("4"@) },
            memory: MemoryLimitsFragmentView { limit: Some("2Gi"@) },
            storage: ConnectorStorageConfigFragmentView {
                data: PvcConfigFragmentView {
                    capacity: Some("2Gi"@),
                    storage_class: None,
                    selectors: None,
                },
            },
        },
        logging: LoggingFragmentView {
            enable_vector_agent: Some(false),
            connector: Some(default_container_log_view()),
            vector: Some(default_container_log_view()),
        },
        affinity: default_affinity_view(cluster_name, role),
    }
}

/// The automatic logging configuration used when no tier overrides it.
pub open spec fn default_container_log_view() -> ContainerLogConfigView {
    ContainerLogConfigView {
        choice: Some(
            LogChoiceView::Automatic(
                AutomaticLogConfig {
                    file_level: Some(LogLevel::Info),
                    console_level: Some(LogLevel::Info),
                },
            ),
        ),
    }
}

/// A fragment with every field absent.
pub fn empty_fragment() -> (r: ConnectorConfigFragment)
    ensures
        r@ == empty_fragment_view(),
{
    ConnectorConfigFragment {
        resources: ResourcesFragment {
            cpu: CpuLimitsFragment { min: None, max: None },
            memory: MemoryLimitsFragment { limit: None },
            storage: ConnectorStorageConfigFragment {
                data: PvcConfigFragment { capacity: None, storage_class: None, selectors: None },
            },
        },
        logging: LoggingFragment { enable_vector_agent: None, connector: None, vector: None },
        affinity: StackableAffinity {
            pod_affinity: None,
            pod_anti_affinity: None,
            node_selector: None,
        },
    }
}

/// The more specific value where present, else the less specific one.
fn or_move<T>(a: Option<T>, b: Option<T>) -> (r: Option<T>)
    ensures
        r == or_opt(a, b),
{
    match a {
        Some(x) => Some(x),
        None => b,
    }
}

/// Merges `a` (the more specific tier) over `b`, field-wise: a field
/// present in `a` wins; an absent one falls through to `b`.
pub fn fragment_merge(a: ConnectorConfigFragment, b: ConnectorConfigFragment) -> (r:
    ConnectorConfigFragment)
    ensures
        r@ == merge_fragment_view(a@, b@),
{
    let ConnectorConfigFragment { resources: ar, logging: al, affinity: aa } = a;
    let ConnectorConfigFragment { resources: br, logging: bl, affinity: ba } = b;
    ConnectorConfigFragment {
        resources: ResourcesFragment {
            cpu: CpuLimitsFragment {
                min: or_move(ar.cpu.min, br.cpu.min),
                max: or_move(ar.cpu.max, br.cpu.max),
            },
            memory: MemoryLimitsFragment { limit: or_move(ar.memory.limit, br.memory.limit) },
            storage: ConnectorStorageConfigFragment {
                data: PvcConfigFragment {
                    capacity: or_move(ar.storage.data.capacity, br.storage.data.capacity),
                    storage_class: or_move(
                        ar.storage.data.storage_class,
                        br.storage.data.storage_class,
                    ),
                    selectors: or_move(ar.storage.data.selectors, br.storage.data.selectors),
                },
            },
        },
        logging: LoggingFragment {
            enable_vector_agent: or_move(al.enable_vector_agent, bl.enable_vector_agent),
            connector: or_move(al.connector, bl.connector),
            vector: or_move(al.vector, bl.vector),
        },
        affinity: StackableAffinity {
            pod_affinity: or_move(aa.pod_affinity, ba.pod_affinity),
            pod_anti_affinity: or_move(aa.pod_anti_affinity, ba.pod_anti_affinity),
            node_selector: or_move(aa.node_selector, ba.node_selector),
        },
    }
}

/// Validates a merged fragment: succeeds exactly when every required field
/// is concretely set, and otherwise reports the first missing field.
pub fn validate(f: ConnectorConfigFragment) -> (r: Result<ConnectorConfig, Error>)
    ensures
        fragment_complete_view(f@) ==> r is Ok && r->Ok_0@ == validated_view(f@),
        !fragment_complete_view(f@) ==> r == Err::<ConnectorConfig, Error>(
            Error::FragmentValidationFailure { field: first_missing_view(f@) },
        ),
{
    let ConnectorConfigFragment { resources, logging, affinity } = f;
    let ResourcesFragment { cpu, memory, storage } = resources;
    let min = match cpu.min {
        Some(x) => x,
        None => {
            return Err(Error::FragmentValidationFailure { field: MissingField::CpuMin });
        },
    };
    let max = match cpu.max {
        Some(x) => x,
        None => {
            return Err(Error::FragmentValidationFailure { field: MissingField::CpuMax });
        },
    };
    let limit = match memory.limit {
        Some(x) => x,
        None => {
            return Err(Error::FragmentValidationFailure { field: MissingField::MemoryLimit });
        },
    };
    let capacity = match storage.data.capacity {
        Some(x) => x,
        None => {
            return Err(Error::FragmentValidationFailure { field: MissingField::StorageCapacity });
        },
    };
    let enable_vector_agent = match logging.enable_vector_agent {
        Some(x) => x,
        None => {
            return Err(Error::FragmentValidationFailure { field: MissingField::EnableVectorAgent });
        },
    };
    let connector = match logging.connector {
        Some(x) => x,
        None => {
            return Err(
                Error::FragmentValidationFailure { field: MissingField::ConnectorLogConfig },
            );
        },
    };
    let vector = match logging.vector {
        Some(x) => x,
        None => {
            return Err(Error::FragmentValidationFailure { field: MissingField::VectorLogConfig });
        },
    };
    Ok(
        ConnectorConfig {
            resources: Resources {
                cpu: CpuLimits { min, max },
                memory: MemoryLimits { limit },
                storage: ConnectorStorageConfig {
                    data: PvcConfig {
                        capacity,
                        storage_class: storage.data.storage_class,
                        selectors: storage.data.selectors,
                    },
                },
            },
            logging: Logging { enable_vector_agent, connector, vector },
            affinity,
        },
    )
}

impl ConnectorConfig {
    /// The hardcoded baseline fragment of a cluster's role.
    pub fn default_config(cluster_name: &str, role: &EDCRole) -> (r: ConnectorConfigFragment)
        ensures
            r@ == default_fragment_view(cluster_name@, role.name_view()),
    {
        ConnectorConfigFragment {
            resources: ResourcesFragment {
                cpu: CpuLimitsFragment {
                    min: Some(String::from_str("200m")),
                    max: Some(String::from_str("4")),
                },
                memory: MemoryLimitsFragment { limit: Some(String::from_str("2Gi")) },
                storage: ConnectorStorageConfigFragment {
                    data: PvcConfigFragment {
                        capacity: Some(String::from_str("2Gi")),
                        storage_class: None,
                        selectors: None,
                    },
                },
            },
            logging: LoggingFragment {
                enable_vector_agent: Some(false),
                connector: Some(default_container_log_config()),
                vector: Some(default_container_log_config()),
            },
            affinity: get_affinity(cluster_name, role),
        }
    }
}

/// The automatic logging configuration used when no tier overrides it.
pub fn default_container_log_config() -> (r: ContainerLogConfig)
    ensures
        r@ == default_container_log_view(),
{
    ContainerLogConfig {
        choice: Some(
            LogChoice::Automatic(
                AutomaticLogConfig {
                    file_level: Some(LogLevel::Info),
                    console_level: Some(LogLevel::Info),
                },
            ),
        ),
    }
}


/// Cluster-operation flags: pause reconciliation, or stop the cluster.
#[derive(Clone, Copy, PartialEq, Eq, Structural, Debug)]
pub struct ClusterOperation {
    pub reconciliation_paused: bool,
    pub stopped: bool,
}

/// The container image reference of the cluster spec; resolution against a
/// registry happens outside this crate.
pub struct ProductImage {
    pub product_version: String,
    pub custom: Option<String>,
}

/// A volume drawing credentials from a secret class.
pub struct SecretClassVolume {
    pub secret_class: String,
}

/// How a TLS certificate authority is supplied.
pub enum CaCert {
    WebPki,
    SecretClass(String),
}

/// Whether and how a TLS server certificate is verified.
pub enum TlsVerification {
    Unverified,
    Server(CaCert),
}

/// TLS settings of the object-storage connection.
pub struct Tls {
    pub verification: TlsVerification,
}

/// A resolved object-storage connection.
pub struct S3ConnectionSpec {
    pub host: Option<String>,
    pub port: Option<u16>,
    pub tls: Option<Tls>,
    pub credentials: Option<SecretClassVolume>,
}

/// Ghost image of [`CaCert`].
pub ghost enum CaCertView {
    WebPki,
    SecretClass(Seq<char>),
}

/// Ghost image of [`TlsVerification`].
pub ghost enum TlsVerificationView {
    Unverified,
    Server(CaCertView),
}

impl View for CaCert {
    type V = CaCertView;

    open spec fn view(&self) -> CaCertView {
        match self {
            CaCert::WebPki => CaCertView::WebPki,
            CaCert::SecretClass(s) => CaCertView::SecretClass(s@),
        }
    }
}

impl View for TlsVerification {
    type V = TlsVerificationView;

    open spec fn view(&self) -> TlsVerificationView {
        match self {
            TlsVerification::Unverified => TlsVerificationView::Unverified,
            TlsVerification::Server(c) => TlsVerificationView::Server(c@),
        }
    }
}

/// Ghost image of [`S3ConnectionSpec`].
pub ghost struct S3ConnectionSpecView {
    pub host: Option<Seq<char>>,
    pub port: Option<u16>,
    pub tls: Option<TlsVerificationView>,
    pub credentials: Option<Seq<char>>,
}

impl View for S3ConnectionSpec {
    type V = S3ConnectionSpecView;

    open spec fn view(&self) -> S3ConnectionSpecView {
        S3ConnectionSpecView {
            host: ostr_view(self.host),
            port: self.port,
            tls: match self.tls {
                Some(ref t) => Some(t.verification@),
                None => None,
            },
            credentials: match self.credentials {
                Some(ref c) => Some(c.secret_class@),
                None => None,
            },
        }
    }
}

/// A reference to an object-storage connection: inline, or by name.
pub enum S3ConnectionDef {
    Inline(S3ConnectionSpec),
    Reference(String),
}

/// An object-storage bucket given inline.
pub struct S3BucketSpec {
    pub bucket_name: Option<String>,
    pub connection: Option<S3ConnectionDef>,
}

/// A reference to an object-storage bucket: inline, or by name.
pub enum S3BucketDef {
    Inline(S3BucketSpec),
    Reference(String),
}

/// Object-storage and vault settings of the cluster.
pub struct Ionos {
    pub token_secret: String,
    pub s3: S3BucketDef,
}

/// Cluster-wide settings.
pub struct EDCClusterConfig {
    /// Name of the log-aggregator discovery ConfigMap; it must hold the
    /// aggregator address under the key `ADDRESS`.
    pub vector_aggregator_config_map_name: Option<String>,
    /// Which kind of Service exposes the cluster.
    pub listener_class: CurrentlySupportedListenerClasses,
    /// Name of the secret holding the keystore and vault certificates.
    pub cert_secret: String,
    /// Object-storage and vault settings.
    pub ionos: Ionos,
}

/// Per-role-group settings common to every role.
pub struct CommonConfiguration {
    pub config: ConnectorConfigFragment,
    /// Per-file key/value overrides, user-supplied; they take precedence
    /// over resolved properties.
    pub config_overrides: Vec<(String, Vec<(String, String)>)>,
    /// Environment variable overrides for the main container.
    pub env_overrides: Vec<(String, String)>,
    /// Command-line overrides; the connector takes none.
    pub cli_overrides: Vec<(String, String)>,
}

/// A named subset of replicas sharing one configuration profile.
pub struct RoleGroup {
    pub config: CommonConfiguration,
    pub replicas: Option<u16>,
    /// Legacy pod selector, kept only for spec compatibility.
    pub selector: Option<LabelSelectorModel>,
}

/// A role: its own override fragment, and its role-groups by name.
pub struct Role {
    pub config: CommonConfiguration,
    pub role_groups: Vec<(String, RoleGroup)>,
}

/// The desired state of a connector cluster.
pub struct EDCClusterSpec {
    pub cluster_config: EDCClusterConfig,
    pub cluster_operation: ClusterOperation,
    pub image: ProductImage,
    pub connectors: Option<Role>,
}

/// Identifying metadata of the custom resource.
pub struct ObjectMetaRef {
    pub name: Option<String>,
    pub namespace: Option<String>,
    pub uid: Option<String>,
}

/// The type of an aggregate status condition.
#[derive(Clone, Copy, PartialEq, Eq, Structural, Debug)]
pub enum ClusterConditionType {
    Available,
    ReconciliationPaused,
    Stopped,
}

impl ClusterConditionType {
    /// The condition type's wire name.
    pub fn as_str(&self) -> (r: &'static str)
        ensures
            r@ == match self {
                ClusterConditionType::Available => "Available"@,
                ClusterConditionType::ReconciliationPaused => "ReconciliationPaused"@,
                ClusterConditionType::Stopped => "Stopped"@,
            },
    {
        match self {
            ClusterConditionType::Available => "Available",
            ClusterConditionType::ReconciliationPaused => "ReconciliationPaused",
            ClusterConditionType::Stopped => "Stopped",
        }
    }
}

/// The truth value of a status condition.
#[derive(Clone, Copy, PartialEq, Eq, Structural, Debug)]
pub enum ConditionStatus {
    True,
    False,
    Unknown,
}

/// One aggregate status condition of the cluster.
pub struct ClusterCondition {
    pub condition_type: ClusterConditionType,
    pub status: ConditionStatus,
    pub message: Option<String>,
    /// Set by the shell when it patches the status; never computed here.
    pub last_transition_time: Option<String>,
}

/// Ghost image of [`ClusterCondition`].
pub ghost struct ClusterConditionView {
    pub condition_type: ClusterConditionType,
    pub status: ConditionStatus,
    pub message: Option<Seq<char>>,
    pub last_transition_time: Option<Seq<char>>,
}

impl View for ClusterCondition {
    type V = ClusterConditionView;

    open spec fn view(&self) -> ClusterConditionView {
        ClusterConditionView {
            condition_type: self.condition_type,
            status: self.status,
            message: ostr_view(self.message),
            last_transition_time: ostr_view(self.last_transition_time),
        }
    }
}

/// The observed status of the cluster, kept in its status subresource.
pub struct EDCClusterStatus {
    pub conditions: Vec<ClusterCondition>,
}

/// The custom resource as the controller observes it.
pub struct EDCCluster {
    pub metadata: ObjectMetaRef,
    pub spec: EDCClusterSpec,
    pub status: Option<EDCClusterStatus>,
}

/// The object has no namespace, so namespaced children cannot be derived.
#[derive(Clone, Copy, PartialEq, Eq, Structural, Debug)]
pub struct NoNamespaceError {}

/// Points at one role-group of one cluster; all object names of the
/// role-group derive from it.
pub struct RoleGroupRef {
    pub cluster_name: String,
    pub cluster_namespace: Option<String>,
    pub role: String,
    pub role_group: String,
}

/// The object name every namespaced object of a role-group carries:
/// `<cluster>-<role>-<role-group>`.
pub open spec fn rolegroup_object_name_view(
    cluster: Seq<char>,
    role: Seq<char>,
    group: Seq<char>,
) -> Seq<char> {
    cluster + "-"@ + role + "-"@ + group
}

impl RoleGroupRef {
    /// The name shared by this role-group's Service, ConfigMap and
    /// StatefulSet.
    pub fn object_name(&self) -> (r: String)
        ensures
            r@ == rolegroup_object_name_view(self.cluster_name@, self.role@, self.role_group@),
    {
        let mut out = self.cluster_name.clone();
        out.append("-");
        out.append(self.role.as_str());
        out.append("-");
        out.append(self.role_group.as_str());
        out
    }
}

/// Reference to a single pod of the cluster, for service discovery.
pub struct PodRef {
    pub namespace: String,
    pub role_group_service_name: String,
    pub pod_name: String,
}

/// Ghost image of [`PodRef`].
pub ghost struct PodRefView {
    pub namespace: Seq<char>,
    pub role_group_service_name: Seq<char>,
    pub pod_name: Seq<char>,
}

impl View for PodRef {
    type V = PodRefView;

    open spec fn view(&self) -> PodRefView {
        PodRefView {
            namespace: self.namespace@,
            role_group_service_name: self.role_group_service_name@,
            pod_name: self.pod_name@,
        }
    }
}

impl PodRef {
    /// The in-cluster DNS name of the pod.
    pub fn fqdn(&self) -> (r: String)
        ensures
            r@ == self.pod_name@ + "."@ + self.role_group_service_name@ + "."@ + self.namespace@
                + ".svc.cluster.local"@,
    {
        let mut out = self.pod_name.clone();
        out.append(".");
        out.append(self.role_group_service_name.as_str());
        out.append(".");
        out.append(self.namespace.as_str());
        out.append(".svc.cluster.local");
        out
    }
}

/// The cluster's name, or the empty string where none is set.
pub open spec fn name_any_view(c: &EDCCluster) -> Seq<char> {
    match c.metadata.name {
        Some(n) => n@,
        None => Seq::empty(),
    }
}

/// The first role-group of the given name, if any.
pub open spec fn find_group(gs: Seq<(String, RoleGroup)>, name: Seq<char>) -> Option<RoleGroup>
    decreases gs.len(),
{
    if gs.len() == 0 {
        None
    } else if gs[0].0@ == name {
        Some(gs[0].1)
    } else {
        find_group(gs.skip(1), name)
    }
}

/// The names of the role's role-groups, in spec order.
pub open spec fn role_group_names(c: &EDCCluster) -> Seq<String> {
    match c.spec.connectors {
        Some(role) => role.role_groups@.map_values(|g: (String, RoleGroup)| g.0),
        None => Seq::empty(),
    }
}

/// The fragment a role-group contributes: its own override, or nothing.
pub open spec fn group_fragment_view(role: Role, group: Seq<char>) -> ConnectorConfigFragmentView {
    match find_group(role.role_groups@, group) {
        Some(g) => g.config.config@,
        None => empty_fragment_view(),
    }
}

/// The three-tier merged fragment of one role-group of the cluster:
/// role-group over role over the hardcoded defaults.
pub open spec fn merged_fragment_view(c: &EDCCluster, group: Seq<char>)
    -> ConnectorConfigFragmentView {
    let role = c.spec.connectors->Some_0;
    merge_fragment_view(
        group_fragment_view(role, group),
        merge_fragment_view(
            role.config.config@,
            default_fragment_view(name_any_view(c), EDCRole::Connector.name_view()),
        ),
    )
}

/// The replica count a role-group asks for, defaulting to zero.
pub open spec fn group_replicas(c: &EDCCluster, group: Seq<char>) -> u16 {
    match c.spec.connectors {
        Some(role) => match find_group(role.role_groups@, group) {
            Some(g) => match g.replicas {
                Some(n) => n,
                None => 0,
            },
            None => 0,
        },
        None => 0,
    }
}

/// The pods one role-group is expected to run.
pub open spec fn group_pods_view(c: &EDCCluster, ns: Seq<char>, group: Seq<char>) -> Seq<
    PodRefView,
> {
    let svc = rolegroup_object_name_view(name_any_view(c), EDCRole::Connector.name_view(), group);
    Seq::new(
        group_replicas(c, group) as nat,
        |i: int|
            PodRefView {
                namespace: ns,
                role_group_service_name: svc,
                pod_name: svc + "-"@ + dec_str(i as nat),
            },
    )
}

/// The pods of the whole cluster, role-groups in the given name order.
pub open spec fn pods_view(c: &EDCCluster, ns: Seq<char>, names: Seq<String>) -> Seq<PodRefView>
    decreases names.len(),
{
    if names.len() == 0 {
        Seq::empty()
    } else {
        group_pods_view(c, ns, names[0]@) + pods_view(c, ns, names.skip(1))
    }
}

/// Copies a list of key/value pairs.
pub fn clone_pairs(v: &Vec<(String, String)>) -> (r: Vec<(String, String)>)
    ensures
        r@ == v@,
{
    let mut out: Vec<(String, String)> = Vec::new();
    let mut i: usize = 0;
    let n = v.len();
    while i < n
        invariant
            n == v@.len(),
            0 <= i <= n,
            out@ == v@.take(i as int),
        decreases n - i,
    {
        let pair = (v[i].0.clone(), v[i].1.clone());
        proof {
            assert(pair == v@[i as int]);
            assert(v@.take(i as int).push(v@[i as int]) =~= v@.take(i + 1));
        }
        out.push(pair);
        i = i + 1;
    }
    proof {
        assert(v@.take(n as int) =~= v@);
    }
    out
}

/// Copies an optional string.
pub fn clone_ostr(o: &Option<String>) -> (r: Option<String>)
    ensures
        r == *o,
{
    match o {
        Some(s) => Some(s.clone()),
        None => None,
    }
}

/// Copies an optional label selector.
pub fn clone_osel(o: &Option<LabelSelectorModel>) -> (r: Option<LabelSelectorModel>)
    ensures
        osel_view(r) == osel_view(*o),
{
    match o {
        Some(s) => {
            let c = LabelSelectorModel { match_labels: clone_pairs(&s.match_labels) };
            proof {
                assert(c@ == s@);
            }
            Some(c)
        },
        None => None,
    }
}

/// Copies one container's logging configuration.
pub fn clone_container_log_config(c: &ContainerLogConfig) -> (r: ContainerLogConfig)
    ensures
        r == *c,
{
    ContainerLogConfig {
        choice: match &c.choice {
            Some(LogChoice::Automatic(a)) => Some(LogChoice::Automatic(*a)),
            Some(LogChoice::Custom { config_map }) => Some(
                LogChoice::Custom { config_map: config_map.clone() },
            ),
            None => None,
        },
    }
}

/// Copies a list of affinity terms.
fn clone_terms(v: &Vec<AffinityTerm>) -> (r: Vec<AffinityTerm>)
    ensures
        aterms_view(r@) == aterms_view(v@),
{
    let mut out: Vec<AffinityTerm> = Vec::new();
    let mut i: usize = 0;
    let n = v.len();
    while i < n
        invariant
            n == v@.len(),
            0 <= i <= n,
            aterms_view(out@) == aterms_view(v@.take(i as int)),
        decreases n - i,
    {
        let t = AffinityTerm {
            match_labels: clone_pairs(&v[i].match_labels),
            topology_key: v[i].topology_key.clone(),
        };
        proof {
            assert(t@ == v@[i as int]@);
            assert(aterms_view(out@.push(t)) =~= aterms_view(out@).push(t@));
            assert(aterms_view(v@.take(i + 1)) =~= aterms_view(v@.take(i as int)).push(
                v@[i as int]@,
            ));
        }
        out.push(t);
        i = i + 1;
    }
    proof {
        assert(v@.take(n as int) =~= v@);
    }
    out
}

/// Copies a list of weighted affinity terms.
fn clone_weighted_terms(v: &Vec<WeightedAffinityTerm>) -> (r: Vec<WeightedAffinityTerm>)
    ensures
        wterms_view(r@) == wterms_view(v@),
{
    let mut out: Vec<WeightedAffinityTerm> = Vec::new();
    let mut i: usize = 0;
    let n = v.len();
    while i < n
        invariant
            n == v@.len(),
            0 <= i <= n,
            wterms_view(out@) == wterms_view(v@.take(i as int)),
        decreases n - i,
    {
        let t = WeightedAffinityTerm {
            weight: v[i].weight,
            term: AffinityTerm {
                match_labels: clone_pairs(&v[i].term.match_labels),
                topology_key: v[i].term.topology_key.clone(),
            },
        };
        proof {
            assert(t@ == v@[i as int]@);
            assert(wterms_view(out@.push(t)) =~= wterms_view(out@).push(t@));
            assert(wterms_view(v@.take(i + 1)) =~= wterms_view(v@.take(i as int)).push(
                v@[i as int]@,
            ));
        }
        out.push(t);
        i = i + 1;
    }
    proof {
        assert(v@.take(n as int) =~= v@);
    }
    out
}

/// Copies an affinity block.
pub fn clone_affinity(a: &StackableAffinity) -> (r: StackableAffinity)
    ensures
        r@ == a@,
{
    StackableAffinity {
        pod_affinity: match &a.pod_affinity {
            Some(p) => {
                let c = PodAffinityRules {
                    preferred: clone_weighted_terms(&p.preferred),
                    required: clone_terms(&p.required),
                };
                proof {
                    assert(c@ == p@);
                }
                Some(c)
            },
            None => None,
        },
        pod_anti_affinity: match &a.pod_anti_affinity {
            Some(p) => {
                let c = PodAffinityRules {
                    preferred: clone_weighted_terms(&p.preferred),
                    required: clone_terms(&p.required),
                };
                proof {
                    assert(c@ == p@);
                }
                Some(c)
            },
            None => None,
        },
        node_selector: clone_osel(&a.node_selector),
    }
}

/// Copies a configuration fragment.
pub fn clone_fragment(f: &ConnectorConfigFragment) -> (r: ConnectorConfigFragment)
    ensures
        r@ == f@,
{
    ConnectorConfigFragment {
        resources: ResourcesFragment {
            cpu: CpuLimitsFragment {
                min: clone_ostr(&f.resources.cpu.min),
                max: clone_ostr(&f.resources.cpu.max),
            },
            memory: MemoryLimitsFragment { limit: clone_ostr(&f.resources.memory.limit) },
            storage: ConnectorStorageConfigFragment {
                data: PvcConfigFragment {
                    capacity: clone_ostr(&f.resources.storage.data.capacity),
                    storage_class: clone_ostr(&f.resources.storage.data.storage_class),
                    selectors: clone_osel(&f.resources.storage.data.selectors),
                },
            },
        },
        logging: LoggingFragment {
            enable_vector_agent: match f.logging.enable_vector_agent {
                Some(b) => Some(b),
                None => None,
            },
            connector: match &f.logging.connector {
                Some(c) => Some(clone_container_log_config(c)),
                None => None,
            },
            vector: match &f.logging.vector {
                Some(c) => Some(clone_container_log_config(c)),
                None => None,
            },
        },
        affinity: clone_affinity(&f.affinity),
    }
}

impl EDCCluster {
    /// The cluster's name, or the empty string where none is set.
    pub fn name_any(&self) -> (r: String)
        ensures
            r@ == name_any_view(self),
    {
        match &self.metadata.name {
            Some(n) => n.clone(),
            None => String::new(),
        }
    }

    /// The name of the role-level load-balanced Kubernetes Service.
    pub fn server_role_service_name(&self) -> (r: Option<&str>)
        ensures
            match r {
                Some(n) => self.metadata.name is Some && n@ == self.metadata.name->Some_0@,
                None => self.metadata.name is None,
            },
    {
        match &self.metadata.name {
            Some(n) => Some(n.as_str()),
            None => None,
        }
    }

    /// Metadata about a server role-group.
    pub fn server_rolegroup_ref(&self, group_name: &str) -> (r: RoleGroupRef)
        ensures
            r.cluster_name@ == name_any_view(self),
            r.cluster_namespace == self.metadata.namespace,
            r.role@ == EDCRole::Connector.name_view(),
            r.role_group@ == group_name@,
    {
        RoleGroupRef {
            cluster_name: self.name_any(),
            cluster_namespace: clone_ostr(&self.metadata.namespace),
            role: String::from_str(EDCRole::Connector.as_str()),
            role_group: String::from_str(group_name),
        }
    }

    /// The role's definition in the spec, if present.
    pub fn get_role(&self, role: &EDCRole) -> (r: Option<&Role>)
        ensures
            match r {
                Some(x) => self.spec.connectors is Some && *x == self.spec.connectors->Some_0,
                None => self.spec.connectors is None,
            },
    {
        match role {
            EDCRole::Connector => self.spec.connectors.as_ref(),
        }
    }

    /// Retrieves and merges the configuration of one role-group:
    /// role-group overrides over role overrides over the defaults, then
    /// validated. With the defaults as the base tier the merge is always
    /// complete, so a present role always yields a configuration.
    pub fn merged_config(&self, role: &EDCRole, role_group: &str) -> (r: Result<
        ConnectorConfig,
        Error,
    >)
        ensures
            self.spec.connectors is None ==> r == Err::<ConnectorConfig, Error>(
                Error::MissingMetaStoreRole,
            ),
            self.spec.connectors is Some ==> r is Ok && r->Ok_0@ == validated_view(
                merged_fragment_view(self, role_group@),
            ),
    {
        let name = self.name_any();
        let conf_defaults = ConnectorConfig::default_config(name.as_str(), role);
        let role_def = match self.get_role(role) {
            Some(x) => x,
            None => {
                return Err(Error::MissingMetaStoreRole);
            },
        };
        let conf_role = clone_fragment(&role_def.config.config);
        let conf_rolegroup = match find_role_group(role_def, role_group) {
            Some(g) => clone_fragment(&g.config.config),
            None => empty_fragment(),
        };
        let merged_role = fragment_merge(conf_role, conf_defaults);
        let merged = fragment_merge(conf_rolegroup, merged_role);
        proof {
            assert(fragment_complete_view(merged@));
        }
        validate(merged)
    }

    /// The cluster's status conditions, or none where no status is set.
    pub fn conditions(&self) -> (r: Vec<ClusterCondition>)
        ensures
            match self.status {
                Some(st) => r@ == st.conditions@,
                None => r@ == Seq::<ClusterCondition>::empty(),
            },
    {
        match &self.status {
            Some(st) => {
                let mut out: Vec<ClusterCondition> = Vec::new();
                let mut i: usize = 0;
                let n = st.conditions.len();
                while i < n
                    invariant
                        n == st.conditions@.len(),
                        0 <= i <= n,
                        out@ == st.conditions@.take(i as int),
                    decreases n - i,
                {
                    let c = ClusterCondition {
                        condition_type: st.conditions[i].condition_type,
                        status: st.conditions[i].status,
                        message: clone_ostr(&st.conditions[i].message),
                        last_transition_time: clone_ostr(&st.conditions[i].last_transition_time),
                    };
                    proof {
                        assert(c == st.conditions@[i as int]);
                        assert(st.conditions@.take(i as int).push(st.conditions@[i as int])
                            =~= st.conditions@.take(i + 1));
                    }
                    out.push(c);
                    i = i + 1;
                }
                proof {
                    assert(st.conditions@.take(n as int) =~= st.conditions@);
                }
                out
            },
            None => Vec::new(),
        }
    }
}

/// Finds the first role-group of the given name.
pub fn find_role_group<'a>(role: &'a Role, name: &str) -> (r: Option<&'a RoleGroup>)
    ensures
        match r {
            Some(g) => find_group(role.role_groups@, name@) is Some && *g == find_group(
                role.role_groups@,
                name@,
            )->Some_0,
            None => find_group(role.role_groups@, name@) is None,
        },
{
    let ghost s = role.role_groups@;
    let mut i: usize = 0;
    let n = role.role_groups.len();
    proof {
        assert(s.skip(0) =~= s);
    }
    while i < n
        invariant
            n == s.len(),
            role.role_groups@ == s,
            0 <= i <= n,
            find_group(s, name@) == find_group(s.skip(i as int), name@),
        decreases n - i,
    {
        proof {
            assert(s.skip(i as int)[0] == s[i as int]);
            assert(s.skip(i as int).skip(1) =~= s.skip(i + 1));
        }
        if str_eq(role.role_groups[i].0.as_str(), name) {
            return Some(&role.role_groups[i].1);
        }
        i = i + 1;
    }
    proof {
        assert(s.skip(n as int) =~= Seq::<(String, RoleGroup)>::empty());
    }
    None
}


/// The views of a list of pod references.
pub open spec fn pod_refs_view(s: Seq<PodRef>) -> Seq<PodRefView> {
    s.map_values(|p: PodRef| p@)
}

impl EDCCluster {
    /// All pods expected to form the cluster, predicted from the spec
    /// rather than read from the live cluster, role-groups in ascending
    /// name order so repeated listings never churn.
    pub fn pods(&self) -> (r: Result<Vec<PodRef>, NoNamespaceError>)
        ensures
            match self.metadata.namespace {
                None => r == Err::<Vec<PodRef>, NoNamespaceError>(NoNamespaceError {}),
                Some(ns) => r is Ok && pod_refs_view(r->Ok_0@) == pods_view(
                    self,
                    ns@,
                    sort_names(role_group_names(self)),
                ),
            },
    {
        let ns = match &self.metadata.namespace {
            Some(n) => n.clone(),
            None => {
                return Err(NoNamespaceError {});
            },
        };
        let ghost nsv = ns@;
        let mut names: Vec<String> = Vec::new();
        let ghost target = role_group_names(self);
        match &self.spec.connectors {
            Some(role) => {
                let mut i: usize = 0;
                let n = role.role_groups.len();
                while i < n
                    invariant
                        n == role.role_groups@.len(),
                        target == role.role_groups@.map_values(|g: (String, RoleGroup)| g.0),
                        0 <= i <= n,
                        names@ == target.take(i as int),
                    decreases n - i,
                {
                    let name = role.role_groups[i].0.clone();
                    proof {
                        assert(target[i as int] == role.role_groups@[i as int].0);
                        assert(target.take(i as int).push(target[i as int]) =~= target.take(i + 1));
                    }
                    names.push(name);
                    i = i + 1;
                }
                proof {
                    assert(target.take(n as int) =~= target);
                }
            },
            None => {
                proof {
                    assert(names@ =~= target);
                }
            },
        }
        let sorted = crate::namelist::names_sort(&names);
        let ghost snames = sort_names(target);
        let mut out: Vec<PodRef> = Vec::new();
        let mut gi: usize = 0;
        let gn = sorted.len();
        proof {
            assert(snames.skip(0) =~= snames);
            assert(pod_refs_view(out@) =~= Seq::<PodRefView>::empty());
        }
        while gi < gn
            invariant
                gn == snames.len(),
                sorted@ == snames,
                0 <= gi <= gn,
                ns@ == nsv,
                pod_refs_view(out@) + pods_view(self, nsv, snames.skip(gi as int)) == pods_view(
                    self,
                    nsv,
                    snames,
                ),
            decreases gn - gi,
        {
            let group_name = &sorted[gi];
            let ghost gv = snames[gi as int]@;
            let rolegroup_ref = self.server_rolegroup_ref(group_name.as_str());
            let svc = rolegroup_ref.object_name();
            let replicas: u16 = match &self.spec.connectors {
                Some(role) => match find_role_group(role, group_name.as_str()) {
                    Some(g) => match g.replicas {
                        Some(x) => x,
                        None => 0,
                    },
                    None => 0,
                },
                None => 0,
            };
            proof {
                assert(replicas == group_replicas(self, gv));
            }
            let ghost before = pod_refs_view(out@);
            let ghost gpods = group_pods_view(self, nsv, gv);
            let mut k: u16 = 0;
            while k < replicas
                invariant
                    0 <= k <= replicas,
                    gpods == group_pods_view(self, nsv, gv),
                    gpods.len() == replicas,
                    svc@ == rolegroup_object_name_view(
                        name_any_view(self),
                        EDCRole::Connector.name_view(),
                        gv,
                    ),
                    ns@ == nsv,
                    pod_refs_view(out@) == before + gpods.take(k as int),
                decreases replicas - k,
            {
                let mut pod_name = svc.clone();
                pod_name.append("-");
                let num = crate::strnum::fmt_u16(k);
                pod_name.append(num.as_str());
                let p = PodRef {
                    namespace: ns.clone(),
                    role_group_service_name: svc.clone(),
                    pod_name,
                };
                proof {
                    assert(p@ == gpods[k as int]);
                    assert(pod_refs_view(out@.push(p)) =~= pod_refs_view(out@).push(p@));
                    assert(gpods.take(k as int).push(gpods[k as int]) =~= gpods.take(k + 1));
                    assert(before + gpods.take(k as int).push(gpods[k as int]) =~= (before
                        + gpods.take(k as int)).push(gpods[k as int]));
                }
                out.push(p);
                k = k + 1;
            }
            proof {
                assert(gpods.take(replicas as int) =~= gpods);
                assert(snames.skip(gi as int)[0] == snames[gi as int]);
                assert(snames.skip(gi as int).skip(1) =~= snames.skip(gi + 1));
                assert(pods_view(self, nsv, snames.skip(gi as int)) == gpods + pods_view(
                    self,
                    nsv,
                    snames.skip(gi + 1),
                ));
                assert((before + gpods) + pods_view(self, nsv, snames.skip(gi + 1)) =~= before + (
                gpods + pods_view(self, nsv, snames.skip(gi + 1))));
            }
            gi = gi + 1;
        }
        proof {
            assert(snames.skip(gn as int) =~= Seq::<String>::empty());
            assert(pods_view(self, nsv, snames.skip(gn as int)) =~= Seq::<PodRefView>::empty());
            assert(pod_refs_view(out@) + Seq::<PodRefView>::empty() =~= pod_refs_view(out@));
        }
        Ok(out)
    }
}


/// Merge precedence: for every field, the three-tier merge takes the
/// role-group's value where present, else the role's, else the default's.
pub proof fn lemma_merge_precedence(
    rg: ConnectorConfigFragmentView,
    role: ConnectorConfigFragmentView,
    d: ConnectorConfigFragmentView,
)
    ensures
        ({
            let m = merge_fragment_view(rg, merge_fragment_view(role, d));
            &&& m.resources.cpu.min == or_opt(
                rg.resources.cpu.min,
                or_opt(role.resources.cpu.min, d.resources.cpu.min),
            )
            &&& m.resources.cpu.max == or_opt(
                rg.resources.cpu.max,
                or_opt(role.resources.cpu.max, d.resources.cpu.max),
            )
            &&& m.resources.memory.limit == or_opt(
                rg.resources.memory.limit,
                or_opt(role.resources.memory.limit, d.resources.memory.limit),
            )
            &&& m.resources.storage.data.capacity == or_opt(
                rg.resources.storage.data.capacity,
                or_opt(role.resources.storage.data.capacity, d.resources.storage.data.capacity),
            )
            &&& m.resources.storage.data.storage_class == or_opt(
                rg.resources.storage.data.storage_class,
                or_opt(
                    role.resources.storage.data.storage_class,
                    d.resources.storage.data.storage_class,
                ),
            )
            &&& m.resources.storage.data.selectors == or_opt(
                rg.resources.storage.data.selectors,
                or_opt(role.resources.storage.data.selectors, d.resources.storage.data.selectors),
            )
            &&& m.logging.enable_vector_agent == or_opt(
                rg.logging.enable_vector_agent,
                or_opt(role.logging.enable_vector_agent, d.logging.enable_vector_agent),
            )
            &&& m.logging.connector == or_opt(
                rg.logging.connector,
                or_opt(role.logging.connector, d.logging.connector),
            )
            &&& m.logging.vector == or_opt(
                rg.logging.vector,
                or_opt(role.logging.vector, d.logging.vector),
            )
            &&& m.affinity.pod_affinity == or_opt(
                rg.affinity.pod_affinity,
                or_opt(role.affinity.pod_affinity, d.affinity.pod_affinity),
            )
            &&& m.affinity.pod_anti_affinity == or_opt(
                rg.affinity.pod_anti_affinity,
                or_opt(role.affinity.pod_anti_affinity, d.affinity.pod_anti_affinity),
            )
            &&& m.affinity.node_selector == or_opt(
                rg.affinity.node_selector,
                or_opt(role.affinity.node_selector, d.affinity.node_selector),
            )
        }),
{
}

/// The hardcoded defaults leave no required field unset.
pub proof fn lemma_default_fragment_complete(cluster_name: Seq<char>, role: Seq<char>)
    ensures
        fragment_complete_view(default_fragment_view(cluster_name, role)),
{
}

/// Validation totality: merging any two fragments over a complete base
/// leaves every required field concretely set, so validation succeeds.
pub proof fn lemma_validation_totality(
    rg: ConnectorConfigFragmentView,
    role: ConnectorConfigFragmentView,
    d: ConnectorConfigFragmentView,
)
    requires
        fragment_complete_view(d),
    ensures
        fragment_complete_view(merge_fragment_view(rg, merge_fragment_view(role, d))),
{
}


/// The endpoint URL of a resolved object-storage connection: scheme by
/// TLS presence, the host, and the port where one is set.
pub open spec fn s3_endpoint_view(c: S3ConnectionSpecView) -> Option<Seq<char>> {
    match c.host {
        None => None,
        Some(h) => Some(
            (if c.tls is Some {
                "https://"@
            } else {
                "http://"@
            }) + h + (match c.port {
                Some(p) => ":"@ + crate::strnum::dec_str(p as nat),
                None => Seq::empty(),
            }),
        ),
    }
}

impl S3ConnectionSpec {
    /// The endpoint URL of the connection, if a host is known.
    pub fn endpoint(&self) -> (r: Option<String>)
        ensures
            ostr_view(r) == s3_endpoint_view(self@),
    {
        match &self.host {
            None => None,
            Some(h) => {
                let mut out = if self.tls.is_some() {
                    String::from_str("https://")
                } else {
                    String::from_str("http://")
                };
                out.append(h.as_str());
                match self.port {
                    Some(p) => {
                        out.append(":");
                        let ps = crate::strnum::fmt_u16(p);
                        out.append(ps.as_str());
                    },
                    None => (),
                }
                proof {
                    if self.port is None {
                        assert(out@ =~= s3_endpoint_view(self@)->Some_0);
                    }
                }
                Some(out)
            },
        }
    }
}
} // verus!
