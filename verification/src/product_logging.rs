//! Logging configuration of the synthesized ConfigMap: the Java logging
//! property file, the log-shipper configuration, and the resolution of the
//! log-aggregator address from a discovery ConfigMap's data.
use vstd::prelude::*;

use crate::crd::{
    AutomaticLogConfig, EDCCluster, LogChoice, LogLevel, Logging, RoleGroupRef,
};
use crate::kvlist::{kv_get, kv_map, kv_put, kv_sorted};

verus! {

/// Why logging configuration could not be produced or resolved.
#[derive(Clone, PartialEq, Eq, Debug)]
pub enum Error {
    /// The cluster has no namespace, so the discovery ConfigMap cannot be
    /// addressed.
    ObjectHasNoNamespace,
    /// The named discovery ConfigMap was not found.
    ConfigMapNotFound { cm_name: String },
    /// The discovery ConfigMap lacks the required entry.
    MissingConfigMapEntry { entry: String, cm_name: String },
    /// The cluster spec itself was invalid.
    CrdValidationFailure { source: crate::crd::Error },
    /// The log shipper is enabled but no aggregator address is known.
    MissingVectorAggregatorAddress,
}

/// The Java logging property file the operator generates. The runtime
/// reads fixed handler settings; levels are pinned at the default.
pub open spec fn java_logging_config_text() -> Seq<char> {
    "handlers=java.util.logging.FileHandler, java.util.logging.ConsoleHandler\n.level=INFO\njava.util.logging.FileHandler.pattern=/stackable/log/edc/edc.%g.logger\njava.util.logging.FileHandler.limit=50000\njava.util.logging.FileHandler.count=10\njava.util.logging.FileHandler.formatter=java.util.logging.SimpleFormatter\njava.util.logging.ConsoleHandler.level=INFO\njava.util.logging.ConsoleHandler.formatter = java.util.logging.SimpleFormatter\n\n"@
}

/// Generates the Java logging property file of the connector container.
pub fn create_java_logging_config(
    _log_dir: &str,
    _log_file: &str,
    _max_size_in_mib: u32,
    _console_conversion_pattern: &str,
    _config: &AutomaticLogConfig,
) -> (r: String)
    ensures
        r@ == java_logging_config_text(),
{
    String::from_str(
        "handlers=java.util.logging.FileHandler, java.util.logging.ConsoleHandler\n.level=INFO\njava.util.logging.FileHandler.pattern=/stackable/log/edc/edc.%g.logger\njava.util.logging.FileHandler.limit=50000\njava.util.logging.FileHandler.count=10\njava.util.logging.FileHandler.formatter=java.util.logging.SimpleFormatter\njava.util.logging.ConsoleHandler.level=INFO\njava.util.logging.ConsoleHandler.formatter = java.util.logging.SimpleFormatter\n\n",
    )
}

/// The log-shipper filter expression that keeps records at or above the
/// given level.
pub open spec fn vector_filter_expr(level: LogLevel) -> Seq<char> {
    match level {
        LogLevel::Trace => "true"@,
        LogLevel::Debug => ".level != \"TRACE\""@,
        LogLevel::Info => "!includes([\"TRACE\", \"DEBUG\"], .metadata.level)"@,
        LogLevel::Warn => "!includes([\"TRACE\", \"DEBUG\", \"INFO\"], .metadata.level)"@,
        LogLevel::Error => "!includes([\"TRACE\", \"DEBUG\", \"INFO\", \"WARN\"], .metadata.level)"@,
        LogLevel::Fatal => "false"@,
        LogLevel::Off => "false"@,
    }
}

/// The log-shipper filter expression that keeps records at or above the
/// given level.
pub fn vector_filter_expr_str(level: LogLevel) -> (r: &'static str)
    ensures
        r@ == vector_filter_expr(level),
{
    match level {
        LogLevel::Trace => "true",
        LogLevel::Debug => ".level != \"TRACE\"",
        LogLevel::Info => "!includes([\"TRACE\", \"DEBUG\"], .metadata.level)",
        LogLevel::Warn => "!includes([\"TRACE\", \"DEBUG\", \"INFO\"], .metadata.level)",
        LogLevel::Error => "!includes([\"TRACE\", \"DEBUG\", \"INFO\", \"WARN\"], .metadata.level)",
        LogLevel::Fatal => "false",
        LogLevel::Off => "false",
    }
}

/// The level the log shipper filters its own records at: the file level of
/// its automatic configuration, or the default.
pub open spec fn vector_file_level(logging: &Logging) -> LogLevel {
    match logging.vector.choice {
        Some(LogChoice::Automatic(c)) => match c.file_level {
            Some(l) => l,
            None => LogLevel::Info,
        },
        _ => LogLevel::Info,
    }
}

/// The log-shipper configuration: fixed sources and transforms over the
/// pod's log files, scoped to the role-group, shipping to the aggregator.
pub open spec fn vector_config_text(
    ns: Seq<char>,
    cluster: Seq<char>,
    role: Seq<char>,
    group: Seq<char>,
    addr: Seq<char>,
    level: LogLevel,
) -> Seq<char> {
    vector_config_head() + vector_filter_expr(level) + vector_config_mid()
        + ns + "\"\n.cluster = \""@ + cluster + "\"\n.role = \""@ + role
        + "\"\n.roleGroup = \""@ + group + vector_config_tail() + addr + "\"\n"@
}

/// The shipper configuration up to its level-filter expression.
pub open spec fn vector_config_head() -> Seq<char> {
    r#"data_dir = "/stackable/vector/var"

[log_schema]
host_key = "pod"

[sources.vector]
type = "internal_logs"

[sources.files_stdout]
type = "file"
include = ["/stackable/log/*/*.stdout.log"]

[sources.files_stderr]
type = "file"
include = ["/stackable/log/*/*.stderr.log"]

[sources.files_jul]
type = "file"
include = ["/stackable/log/*/*.logger"]

[transforms.processed_files_stdout]
inputs = ["files_stdout"]
type = "remap"
source = '''
.logger = "ROOT"
.level = "INFO"
'''

[transforms.processed_files_stderr]
inputs = ["files_stderr"]
type = "remap"
source = '''
.logger = "ROOT"
.level = "ERROR"
'''

[transforms.processed_files_jul]
inputs = ["files_jul"]
type = "remap"
source = '''
.logger = "ROOT"
.level = "INFO"
'''

[transforms.parsed_logs_std]
inputs = ["processed_files_std*"]
type = "remap"
source = '''
. |= parse_regex!(.file, r'^/stackable/log/(?P<container>.*?)/(?P<file>.*?)$')
del(.source_type)
'''

[transforms.parsed_logs_jul]
inputs = ["processed_files_jul"]
type = "remap"
source = '''
. |= parse_regex!(.file, r'^/stackable/log/(?P<container>.*?)/(?P<file>.*?)$')
del(.source_type)
'''

[transforms.extended_logs_files]
inputs = ["parsed_logs_std"]
type = "remap"
source = '''
parsed_event, err = parse_regex(strip_whitespace(strip_ansi_escape_codes(string!(.message))), r'(?P<level>\w+)+[ ]+(?P<timestamp>[0-9]{4}-(0[1-9]|1[0-2])-(0[1-9]|[1-2][0-9]|3[0-1])T(2[0-3]|[01][0-9]):[0-5][0-9]:[0-5][0-9].[0-9]+)+[ ]+(?P<message>.*)')

if err == null {
  .timestamp = parse_timestamp!(parsed_event.timestamp, "%Y-%m-%dT%H:%M:%S.%f")
  .level = parsed_event.level
  .message = parsed_event.message
}
'''

[transforms.extended_logs_jul]
inputs = ["parsed_logs_jul"]
type = "remap"
source = '''
.message = "Java Logging: " + string!(.message)
'''

[transforms.filtered_logs_vector]
inputs = ["vector"]
type = "filter"
condition = '"#@
}

/// The shipper configuration between the filter and the namespace label.
pub open spec fn vector_config_mid() -> Seq<char> {
    r#"'

[transforms.extended_logs_vector]
inputs = ["filtered_logs_vector"]
type = "remap"
source = '''
.container = "vector"
.level = .metadata.level
.logger = .metadata.module_path
if exists(.file) { .processed_file = del(.file) }
del(.metadata)
del(.pid)
del(.source_type)
'''

[transforms.extended_logs]
inputs = ["extended_logs_*"]
type = "remap"
source = '''
.namespace = ""#@
}

/// The shipper configuration between the role-group label and the address.
pub open spec fn vector_config_tail() -> Seq<char> {
    r#""
'''

[sinks.aggregator]
inputs = ["extended_logs"]
type = "vector"
address = ""#@
}

/// The namespace a role-group's shipper labels its records with.
pub open spec fn rolegroup_namespace_view(rolegroup: &RoleGroupRef) -> Seq<char> {
    match rolegroup.cluster_namespace {
        Some(n) => n@,
        None => Seq::empty(),
    }
}

/// Generates the log-shipper configuration of one role-group.
pub fn create_vector_config(
    role_group: &RoleGroupRef,
    vector_aggregator_address: &str,
    config: Option<&AutomaticLogConfig>,
) -> (r: String)
    ensures
        r@ == vector_config_text(
            rolegroup_namespace_view(role_group),
            role_group.cluster_name@,
            role_group.role@,
            role_group.role_group@,
            vector_aggregator_address@,
            match config {
                Some(c) => match c.file_level {
                    Some(l) => l,
                    None => LogLevel::Info,
                },
                None => LogLevel::Info,
            },
        ),
{
    let level = match config {
        Some(c) => match c.file_level {
            Some(l) => l,
            None => LogLevel::Info,
        },
        None => LogLevel::Info,
    };
    let mut out = String::from_str(
        r#"data_dir = "/stackable/vector/var"

[log_schema]
host_key = "pod"

[sources.vector]
type = "internal_logs"

[sources.files_stdout]
type = "file"
include = ["/stackable/log/*/*.stdout.log"]

[sources.files_stderr]
type = "file"
include = ["/stackable/log/*/*.stderr.log"]

[sources.files_jul]
type = "file"
include = ["/stackable/log/*/*.logger"]

[transforms.processed_files_stdout]
inputs = ["files_stdout"]
type = "remap"
source = '''
.logger = "ROOT"
.level = "INFO"
'''

[transforms.processed_files_stderr]
inputs = ["files_stderr"]
type = "remap"
source = '''
.logger = "ROOT"
.level = "ERROR"
'''

[transforms.processed_files_jul]
inputs = ["files_jul"]
type = "remap"
source = '''
.logger = "ROOT"
.level = "INFO"
'''

[transforms.parsed_logs_std]
inputs = ["processed_files_std*"]
type = "remap"
source = '''
. |= parse_regex!(.file, r'^/stackable/log/(?P<container>.*?)/(?P<file>.*?)$')
del(.source_type)
'''

[transforms.parsed_logs_jul]
inputs = ["processed_files_jul"]
type = "remap"
source = '''
. |= parse_regex!(.file, r'^/stackable/log/(?P<container>.*?)/(?P<file>.*?)$')
del(.source_type)
'''

[transforms.extended_logs_files]
inputs = ["parsed_logs_std"]
type = "remap"
source = '''
parsed_event, err = parse_regex(strip_whitespace(strip_ansi_escape_codes(string!(.message))), r'(?P<level>\w+)+[ ]+(?P<timestamp>[0-9]{4}-(0[1-9]|1[0-2])-(0[1-9]|[1-2][0-9]|3[0-1])T(2[0-3]|[01][0-9]):[0-5][0-9]:[0-5][0-9].[0-9]+)+[ ]+(?P<message>.*)')

if err == null {
  .timestamp = parse_timestamp!(parsed_event.timestamp, "%Y-%m-%dT%H:%M:%S.%f")
  .level = parsed_event.level
  .message = parsed_event.message
}
'''

[transforms.extended_logs_jul]
inputs = ["parsed_logs_jul"]
type = "remap"
source = '''
.message = "Java Logging: " + string!(.message)
'''

[transforms.filtered_logs_vector]
inputs = ["vector"]
type = "filter"
condition = '"#,
    );
    out.append(vector_filter_expr_str(level));
    out.append(
        r#"'

[transforms.extended_logs_vector]
inputs = ["filtered_logs_vector"]
type = "remap"
source = '''
.container = "vector"
.level = .metadata.level
.logger = .metadata.module_path
if exists(.file) { .processed_file = del(.file) }
del(.metadata)
del(.pid)
del(.source_type)
'''

[transforms.extended_logs]
inputs = ["extended_logs_*"]
type = "remap"
source = '''
.namespace = ""#,
    );
    match &role_group.cluster_namespace {
        Some(n) => out.append(n.as_str()),
        None => (),
    }
    out.append("\"\n.cluster = \"");
    out.append(role_group.cluster_name.as_str());
    out.append("\"\n.role = \"");
    out.append(role_group.role.as_str());
    out.append("\"\n.roleGroup = \"");
    out.append(role_group.role_group.as_str());
    out.append(
        r#""
'''

[sinks.aggregator]
inputs = ["extended_logs"]
type = "vector"
address = ""#,
    );
    out.append(vector_aggregator_address);
    out.append("\"\n");
    proof {
        if role_group.cluster_namespace is None {
            assert(Seq::<char>::empty() =~= rolegroup_namespace_view(role_group));
        }
    }
    out
}

/// Resolves the log-aggregator address from the discovery ConfigMap's
/// data, as fetched by the shell: no configured name means no address; a
/// configured name demands a namespace, a found ConfigMap, and its
/// `ADDRESS` entry.
pub fn resolve_vector_aggregator_address(
    edc: &EDCCluster,
    fetched: Option<&Vec<(String, String)>>,
) -> (r: Result<Option<String>, Error>)
    ensures
        edc.spec.cluster_config.vector_aggregator_config_map_name is None ==> r == Ok::<
            Option<String>,
            Error,
        >(None),
        edc.spec.cluster_config.vector_aggregator_config_map_name is Some
            && edc.metadata.namespace is None ==> r matches Err(Error::ObjectHasNoNamespace),
        edc.spec.cluster_config.vector_aggregator_config_map_name is Some
            && edc.metadata.namespace is Some ==> match fetched {
            None => r matches Err(Error::ConfigMapNotFound { cm_name }) && cm_name@
                == edc.spec.cluster_config.vector_aggregator_config_map_name->Some_0@,
            Some(data) => {
                if kv_map(data@).contains_key("ADDRESS"@) {
                    r matches Ok(a) && a matches Some(addr) && addr@ == kv_map(
                        data@,
                    )["ADDRESS"@]
                } else {
                    r matches Err(Error::MissingConfigMapEntry { entry, cm_name }) && entry@
                        == "ADDRESS"@ && cm_name@
                        == edc.spec.cluster_config.vector_aggregator_config_map_name->Some_0@
                }
            },
        },
{
    match &edc.spec.cluster_config.vector_aggregator_config_map_name {
        None => Ok(None),
        Some(cm_name) => {
            if edc.metadata.namespace.is_none() {
                return Err(Error::ObjectHasNoNamespace);
            }
            match fetched {
                None => Err(Error::ConfigMapNotFound { cm_name: cm_name.clone() }),
                Some(data) => match kv_get(data, "ADDRESS") {
                    Some(addr) => Ok(Some(addr.clone())),
                    None => Err(
                        Error::MissingConfigMapEntry {
                            entry: String::from_str("ADDRESS"),
                            cm_name: cm_name.clone(),
                        },
                    ),
                },
            }
        },
    }
}

/// Extends a role-group ConfigMap's data with the generated logging
/// configuration and, where the log shipper is enabled, its configuration;
/// an enabled shipper without a known aggregator address is an error.
pub fn extend_role_group_config_map(
    rolegroup: &RoleGroupRef,
    vector_aggregator_address: Option<&str>,
    logging: &Logging,
    cm_data: Vec<(String, String)>,
) -> (r: Result<Vec<(String, String)>, Error>)
    requires
        kv_sorted(cm_data@),
    ensures
        ({
            let m0 = kv_map(cm_data@);
            let m1 = if logging.connector.choice matches Some(LogChoice::Automatic(_)) {
                m0.insert("logging.properties"@, java_logging_config_text())
            } else {
                m0
            };
            if logging.enable_vector_agent {
                match vector_aggregator_address {
                    None => r matches Err(Error::MissingVectorAggregatorAddress),
                    Some(addr) => r matches Ok(d) && kv_sorted(d@) && kv_map(d@) == m1.insert(
                        "vector.toml"@,
                        vector_config_text(
                            rolegroup_namespace_view(rolegroup),
                            rolegroup.cluster_name@,
                            rolegroup.role@,
                            rolegroup.role_group@,
                            addr@,
                            vector_file_level(logging),
                        ),
                    ),
                }
            } else {
                r matches Ok(d) && kv_sorted(d@) && kv_map(d@) == m1
            }
        }),
{
    let mut data = cm_data;
    match &logging.connector.choice {
        Some(LogChoice::Automatic(cfg)) => {
            let text = create_java_logging_config(
                "/stackable/log/edc",
                "logging.properties",
                10,
                "%d{ISO8601} %5p [%t] %c{2}: %m%n",
                cfg,
            );
            data = kv_put(data, "logging.properties", text);
        },
        _ => (),
    }
    let vector_cfg: Option<&AutomaticLogConfig> = match &logging.vector.choice {
        Some(LogChoice::Automatic(c)) => Some(c),
        _ => None,
    };
    if logging.enable_vector_agent {
        let addr = match vector_aggregator_address {
            Some(a) => a,
            None => {
                return Err(Error::MissingVectorAggregatorAddress);
            },
        };
        let text = create_vector_config(rolegroup, addr, vector_cfg);
        data = kv_put(data, "vector.toml", text);
    }
    Ok(data)
}

} // verus!
