//! Typed agent and workflow configuration, with the validation rules the
//! engine relies on.
//!
//! Fractional settings are integers in thousandths (temperature, top-p,
//! sample rate) or millionths of a dollar (cost bounds), so the rules here
//! are exact. Loading these structures from configuration files happens
//! outside the library.

use vstd::prelude::*;

use crate::text::{rfind_char, rfind_char_at, str_chars, str_eq, sub_chars, chars_string};

verus! {

/// Retry policy for model calls.
#[derive(Debug, Clone, PartialEq)]
pub struct RetryConfig {
    pub max_attempts: u32,
    pub backoff: String,
    pub initial_delay: String,
}

/// Model provider settings.
#[derive(Debug, Clone, PartialEq)]
pub struct LLMConfig {
    /// Provider name, such as "anthropic".
    pub provider: String,
    /// Model name.
    pub model: String,
    /// Sampling temperature in thousandths (0 to 2000).
    pub temperature_milli: u32,
    /// Token limit per generation.
    pub max_tokens: u32,
    /// Top-p in thousandths (0 to 1000), if set.
    pub top_p_milli: Option<u32>,
    /// Whether to stream responses.
    pub stream: bool,
    /// Retry policy, if any.
    pub retry: Option<RetryConfig>,
}

/// Settings for a configured HTTP endpoint tool.
#[derive(Debug, Clone, PartialEq)]
pub struct HttpToolConfig {
    pub url: String,
    pub method: String,
    pub headers: Vec<(String, String)>,
    pub auth: Option<String>,
    pub timeout: String,
    pub retry: bool,
}

/// Which kind of storage a filesystem tool uses.
#[derive(Debug, Clone, Copy, PartialEq, Eq, Structural)]
pub enum FileSystemType {
    Local,
    S3,
    GCS,
    Azure,
    SFTP,
}

/// Storage backend settings for a filesystem tool.
#[derive(Debug, Clone, PartialEq)]
pub enum FileSystemBackend {
    Local { base_dir: String },
    S3 { bucket: String, region: String, prefix: Option<String>, credentials: Option<String> },
    GCS { bucket: String, project: Option<String>, prefix: Option<String>, credentials: Option<
        String,
    > },
    Azure { container: String, account: String, prefix: Option<String>, credentials: Option<
        String,
    > },
    SFTP {
        host: String,
        port: u16,
        username: String,
        base_path: Option<String>,
        credentials: Option<String>,
    },
}

/// Settings for a filesystem tool.
#[derive(Debug, Clone, PartialEq)]
pub struct FileSystemToolConfig {
    pub fs_type: FileSystemType,
    pub read_only: bool,
    pub backend: FileSystemBackend,
}

fn dup_opt_string(o: &Option<String>) -> (r: Option<String>)
    ensures
        r == *o,
{
    match o {
        Some(s) => Some(s.clone()),
        None => None,
    }
}

impl FileSystemBackend {
    /// A field-equal copy with a stated contract.
    pub fn duplicate(&self) -> (r: FileSystemBackend)
        ensures
            r == *self,
    {
        match self {
            FileSystemBackend::Local { base_dir } => FileSystemBackend::Local {
                base_dir: base_dir.clone(),
            },
            FileSystemBackend::S3 { bucket, region, prefix, credentials } => FileSystemBackend::S3 {
                bucket: bucket.clone(),
                region: region.clone(),
                prefix: dup_opt_string(prefix),
                credentials: dup_opt_string(credentials),
            },
            FileSystemBackend::GCS { bucket, project, prefix, credentials } => {
                FileSystemBackend::GCS {
                    bucket: bucket.clone(),
                    project: dup_opt_string(project),
                    prefix: dup_opt_string(prefix),
                    credentials: dup_opt_string(credentials),
                }
            },
            FileSystemBackend::Azure { container, account, prefix, credentials } => {
                FileSystemBackend::Azure {
                    container: container.clone(),
                    account: account.clone(),
                    prefix: dup_opt_string(prefix),
                    credentials: dup_opt_string(credentials),
                }
            },
            FileSystemBackend::SFTP { host, port, username, base_path, credentials } => {
                FileSystemBackend::SFTP {
                    host: host.clone(),
                    port: *port,
                    username: username.clone(),
                    base_path: dup_opt_string(base_path),
                    credentials: dup_opt_string(credentials),
                }
            },
        }
    }
}

impl FileSystemToolConfig {
    /// A field-equal copy with a stated contract.
    pub fn duplicate(&self) -> (r: FileSystemToolConfig)
        ensures
            r == *self,
    {
        FileSystemToolConfig {
            fs_type: self.fs_type,
            read_only: self.read_only,
            backend: self.backend.duplicate(),
        }
    }
}

/// Settings for a database tool.
#[derive(Debug, Clone, PartialEq)]
pub struct DatabaseToolConfig {
    pub connection: String,
    pub connection_string: String,
    pub query_type: String,
    pub max_rows: Option<u32>,
}

/// Settings for a vector-search tool.
#[derive(Debug, Clone, PartialEq)]
pub struct VectorSearchToolConfig {
    pub index: String,
    pub top_k: u32,
    /// Similarity threshold in thousandths, if set.
    pub similarity_threshold_milli: Option<u32>,
}

/// One tool declared in the agent's configuration.
#[derive(Debug, Clone, PartialEq)]
pub enum ToolConfig {
    BuiltinHttp { name: String, config: HttpToolConfig },
    BuiltinFilesystem { name: String, config: FileSystemToolConfig },
    BuiltinDatabase { name: String, config: DatabaseToolConfig },
    BuiltinVectorSearch { name: String, config: VectorSearchToolConfig },
    PluginPython {
        name: String,
        module: Option<String>,
        function: Option<String>,
        endpoint: Option<String>,
        timeout: String,
        require_approval: bool,
    },
    Agent { name: String, agent_ref: String, timeout: Option<String>, fallback: Option<String> },
}

impl ToolConfig {
    /// The name the tool is declared under.
    pub open spec fn spec_name(self) -> Seq<char> {
        match self {
            ToolConfig::BuiltinHttp { name, .. } => name@,
            ToolConfig::BuiltinFilesystem { name, .. } => name@,
            ToolConfig::BuiltinDatabase { name, .. } => name@,
            ToolConfig::BuiltinVectorSearch { name, .. } => name@,
            ToolConfig::PluginPython { name, .. } => name@,
            ToolConfig::Agent { name, .. } => name@,
        }
    }
}

/// Conversation memory settings.
#[derive(Debug, Clone, PartialEq)]
pub struct MemoryConfig {
    pub memory_type: String,
    pub connection_string: Option<String>,
    pub namespace: Option<String>,
    pub ttl: String,
    pub max_messages: u32,
    pub summarization: Option<SummarizationConfig>,
}

/// Conversation summarization settings.
#[derive(Debug, Clone, Copy, PartialEq, Eq, Structural)]
pub struct SummarizationConfig {
    pub enabled: bool,
    pub trigger_at: u32,
    pub keep_recent: u32,
}

/// Trace and metric emission settings.
#[derive(Debug, Clone, PartialEq)]
pub struct ObservabilityConfig {
    pub enabled: bool,
    pub trace_all_steps: bool,
    pub export_to: Option<String>,
    pub endpoint: Option<String>,
    /// Sample rate in thousandths (1000 is everything).
    pub sample_rate_milli: u32,
    pub metrics: Vec<String>,
    pub capture_content: bool,
    pub max_content_size: u32,
}

/// Input and output screening settings.
#[derive(Debug, Clone, PartialEq)]
pub struct SecurityConfig {
    pub enabled: bool,
    pub rate_limit: Option<String>,
    pub validate_inputs: bool,
    pub sanitize_outputs: bool,
    pub detect_prompt_injection: bool,
    pub secrets_backend: Option<String>,
    pub allowed_domains: Vec<String>,
    pub blocked_domains: Vec<String>,
}

/// Cost and policy governance settings.
#[derive(Debug, Clone, PartialEq)]
pub struct GovernanceConfig {
    pub enabled: bool,
    /// Cost bound per request in millionths of a dollar, if set.
    pub max_cost_per_request_micros: Option<u64>,
    /// Cost bound per hour in millionths of a dollar, if set.
    pub max_cost_per_hour_micros: Option<u64>,
    pub require_approval_for: Vec<String>,
    pub policies: Vec<String>,
    pub compliance_standards: Vec<String>,
    pub audit_log: Option<AuditLogConfig>,
}

/// Audit log settings.
#[derive(Debug, Clone, PartialEq)]
pub struct AuditLogConfig {
    pub enabled: bool,
    pub destination: String,
    pub path: String,
}

/// Fault-handling settings.
#[derive(Debug, Clone, PartialEq)]
pub struct ResilienceConfig {
    pub enabled: bool,
    pub circuit_breaker: Option<CircuitBreakerConfig>,
    pub timeout: String,
    pub fallback_strategy: Option<String>,
}

/// Circuit breaker settings.
#[derive(Debug, Clone, PartialEq)]
pub struct CircuitBreakerConfig {
    pub enabled: bool,
    pub failure_threshold: u32,
    pub timeout: String,
    pub half_open_timeout: String,
}

/// Response caching settings.
#[derive(Debug, Clone, PartialEq)]
pub struct CachingConfig {
    pub enabled: bool,
    pub backend: String,
    pub ttl: String,
    pub strategy: String,
    /// Similarity threshold in thousandths, if set.
    pub similarity_threshold_milli: Option<u32>,
}

/// Cross-cutting middleware settings.
#[derive(Debug, Clone, PartialEq)]
pub struct MiddlewareConfig {
    pub observability: Option<ObservabilityConfig>,
    pub security: Option<SecurityConfig>,
    pub governance: Option<GovernanceConfig>,
    pub resilience: Option<ResilienceConfig>,
    pub caching: Option<CachingConfig>,
}

impl Default for MiddlewareConfig {
    /// All middleware absent.
    fn default() -> (r: MiddlewareConfig)
        ensures
            r.observability is None,
            r.security is None,
            r.governance is None,
            r.resilience is None,
            r.caching is None,
    {
        MiddlewareConfig {
            observability: None,
            security: None,
            governance: None,
            resilience: None,
            caching: None,
        }
    }
}

/// How the run loop is bounded and which strategy drives it.
#[derive(Debug, Clone, PartialEq)]
pub struct ExecutionConfig {
    pub strategy: String,
    pub max_iterations: u32,
    /// Timeout as duration text, such as "30s" or "500ms".
    pub timeout: String,
    pub parallel_tool_calls: bool,
    pub stop_sequences: Vec<String>,
}

pub(crate) fn default_strategy() -> (r: String)
    ensures
        r@ == "react"@,
{
    String::from_str("react")
}

pub(crate) fn default_max_iterations() -> (r: u32)
    ensures
        r == 10,
{
    10
}

pub(crate) fn default_timeout() -> (r: String)
    ensures
        r@ == "30s"@,
{
    String::from_str("30s")
}

impl Default for ExecutionConfig {
    /// The ReAct strategy, ten iterations, a thirty-second timeout.
    fn default() -> (r: ExecutionConfig)
        ensures
            r.strategy@ == "react"@,
            r.max_iterations == 10,
            r.timeout@ == "30s"@,
            r.parallel_tool_calls == false,
            r.stop_sequences@.len() == 0,
    {
        ExecutionConfig {
            strategy: default_strategy(),
            max_iterations: default_max_iterations(),
            timeout: default_timeout(),
            parallel_tool_calls: false,
            stop_sequences: Vec::new(),
        }
    }
}

/// Multi-tenancy settings.
#[derive(Debug, Clone, PartialEq)]
pub struct TenancyConfig {
    pub tenant_id: String,
    pub isolation_level: String,
    pub resource_quota: Option<ResourceQuota>,
}

/// Per-tenant resource bounds.
#[derive(Debug, Clone, Copy, PartialEq, Eq, Structural)]
pub struct ResourceQuota {
    pub max_requests_per_hour: u32,
    /// Cost bound per hour in millionths of a dollar.
    pub max_cost_per_hour_micros: u64,
}

/// A complete, validated agent configuration.
#[derive(Debug, Clone, PartialEq)]
pub struct AgentConfig {
    pub name: String,
    pub version: String,
    pub description: Option<String>,
    pub metadata: Vec<(String, String)>,
    pub llm: LLMConfig,
    pub tools: Vec<ToolConfig>,
    pub memory: Option<MemoryConfig>,
    pub middleware: Option<MiddlewareConfig>,
    pub execution: ExecutionConfig,
    pub system_prompt: String,
    pub tenancy: Option<TenancyConfig>,
}

/// A node of a workflow: an agent or custom logic.
#[derive(Debug, Clone, PartialEq)]
pub struct WorkflowNode {
    pub id: String,
    pub node_type: String,
    pub agent_config: Option<String>,
    pub description: Option<String>,
    pub timeout: Option<String>,
}

/// Where a conditional edge leads.
#[derive(Debug, Clone, PartialEq)]
pub struct ConditionalTarget {
    pub target_type: String,
    pub logic: String,
}

/// A connection between workflow nodes.
#[derive(Debug, Clone, PartialEq)]
pub enum WorkflowEdge {
    Direct { from: String, to: String },
    Conditional { from: String, to: ConditionalTarget },
}

/// Checkpointing settings for workflow execution.
#[derive(Debug, Clone, PartialEq)]
pub struct CheckpointConfig {
    pub enabled: bool,
    pub interval: String,
}

/// Workflow-level execution settings.
#[derive(Debug, Clone, PartialEq)]
pub struct WorkflowExecutionConfig {
    pub max_execution_time: String,
    pub checkpoint: Option<CheckpointConfig>,
    pub retry_failed_nodes: bool,
    pub max_retries: u32,
}

pub(crate) fn default_workflow_timeout() -> (r: String)
    ensures
        r@ == "300s"@,
{
    String::from_str("300s")
}

pub(crate) fn default_max_retries() -> (r: u32)
    ensures
        r == 2,
{
    2
}

impl Default for WorkflowExecutionConfig {
    /// Five minutes, no checkpointing, two retries.
    fn default() -> (r: WorkflowExecutionConfig)
        ensures
            r.max_execution_time@ == "300s"@,
            r.checkpoint is None,
            r.retry_failed_nodes == false,
            r.max_retries == 2,
    {
        WorkflowExecutionConfig {
            max_execution_time: default_workflow_timeout(),
            checkpoint: None,
            retry_failed_nodes: false,
            max_retries: default_max_retries(),
        }
    }
}

/// A complete workflow configuration.
#[derive(Debug, Clone, PartialEq)]
pub struct WorkflowConfig {
    pub name: String,
    pub version: String,
    pub description: Option<String>,
    pub nodes: Vec<WorkflowNode>,
    pub edges: Vec<WorkflowEdge>,
    pub entry_point: String,
    pub exit_point: String,
    pub config: WorkflowExecutionConfig,
}

/// Configuration file format, told apart by file extension.
#[derive(Debug, Clone, Copy, PartialEq, Eq, Structural)]
pub enum ConfigFormat {
    Yaml,
    Toml,
}

/// ASCII lowercase of one character.
pub open spec fn lower_ascii_char(c: char) -> char {
    if 65 <= c as u32 && c as u32 <= 90 {
        ((c as u32 + 32) as u8) as char
    } else {
        c
    }
}

/// ASCII lowercase of a text.
pub open spec fn lower_ascii(s: Seq<char>) -> Seq<char> {
    s.map(|_i: int, c: char| lower_ascii_char(c))
}

/// Copy of `v` with ASCII letters lowered.
pub fn lower_ascii_chars(v: &Vec<char>) -> (r: Vec<char>)
    ensures
        r@ == lower_ascii(v@),
{
    let mut r: Vec<char> = Vec::new();
    let mut i: usize = 0;
    while i < v.len()
        invariant
            i <= v.len(),
            r@ =~= lower_ascii(v@).take(i as int),
        decreases v.len() - i,
    {
        let c = v[i];
        let u = c as u32;
        if 65 <= u && u <= 90 {
            r.push(((u + 32) as u8) as char);
        } else {
            r.push(c);
        }
        i = i + 1;
        proof {
            assert(r@ =~= lower_ascii(v@).take(i as int));
        }
    }
    proof {
        assert(lower_ascii(v@).take(v@.len() as int) =~= lower_ascii(v@));
    }
    r
}

impl ConfigFormat {
    /// The format a file extension names, after ASCII case folding:
    /// `yaml` and `yml` are YAML, `toml` is TOML, anything else is unknown.
    pub open spec fn spec_from_extension(ext: Seq<char>) -> Option<ConfigFormat> {
        let low = lower_ascii(ext);
        if low == "yaml"@ || low == "yml"@ {
            Some(ConfigFormat::Yaml)
        } else if low == "toml"@ {
            Some(ConfigFormat::Toml)
        } else {
            None
        }
    }

    /// Reads a file extension as a configuration format.
    pub fn from_extension(ext: &str) -> (r: Option<ConfigFormat>)
        ensures
            r == ConfigFormat::spec_from_extension(ext@),
    {
        let low = chars_string(&lower_ascii_chars(&str_chars(ext)));
        if str_eq(low.as_str(), "yaml") || str_eq(low.as_str(), "yml") {
            Some(ConfigFormat::Yaml)
        } else if str_eq(low.as_str(), "toml") {
            Some(ConfigFormat::Toml)
        } else {
            None
        }
    }
}

/// The extension of a path, read lexically: the part of the final component
/// after its last dot, where a leading dot starts no extension.
pub open spec fn extension_of(path: Seq<char>) -> Option<Seq<char>> {
    let comp = match rfind_char(path, '/') {
        None => path,
        Some(i) => path.skip(i + 1),
    };
    match rfind_char(comp, '.') {
        None => None,
        Some(j) => if j == 0 {
            None
        } else {
            Some(comp.skip(j + 1))
        },
    }
}

/// Reads configuration files; the format detection lives here, the file
/// reading and deserialization outside the library.
#[derive(Debug, Clone, Copy, Default)]
pub struct ConfigParser;

impl ConfigParser {
    /// A parser.
    pub fn new() -> ConfigParser {
        ConfigParser
    }

    /// Determines the configuration format of `path` from its extension.
    /// A path without an extension and an unknown extension are rejected.
    pub fn detect_format(&self, path: &str) -> (r: Result<ConfigFormat, String>)
        ensures
            match extension_of(path@) {
                None => r matches Err(m) && m@ == "File has no extension"@,
                Some(ext) => match ConfigFormat::spec_from_extension(ext) {
                    Some(f) => r == Ok::<ConfigFormat, String>(f),
                    None => r matches Err(m) && m@ == "Unsupported file format: "@ + ext,
                },
            },
    {
        let chars = str_chars(path);
        let comp = match rfind_char_at(&chars, '/') {
            None => chars,
            Some(i) => {
                let n = chars.len();
                proof {
                    crate::text::lemma_rfind_char_bound(chars@, '/', i as int);
                }
                let c = sub_chars(&chars, i + 1, n);
                proof {
                    assert(c@ =~= chars@.skip(i + 1));
                }
                c
            },
        };
        let ext_chars = match rfind_char_at(&comp, '.') {
            None => {
                return Err(String::from_str("File has no extension"));
            },
            Some(j) => {
                if j == 0 {
                    return Err(String::from_str("File has no extension"));
                }
                let n = comp.len();
                proof {
                    crate::text::lemma_rfind_char_bound(comp@, '.', j as int);
                }
                let e = sub_chars(&comp, j + 1, n);
                proof {
                    assert(e@ =~= comp@.skip(j + 1));
                }
                e
            },
        };
        let ext = chars_string(&ext_chars);
        match ConfigFormat::from_extension(ext.as_str()) {
            Some(f) => Ok(f),
            None => {
                let mut m = String::from_str("Unsupported file format: ");
                m.append(ext.as_str());
                Err(m)
            },
        }
    }
}

/// Checks a configuration against the engine's rules.
#[derive(Debug, Clone, Copy, Default)]
pub struct ConfigValidator;

/// The strategy names the engine accepts.
pub open spec fn is_known_strategy(s: Seq<char>) -> bool {
    s == "react"@ || s == "chain_of_thought"@ || s == "tree_of_thoughts"@
}

impl ConfigValidator {
    /// A validator.
    pub fn new() -> ConfigValidator {
        ConfigValidator
    }

    /// Checks the model settings: temperature at most 2, a positive token
    /// limit, and top-p at most 1.
    pub fn validate_llm_config(&self, config: &AgentConfig) -> (r: Result<(), String>)
        ensures
            r is Ok <==> config.llm.temperature_milli <= 2000 && config.llm.max_tokens > 0 && (
            config.llm.top_p_milli matches Some(p) ==> p <= 1000),
            r matches Err(m) ==> (m@ == "LLM temperature must be between 0.0 and 2.0"@ || m@
                == "LLM max_tokens must be greater than 0"@ || m@
                == "LLM top_p must be between 0.0 and 1.0"@),
    {
        if config.llm.temperature_milli > 2000 {
            return Err(String::from_str("LLM temperature must be between 0.0 and 2.0"));
        }
        if config.llm.max_tokens == 0 {
            return Err(String::from_str("LLM max_tokens must be greater than 0"));
        }
        match config.llm.top_p_milli {
            Some(p) => {
                if p > 1000 {
                    return Err(String::from_str("LLM top_p must be between 0.0 and 1.0"));
                }
            },
            None => {},
        }
        Ok(())
    }

    /// Checks the execution settings: a positive iteration bound and a known
    /// strategy name.
    pub fn validate_execution_config(&self, config: &AgentConfig) -> (r: Result<(), String>)
        ensures
            r is Ok <==> config.execution.max_iterations > 0 && is_known_strategy(
                config.execution.strategy@,
            ),
            r matches Err(m) ==> (m@ == "Execution max_iterations must be greater than 0"@ || m@
                == "Invalid execution strategy: "@ + config.execution.strategy@
                + ". Must be one of: react, chain_of_thought, tree_of_thoughts"@),
    {
        if config.execution.max_iterations == 0 {
            return Err(String::from_str("Execution max_iterations must be greater than 0"));
        }
        let s = config.execution.strategy.as_str();
        if str_eq(s, "react") || str_eq(s, "chain_of_thought") || str_eq(s, "tree_of_thoughts") {
            Ok(())
        } else {
            let mut m = String::from_str("Invalid execution strategy: ");
            m.append(s);
            m.append(". Must be one of: react, chain_of_thought, tree_of_thoughts");
            Err(m)
        }
    }

    /// Checks the agent name: between 1 and 64 characters.
    pub fn validate_name(&self, config: &AgentConfig) -> (r: Result<(), String>)
        ensures
            r is Ok <==> 1 <= config.name@.len() <= 64,
            r matches Err(m) ==> m@ == "Agent name must be between 1 and 64 characters"@,
    {
        let n = config.name.as_str().unicode_len();
        if 1 <= n && n <= 64 {
            Ok(())
        } else {
            Err(String::from_str("Agent name must be between 1 and 64 characters"))
        }
    }

    /// Checks a whole configuration: the name, the model settings, and the
    /// execution settings, in that order.
    pub fn validate(&self, config: &AgentConfig) -> (r: Result<(), String>)
        ensures
            r is Ok <==> 1 <= config.name@.len() <= 64 && config.llm.temperature_milli <= 2000
                && config.llm.max_tokens > 0 && (config.llm.top_p_milli matches Some(p) ==> p
                <= 1000) && config.execution.max_iterations > 0 && is_known_strategy(
                config.execution.strategy@,
            ),
    {
        match self.validate_name(config) {
            Err(m) => {
                return Err(m);
            },
            Ok(()) => {},
        }
        match self.validate_llm_config(config) {
            Err(m) => {
                return Err(m);
            },
            Ok(()) => {},
        }
        self.validate_execution_config(config)
    }
}

/// Checks a configuration with a fresh validator.
pub fn validate_config(config: &AgentConfig) -> (r: Result<(), String>)
    ensures
        r is Ok <==> 1 <= config.name@.len() <= 64 && config.llm.temperature_milli <= 2000
            && config.llm.max_tokens > 0 && (config.llm.top_p_milli matches Some(p) ==> p <= 1000)
            && config.execution.max_iterations > 0 && is_known_strategy(
            config.execution.strategy@,
        ),
{
    let validator = ConfigValidator::new();
    validator.validate(config)
}

} // verus!
