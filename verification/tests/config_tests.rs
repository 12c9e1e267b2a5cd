//! Configuration format detection and validation.

use agent_core::config::{
    AgentConfig, ConfigFormat, ConfigParser, ConfigValidator, ExecutionConfig, LLMConfig,
    validate_config,
};

fn create_minimal_config() -> AgentConfig {
    AgentConfig {
        name: "test_agent".to_string(),
        version: "1.0.0".to_string(),
        description: None,
        metadata: Vec::new(),
        llm: LLMConfig {
            provider: "anthropic".to_string(),
            model: "m-3-5-sonnet-20241022".to_string(),
            temperature_milli: 700,
            max_tokens: 4096,
            top_p_milli: None,
            stream: true,
            retry: None,
        },
        tools: Vec::new(),
        memory: None,
        middleware: None,
        execution: ExecutionConfig::default(),
        system_prompt: "You are a helpful assistant.".to_string(),
        tenancy: None,
    }
}

#[test]
fn test_detect_format() {
    assert!(matches!(
        ConfigFormat::from_extension("yaml"),
        Some(ConfigFormat::Yaml)
    ));
    assert!(matches!(
        ConfigFormat::from_extension("yml"),
        Some(ConfigFormat::Yaml)
    ));
    assert!(matches!(
        ConfigFormat::from_extension("toml"),
        Some(ConfigFormat::Toml)
    ));
    assert!(ConfigFormat::from_extension("json").is_none());
}

#[test]
fn detect_format_reads_paths() {
    let parser = ConfigParser::new();
    assert_eq!(parser.detect_format("agents/helper.yaml"), Ok(ConfigFormat::Yaml));
    assert_eq!(parser.detect_format("helper.YML"), Ok(ConfigFormat::Yaml));
    assert_eq!(parser.detect_format("/etc/agent.toml"), Ok(ConfigFormat::Toml));
    assert_eq!(
        parser.detect_format("no_extension"),
        Err("File has no extension".to_string())
    );
    assert_eq!(
        parser.detect_format("dir.yaml/hidden"),
        Err("File has no extension".to_string())
    );
    assert_eq!(
        parser.detect_format("agent.json"),
        Err("Unsupported file format: json".to_string())
    );
}

#[test]
fn test_valid_config() {
    let config = create_minimal_config();
    let validator = ConfigValidator::new();
    assert!(validator.validate(&config).is_ok());
}

#[test]
fn test_invalid_temperature() {
    let mut config = create_minimal_config();
    config.llm.temperature_milli = 3_000;

    let validator = ConfigValidator::new();
    assert!(validator.validate(&config).is_err());
}

#[test]
fn test_invalid_max_tokens() {
    let mut config = create_minimal_config();
    config.llm.max_tokens = 0;

    let validator = ConfigValidator::new();
    assert!(validator.validate(&config).is_err());
}

#[test]
fn invalid_strategy_is_rejected() {
    let mut config = create_minimal_config();
    config.execution.strategy = "guesswork".to_string();
    assert_eq!(
        validate_config(&config),
        Err(
            "Invalid execution strategy: guesswork. Must be one of: react, chain_of_thought, tree_of_thoughts"
                .to_string()
        )
    );
}

#[test]
fn zero_iterations_is_rejected() {
    let mut config = create_minimal_config();
    config.execution.max_iterations = 0;
    assert_eq!(
        validate_config(&config),
        Err("Execution max_iterations must be greater than 0".to_string())
    );
}

#[test]
fn empty_name_is_rejected() {
    let mut config = create_minimal_config();
    config.name = String::new();
    assert!(validate_config(&config).is_err());
}

#[test]
fn top_p_out_of_range_is_rejected() {
    let mut config = create_minimal_config();
    config.llm.top_p_milli = Some(1_500);
    assert_eq!(
        validate_config(&config),
        Err("LLM top_p must be between 0.0 and 1.0".to_string())
    );
}

#[test]
fn execution_defaults() {
    let execution = ExecutionConfig::default();
    assert_eq!(execution.strategy, "react");
    assert_eq!(execution.max_iterations, 10);
    assert_eq!(execution.timeout, "30s");
    assert!(!execution.parallel_tool_calls);
    assert!(execution.stop_sequences.is_empty());
}
