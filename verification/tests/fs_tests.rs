//! The filesystem tool: sandbox resolution and dispatch over an in-memory
//! backend, and the HTTP method parser.

use std::cell::RefCell;
use std::collections::HashMap;

use agent_core::fs::{
    FileEntry, FileMetadata, FileSystemBackend, FileSystemTool, LocalBackend, S3Backend, S3Config,
};
use agent_core::http::{join_endpoint_url, parse_method, HttpMethod};
use agent_core::tools::{Tool, ToolError, ToolInput};

/// A test backend over a name-to-content map, honouring a sandbox policy.
struct MemoryBackend {
    policy: LocalBackend,
    files: RefCell<HashMap<String, String>>,
}

impl MemoryBackend {
    fn sandboxed(base: &str) -> MemoryBackend {
        MemoryBackend {
            policy: LocalBackend::with_sandbox(base.to_string(), false),
            files: RefCell::new(HashMap::new()),
        }
    }
}

impl FileSystemBackend for MemoryBackend {
    fn read(&self, path: &str) -> Result<String, ToolError> {
        let resolved = self.policy.resolve_path(path)?;
        match self.files.borrow().get(&resolved) {
            Some(content) => Ok(content.clone()),
            None => Err(ToolError::Filesystem(format!("no such file: {}", resolved))),
        }
    }

    fn write(&self, path: &str, content: &str) -> Result<(), ToolError> {
        if self.policy.is_read_only() {
            return Err(ToolError::PermissionDenied(
                "Write operation not allowed on read-only filesystem".to_string(),
            ));
        }
        let resolved = self.policy.resolve_path(path)?;
        self.files.borrow_mut().insert(resolved, content.to_string());
        Ok(())
    }

    fn list(&self, path: &str) -> Result<Vec<FileEntry>, ToolError> {
        let _resolved = self.policy.resolve_path(path)?;
        let files = self.files.borrow();
        let mut names: Vec<&String> = files.keys().collect();
        names.sort();
        Ok(names
            .into_iter()
            .map(|name| FileEntry {
                name: name.clone(),
                path: name.clone(),
                is_directory: false,
                size: Some(files[name].len() as u64),
                modified_ms: None,
            })
            .collect())
    }

    fn delete(&self, path: &str) -> Result<(), ToolError> {
        if self.policy.is_read_only() {
            return Err(ToolError::PermissionDenied(
                "Delete operation not allowed on read-only filesystem".to_string(),
            ));
        }
        let resolved = self.policy.resolve_path(path)?;
        match self.files.borrow_mut().remove(&resolved) {
            Some(_) => Ok(()),
            None => Err(ToolError::Filesystem(format!("no such file: {}", resolved))),
        }
    }

    fn path_exists(&self, path: &str) -> Result<bool, ToolError> {
        let resolved = self.policy.resolve_path(path)?;
        Ok(self.files.borrow().contains_key(&resolved))
    }

    fn metadata(&self, path: &str) -> Result<FileMetadata, ToolError> {
        let resolved = self.policy.resolve_path(path)?;
        match self.files.borrow().get(&resolved) {
            Some(content) => Ok(FileMetadata {
                size: content.len() as u64,
                is_directory: false,
                created_ms: None,
                modified_ms: None,
                accessed_ms: None,
            }),
            None => Err(ToolError::Filesystem("missing".to_string())),
        }
    }

    fn backend_type(&self) -> String {
        "memory".to_string()
    }

    fn is_read_only(&self) -> bool {
        self.policy.is_read_only()
    }
}

fn op_input(operation: &str, path: &str) -> ToolInput {
    ToolInput::Structured(format!(
        "{{\"operation\":\"{}\",\"path\":\"{}\"}}",
        operation, path
    ))
}

fn write_input(path: &str, content: &str) -> ToolInput {
    ToolInput::Structured(format!(
        "{{\"operation\":\"write\",\"path\":\"{}\",\"content\":\"{}\"}}",
        path, content
    ))
}

#[test]
fn test_filesystem_tool_name() {
    let tool = FileSystemTool::new("filesystem".to_string(), MemoryBackend::sandboxed("/sandbox"));
    assert_eq!(tool.name(), "filesystem");
}

#[test]
fn test_filesystem_tool_description() {
    let tool = FileSystemTool::new("filesystem".to_string(), MemoryBackend::sandboxed("/sandbox"));
    assert!(tool.description().contains("Read"));
}

#[test]
fn test_write_and_read_file() {
    let tool = FileSystemTool::new("filesystem".to_string(), MemoryBackend::sandboxed("/sandbox"));

    let write_result = tool.execute(&write_input("test.txt", "Hello, World!"));
    assert!(write_result.is_ok());
    assert!(write_result.unwrap().success);

    let read_result = tool.execute(&op_input("read", "test.txt"));
    assert!(read_result.is_ok());
    let read_output = read_result.unwrap();
    assert!(read_output.success);
    assert_eq!(read_output.content, "Hello, World!");
}

#[test]
fn test_list_directory() {
    let tool = FileSystemTool::new("filesystem".to_string(), MemoryBackend::sandboxed("/sandbox"));
    tool.execute(&write_input("file1.txt", "content1")).unwrap();
    tool.execute(&write_input("file2.txt", "content2")).unwrap();

    let result = tool.execute(&op_input("list", "."));
    assert!(result.is_ok());
    let output = result.unwrap();
    assert!(output.success);
    assert!(output.content.contains("file1.txt"));
    assert!(output.content.contains("file2.txt"));
}

#[test]
fn test_delete_file() {
    let tool = FileSystemTool::new("filesystem".to_string(), MemoryBackend::sandboxed("/sandbox"));
    tool.execute(&write_input("to_delete.txt", "content")).unwrap();

    let result = tool.execute(&op_input("delete", "to_delete.txt"));
    assert!(result.is_ok());

    let read_result = tool.execute(&op_input("read", "to_delete.txt"));
    assert!(read_result.is_err());
}

#[test]
fn test_read_nonexistent_file() {
    let tool = FileSystemTool::new("filesystem".to_string(), MemoryBackend::sandboxed("/sandbox"));
    let result = tool.execute(&op_input("read", "nonexistent.txt"));
    assert!(result.is_err());
}

#[test]
fn test_invalid_operation() {
    let tool = FileSystemTool::new("filesystem".to_string(), MemoryBackend::sandboxed("/sandbox"));
    let result = tool.execute(&op_input("invalid", "/tmp/test.txt"));
    assert!(result.is_err());
}

#[test]
fn test_local_sandboxing() {
    let backend = MemoryBackend::sandboxed("/sandbox");
    backend.write("inside.txt", "safe").unwrap();

    // A traversal outside the root fails with a permission error and the
    // store holds nothing outside the root.
    let escape = backend.read("../../etc/passwd");
    match escape {
        Err(ToolError::PermissionDenied(m)) => {
            assert_eq!(m, "Path outside allowed directory")
        },
        other => panic!("expected permission denial, got {:?}", other),
    }
    let escape_write = backend.write("../../tmp/evil", "bad");
    assert!(matches!(escape_write, Err(ToolError::PermissionDenied(_))));
    let files = backend.files.borrow();
    assert_eq!(files.len(), 1);
    assert!(files.keys().all(|k| k.starts_with("/sandbox/")));
}

#[test]
fn test_local_read_only() {
    let backend = MemoryBackend {
        policy: LocalBackend::with_sandbox("/sandbox".to_string(), true),
        files: RefCell::new(HashMap::new()),
    };
    let result = backend.write("test.txt", "content");
    assert!(matches!(result, Err(ToolError::PermissionDenied(_))));
}

#[test]
fn resolve_path_decides_lexically() {
    let policy = LocalBackend::with_sandbox("/sandbox".to_string(), false);

    assert_eq!(policy.resolve_path("notes.txt").unwrap(), "/sandbox/notes.txt");
    assert_eq!(policy.resolve_path("a/./b.txt").unwrap(), "/sandbox/a/./b.txt");
    assert_eq!(policy.resolve_path("a/../b.txt").unwrap(), "/sandbox/a/../b.txt");
    assert!(policy.resolve_path("..").is_err());
    assert!(policy.resolve_path("a/../../b").is_err());
    assert_eq!(
        policy.resolve_path("/sandbox/inner.txt").unwrap(),
        "/sandbox/inner.txt"
    );
    assert_eq!(policy.resolve_path("/sandbox").unwrap(), "/sandbox");
    assert!(policy.resolve_path("/elsewhere/inner.txt").is_err());
    assert!(policy.resolve_path("/sandbox/../etc/passwd").is_err());

    let open = LocalBackend::new();
    assert_eq!(open.resolve_path("../anything").unwrap(), "../anything");
}

#[test]
fn sibling_of_the_root_is_rejected() {
    // A sibling directory whose name merely extends the root's must not
    // pass the absolute-path rule.
    let policy = LocalBackend::with_sandbox("/a".to_string(), false);
    match policy.resolve_path("/ab") {
        Err(ToolError::PermissionDenied(m)) => {
            assert_eq!(m, "Path outside allowed directory")
        },
        other => panic!("expected permission denial, got {:?}", other),
    }
    assert!(policy.resolve_path("/ab/file.txt").is_err());
    assert_eq!(policy.resolve_path("/a/file.txt").unwrap(), "/a/file.txt");
}

#[test]
fn fs_tool_rejections_are_exact() {
    let tool = FileSystemTool::new("filesystem".to_string(), MemoryBackend::sandboxed("/sandbox"));

    match tool.execute(&op_input("move", "a.txt")) {
        Err(ToolError::InvalidInput(m)) => {
            assert_eq!(m, "Unknown operation: move. Use read, write, list, or delete.")
        },
        other => panic!("expected invalid input, got {:?}", other),
    }
    match tool.execute(&op_input("write", "a.txt")) {
        Err(ToolError::InvalidInput(m)) => assert_eq!(m, "Missing content for write"),
        other => panic!("expected invalid input, got {:?}", other),
    }
}

#[test]
fn fs_tool_confirmations_are_exact() {
    let tool = FileSystemTool::new("filesystem".to_string(), MemoryBackend::sandboxed("/sandbox"));
    let wrote = tool.execute(&write_input("a.txt", "hello")).unwrap();
    assert_eq!(wrote.content, "Successfully wrote 5 bytes to a.txt");
    assert_eq!(
        wrote.metadata.as_deref(),
        Some("{\"operation\":\"write\",\"path\":\"a.txt\",\"size\":5,\"backend\":\"memory\"}")
    );
    let read = tool.execute(&op_input("read", "a.txt")).unwrap();
    assert_eq!(
        read.metadata.as_deref(),
        Some("{\"operation\":\"read\",\"path\":\"a.txt\",\"size\":5,\"backend\":\"memory\"}")
    );
    let listed = tool.execute(&op_input("list", ".")).unwrap();
    assert_eq!(
        listed.metadata.as_deref(),
        Some("{\"operation\":\"list\",\"path\":\".\",\"count\":1,\"backend\":\"memory\"}")
    );
    let deleted = tool.execute(&op_input("delete", "a.txt")).unwrap();
    assert_eq!(deleted.content, "Successfully deleted a.txt");
    assert_eq!(
        deleted.metadata.as_deref(),
        Some("{\"operation\":\"delete\",\"path\":\"a.txt\",\"backend\":\"memory\"}")
    );
}

#[test]
fn endpoint_urls_join_with_one_slash() {
    assert_eq!(join_endpoint_url("https://api.test", "v1"), "https://api.test/v1");
    assert_eq!(join_endpoint_url("https://api.test/", "v1"), "https://api.test/v1");
    assert_eq!(join_endpoint_url("https://api.test", "/v1"), "https://api.test/v1");
    assert_eq!(join_endpoint_url("https://api.test/", "/v1"), "https://api.test//v1");
    assert_eq!(join_endpoint_url("", ""), "/");
}

#[test]
fn remote_backends_are_stubs() {
    let backend = S3Backend::new(
        S3Config { bucket: "b".to_string(), region: "r".to_string(), prefix: None },
        false,
    );
    assert!(matches!(
        backend.read("x"),
        Err(ToolError::NotImplemented(_))
    ));
    assert_eq!(backend.backend_type(), "s3");
    assert!(!backend.is_read_only());
}

#[test]
fn test_parse_method() {
    assert!(parse_method("GET").is_ok());
    assert!(parse_method("post").is_ok());
    assert!(parse_method("DELETE").is_ok());
    assert!(parse_method("INVALID").is_err());
}

#[test]
fn parse_method_folds_case_and_names_unknowns() {
    assert_eq!(parse_method("patch").unwrap(), HttpMethod::Patch);
    assert_eq!(parse_method("Options").unwrap(), HttpMethod::Options);
    match parse_method("FETCH") {
        Err(ToolError::InvalidInput(m)) => assert_eq!(m, "Unsupported HTTP method: FETCH"),
        other => panic!("expected invalid input, got {:?}", other),
    }
    assert_eq!(HttpMethod::Get.as_text(), "GET");
}

#[test]
fn prepare_http_request_decides_method_and_url() {
    let ok = ToolInput::Structured(
        "{\"method\":\"get\",\"url\":\"https://x.test\"}".to_string(),
    );
    let (method, url) = agent_core::http::prepare_http_request(&ok).unwrap();
    assert_eq!(method, HttpMethod::Get);
    assert_eq!(url, "https://x.test");

    let no_method = ToolInput::Structured("{\"url\":\"https://x.test\"}".to_string());
    match agent_core::http::prepare_http_request(&no_method) {
        Err(ToolError::InvalidInput(m)) => assert_eq!(m, "Missing 'method' field"),
        other => panic!("expected invalid input, got {:?}", other),
    }

    let no_url = ToolInput::Structured("{\"method\":\"get\"}".to_string());
    match agent_core::http::prepare_http_request(&no_url) {
        Err(ToolError::InvalidInput(m)) => assert_eq!(m, "Missing 'url' field"),
        other => panic!("expected invalid input, got {:?}", other),
    }

    let bad_method = ToolInput::Structured(
        "{\"method\":\"fly\",\"url\":\"https://x.test\"}".to_string(),
    );
    match agent_core::http::prepare_http_request(&bad_method) {
        Err(ToolError::InvalidInput(m)) => assert_eq!(m, "Unsupported HTTP method: fly"),
        other => panic!("expected invalid input, got {:?}", other),
    }
}
