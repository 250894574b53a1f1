use serde_json::Value;
use siyuan_mcp::catalog::tool_specs;
use siyuan_mcp::error::ErrorKind;
use siyuan_mcp::registry::{arguments_value, parse_schema, schema_object, ToolRegistry};
use siyuan_mcp::request::{BackendCall, FormPart};
use siyuan_mcp::response::text_reply;
use siyuan_mcp::tool::{SiyuanTool, ToolKind};

fn value(text: &str) -> Value {
    serde_json::from_str(text).unwrap()
}

#[test]
fn catalog_has_every_tool_once() {
    let specs = tool_specs();
    assert_eq!(specs.len(), 51);
    for (i, a) in specs.iter().enumerate() {
        for b in specs.iter().skip(i + 1) {
            assert_ne!(a.name, b.name);
        }
    }
}

#[test]
fn catalog_entries_are_well_formed() {
    for spec in tool_specs() {
        assert!(spec.name.starts_with("siyuan_"), "{}", spec.name);
        assert!(spec.endpoint.starts_with("/api/"), "{}", spec.name);
        assert!(!spec.description.is_empty(), "{}", spec.name);
        let schema = parse_schema(spec.schema);
        assert_eq!(schema.get("type"), Some(&Value::String("object".to_string())), "{}", spec.name);
        assert!(schema.get("properties").is_some_and(Value::is_object), "{}", spec.name);
    }
}

#[test]
fn catalog_kinds_are_as_listed() {
    for spec in tool_specs() {
        let expected = match spec.name {
            "siyuan_asset_upload" => ToolKind::AssetUpload,
            "siyuan_file_put" => ToolKind::PutFile,
            "siyuan_file_get" => ToolKind::GetFile,
            _ => ToolKind::Json,
        };
        assert_eq!(spec.kind, expected, "{}", spec.name);
    }
}

#[test]
fn registry_lists_the_catalog_in_order() {
    let registry = ToolRegistry::new();
    let specs = tool_specs();
    let tools = registry.tools();
    assert_eq!(tools.len(), specs.len());
    for (tool, spec) in tools.iter().zip(specs.iter()) {
        assert_eq!(tool.name, spec.name);
        assert_eq!(tool.endpoint, spec.endpoint);
        assert_eq!(tool.kind, spec.kind);
        assert_eq!(tool.description, spec.description);
        assert_eq!(tool.schema, spec.schema);
    }
    assert_eq!(tools[0].name, "siyuan_notebook_ls");
    assert_eq!(tools[50].name, "siyuan_system_current_time");
}

#[test]
fn lookup_finds_every_tool() {
    let registry = ToolRegistry::new();
    for spec in tool_specs() {
        let found = registry.lookup(spec.name).unwrap();
        assert_eq!(found.name, spec.name);
        assert_eq!(found.endpoint, spec.endpoint);
        assert_eq!(found.kind, spec.kind);
        assert_eq!(found.description, spec.description);
        assert_eq!(found.schema, spec.schema);
    }
}

#[test]
fn lookup_of_known_tools() {
    let registry = ToolRegistry::new();
    let sql = registry.lookup("siyuan_sql_query").unwrap();
    assert_eq!(sql.endpoint, "/api/query/sql");
    assert_eq!(sql.kind, ToolKind::Json);
    assert_eq!(sql.description, "Execute SQL query against SiYuan database.");
    let upload = registry.lookup("siyuan_asset_upload").unwrap();
    assert_eq!(upload.endpoint, "/api/asset/upload");
    assert_eq!(upload.kind, ToolKind::AssetUpload);
    let put = registry.lookup("siyuan_file_put").unwrap();
    assert_eq!(put.endpoint, "/api/file/putFile");
    assert_eq!(put.kind, ToolKind::PutFile);
    let get = registry.lookup("siyuan_file_get").unwrap();
    assert_eq!(get.endpoint, "/api/file/getFile");
    assert_eq!(get.kind, ToolKind::GetFile);
}

#[test]
fn lookup_of_an_unknown_tool_names_it() {
    let registry = ToolRegistry::new();
    for name in ["nope", "", "siyuan_sql_quer", "siyuan_sql_query ", "SIYUAN_SQL_QUERY"] {
        let err = registry.lookup(name).unwrap_err();
        assert_eq!(err.kind, ErrorKind::Validation);
        assert_eq!(err.message, format!("unknown tool: {}", name));
    }
}

#[test]
fn lookup_is_repeatable() {
    let registry = ToolRegistry::new();
    for name in ["siyuan_sql_query", "siyuan_file_put", "no_such_tool"] {
        let first = registry.lookup(name).map(|spec| format!("{:?}", spec));
        let second = registry.lookup(name).map(|spec| format!("{:?}", spec));
        assert_eq!(first, second);
    }
    let other = ToolRegistry::new();
    assert_eq!(
        format!("{:?}", registry.lookup("siyuan_block_move").unwrap()),
        format!("{:?}", other.lookup("siyuan_block_move").unwrap())
    );
}

#[test]
fn dispatch_of_an_unknown_tool_fails_before_any_call() {
    let registry = ToolRegistry::new();
    let err = registry.dispatch("siyuan_does_not_exist", value(r#"{"stmt":"SELECT 1"}"#)).unwrap_err();
    assert_eq!(err.kind, ErrorKind::Validation);
    assert_eq!(err.message, "unknown tool: siyuan_does_not_exist");
    let err = registry.dispatch("", Value::Null).unwrap_err();
    assert_eq!(err.kind, ErrorKind::Validation);
    assert_eq!(err.message, "unknown tool: ");
}

#[test]
fn dispatch_looks_at_the_name_before_the_arguments() {
    let registry = ToolRegistry::new();
    let err = registry.dispatch("nope", value(r#""a string""#)).unwrap_err();
    assert_eq!(err.message, "unknown tool: nope");
}

#[test]
fn sql_query_end_to_end() {
    let registry = ToolRegistry::new();
    let call = registry.dispatch("siyuan_sql_query", value(r#"{"stmt": "SELECT 1"}"#)).unwrap();
    assert_eq!(
        call,
        BackendCall::PostJson {
            endpoint: "/api/query/sql".to_string(),
            body: value(r#"{"stmt":"SELECT 1"}"#),
        }
    );
    let backend = r#"{"code":0,"msg":"","data":[{"1":1}]}"#;
    assert_eq!(text_reply(200, backend.to_string()), value(backend));
}

#[test]
fn dispatch_of_a_plain_tool_without_arguments() {
    let registry = ToolRegistry::new();
    let call = registry.dispatch("siyuan_notebook_ls", Value::Null).unwrap();
    assert_eq!(
        call,
        BackendCall::PostJson {
            endpoint: "/api/notebook/lsNotebooks".to_string(),
            body: Value::Object(serde_json::Map::new()),
        }
    );
}

#[test]
fn dispatch_of_a_plain_tool_rejects_a_string() {
    let registry = ToolRegistry::new();
    let err = registry.dispatch("siyuan_sql_query", value(r#""SELECT 1""#)).unwrap_err();
    assert_eq!(err.kind, ErrorKind::Validation);
    assert_eq!(err.message, "arguments must be a JSON object");
}

#[test]
fn dispatch_of_the_upload_tools() {
    let registry = ToolRegistry::new();
    let call = registry
        .dispatch("siyuan_file_put", value(r#"{"path":"/data/d","is_dir":true}"#))
        .unwrap();
    assert_eq!(
        call,
        BackendCall::PostMultipart {
            endpoint: "/api/file/putFile".to_string(),
            parts: vec![
                FormPart::Text { name: "path".to_string(), value: "/data/d".to_string() },
                FormPart::Text { name: "isDir".to_string(), value: "true".to_string() },
            ],
        }
    );
    let err = registry.dispatch("siyuan_file_put", value(r#"{"path":"/data/d"}"#)).unwrap_err();
    assert_eq!(err.kind, ErrorKind::Validation);
    assert_eq!(err.message, "missing or invalid `file_path`");
    let call = registry
        .dispatch("siyuan_asset_upload", value(r#"{"files":["/tmp/x/cat.png"]}"#))
        .unwrap();
    assert_eq!(
        call,
        BackendCall::PostMultipart {
            endpoint: "/api/asset/upload".to_string(),
            parts: vec![
                FormPart::Text { name: "assetsDirPath".to_string(), value: "/assets/".to_string() },
                FormPart::File {
                    name: "file[]".to_string(),
                    path: "/tmp/x/cat.png".to_string(),
                    file_name: "cat.png".to_string(),
                },
            ],
        }
    );
}

#[test]
fn dispatch_of_the_download_tool() {
    let registry = ToolRegistry::new();
    let call = registry.dispatch("siyuan_file_get", value(r#"{"path":"/data/a.md"}"#)).unwrap();
    assert_eq!(
        call,
        BackendCall::PostJsonExpectingFile {
            endpoint: "/api/file/getFile".to_string(),
            body: value(r#"{"path":"/data/a.md"}"#),
        }
    );
}

#[test]
fn tool_of_a_spec_takes_endpoint_and_kind() {
    let registry = ToolRegistry::new();
    let spec = registry.lookup("siyuan_export_md").unwrap();
    let tool = SiyuanTool::new(spec);
    assert_eq!(tool.endpoint, "/api/export/exportMdContent");
    assert_eq!(tool.kind, ToolKind::Json);
}

#[test]
fn parse_schema_reads_an_object() {
    let schema = parse_schema(r#"{"type":"object","required":["stmt"]}"#);
    assert_eq!(Value::Object(schema), value(r#"{"type":"object","required":["stmt"]}"#));
}

#[test]
fn parse_schema_of_anything_else_is_empty() {
    assert!(parse_schema("not json").is_empty());
    assert!(parse_schema("").is_empty());
    assert!(parse_schema("[1,2]").is_empty());
    assert!(parse_schema(r#""object""#).is_empty());
    assert!(parse_schema("null").is_empty());
}

#[test]
fn schema_object_follows_the_parse_result() {
    assert!(schema_object(None).is_empty());
    assert!(schema_object(Some(Value::Bool(true))).is_empty());
    assert_eq!(
        Value::Object(schema_object(Some(value(r#"{"a":1}"#)))),
        value(r#"{"a":1}"#)
    );
}

#[test]
fn arguments_value_is_the_object_or_null() {
    assert_eq!(arguments_value(None), Value::Null);
    assert_eq!(arguments_value(Some(serde_json::Map::new())), Value::Object(serde_json::Map::new()));
    let mut members = serde_json::Map::new();
    members.insert("stmt".to_string(), Value::String("SELECT 1".to_string()));
    assert_eq!(arguments_value(Some(members)), value(r#"{"stmt":"SELECT 1"}"#));
}
