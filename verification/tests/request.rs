use serde_json::Value;
use siyuan_mcp::error::ErrorKind;
use siyuan_mcp::request::{BackendCall, FormPart};
use siyuan_mcp::tool::{SiyuanTool, ToolKind};

fn value(text: &str) -> Value {
    serde_json::from_str(text).unwrap()
}

fn tool(kind: ToolKind) -> SiyuanTool {
    SiyuanTool { endpoint: "/api/test/endpoint", kind }
}

fn text_part(name: &str, value: &str) -> FormPart {
    FormPart::Text { name: name.to_string(), value: value.to_string() }
}

fn file_part(name: &str, path: &str, file_name: &str) -> FormPart {
    FormPart::File {
        name: name.to_string(),
        path: path.to_string(),
        file_name: file_name.to_string(),
    }
}

fn multipart(parts: Vec<FormPart>) -> BackendCall {
    BackendCall::PostMultipart { endpoint: "/api/test/endpoint".to_string(), parts }
}

fn validation_message(kind: ToolKind, args: &str) -> String {
    let err = tool(kind).handle(value(args)).unwrap_err();
    assert_eq!(err.kind, ErrorKind::Validation);
    err.message
}

#[test]
fn plain_json_null_and_empty_object_give_the_same_body() {
    let from_null = tool(ToolKind::Json).handle(Value::Null).unwrap();
    let from_empty = tool(ToolKind::Json).handle(value("{}")).unwrap();
    assert_eq!(from_null, from_empty);
    assert_eq!(
        from_null,
        BackendCall::PostJson {
            endpoint: "/api/test/endpoint".to_string(),
            body: Value::Object(serde_json::Map::new()),
        }
    );
}

#[test]
fn plain_json_forwards_the_object_verbatim() {
    let args = value(r#"{"notebook":"20210817205410-2kvfpfn","conf":{"name":"x","sort":[3,2,1]},"n":-0.5}"#);
    let call = tool(ToolKind::Json).handle(args.clone()).unwrap();
    assert_eq!(
        call,
        BackendCall::PostJson { endpoint: "/api/test/endpoint".to_string(), body: args }
    );
}

#[test]
fn plain_json_rejects_a_string() {
    assert_eq!(validation_message(ToolKind::Json, r#""a string""#), "arguments must be a JSON object");
}

#[test]
fn every_kind_rejects_arguments_that_are_no_object() {
    for kind in [ToolKind::Json, ToolKind::AssetUpload, ToolKind::PutFile, ToolKind::GetFile] {
        for args in [r#""a string""#, "[]", "1", "true"] {
            assert_eq!(validation_message(kind, args), "arguments must be a JSON object");
        }
    }
}

#[test]
fn file_part_names_the_file_after_its_path() {
    assert_eq!(
        SiyuanTool::file_part("file", "/home/me/notes/today.md".to_string()),
        file_part("file", "/home/me/notes/today.md", "today.md")
    );
    assert_eq!(
        SiyuanTool::file_part("file[]", "cat.png".to_string()),
        file_part("file[]", "cat.png", "cat.png")
    );
}

#[test]
fn file_part_falls_back_to_a_fixed_name() {
    assert_eq!(SiyuanTool::file_part("file", "/".to_string()), file_part("file", "/", "file"));
    assert_eq!(SiyuanTool::file_part("file", "..".to_string()), file_part("file", "..", "file"));
    assert_eq!(SiyuanTool::file_part("file", "".to_string()), file_part("file", "", "file"));
}

#[test]
fn asset_upload_defaults_the_directory() {
    let call =
        tool(ToolKind::AssetUpload).handle(value(r#"{"files":["/tmp/a.png"]}"#)).unwrap();
    assert_eq!(
        call,
        multipart(vec![
            text_part("assetsDirPath", "/assets/"),
            file_part("file[]", "/tmp/a.png", "a.png"),
        ])
    );
}

#[test]
fn asset_upload_sends_one_part_for_each_file_in_order() {
    let call = tool(ToolKind::AssetUpload)
        .handle(value(
            r#"{"assets_dir_path":"/assets/sub/","files":["/tmp/b.png","rel/a.png","/tmp/b.png/"]}"#,
        ))
        .unwrap();
    assert_eq!(
        call,
        multipart(vec![
            text_part("assetsDirPath", "/assets/sub/"),
            file_part("file[]", "/tmp/b.png", "b.png"),
            file_part("file[]", "rel/a.png", "a.png"),
            file_part("file[]", "/tmp/b.png/", "b.png"),
        ])
    );
}

#[test]
fn asset_upload_without_files_sends_the_directory_only() {
    let call = tool(ToolKind::AssetUpload).handle(value(r#"{"files":[]}"#)).unwrap();
    assert_eq!(call, multipart(vec![text_part("assetsDirPath", "/assets/")]));
}

#[test]
fn asset_upload_ignores_a_directory_that_is_no_string() {
    let call = tool(ToolKind::AssetUpload)
        .handle(value(r#"{"assets_dir_path":7,"files":[]}"#))
        .unwrap();
    assert_eq!(call, multipart(vec![text_part("assetsDirPath", "/assets/")]));
}

#[test]
fn asset_upload_rejects_an_entry_that_is_no_string() {
    assert_eq!(
        validation_message(ToolKind::AssetUpload, r#"{"files":[123]}"#),
        "invalid `files` entry"
    );
    assert_eq!(
        validation_message(ToolKind::AssetUpload, r#"{"files":["/tmp/a.png",null]}"#),
        "invalid `files` entry"
    );
}

#[test]
fn asset_upload_rejects_missing_files() {
    assert_eq!(validation_message(ToolKind::AssetUpload, "{}"), "missing or invalid `files`");
    assert_eq!(validation_message(ToolKind::AssetUpload, "null"), "missing or invalid `files`");
    assert_eq!(
        validation_message(ToolKind::AssetUpload, r#"{"files":"/tmp/a.png"}"#),
        "missing or invalid `files`"
    );
}

#[test]
fn put_file_directory_needs_no_file() {
    let call = tool(ToolKind::PutFile)
        .handle(value(r#"{"path":"/data/new-dir","is_dir":true}"#))
        .unwrap();
    assert_eq!(
        call,
        multipart(vec![text_part("path", "/data/new-dir"), text_part("isDir", "true")])
    );
}

#[test]
fn put_file_directory_ignores_a_file_path() {
    let call = tool(ToolKind::PutFile)
        .handle(value(r#"{"path":"/data/new-dir","is_dir":true,"file_path":"/tmp/a.txt"}"#))
        .unwrap();
    assert_eq!(
        call,
        multipart(vec![text_part("path", "/data/new-dir"), text_part("isDir", "true")])
    );
}

#[test]
fn put_file_without_file_path_is_rejected() {
    assert_eq!(
        validation_message(ToolKind::PutFile, r#"{"path":"/data/a.txt"}"#),
        "missing or invalid `file_path`"
    );
    assert_eq!(
        validation_message(ToolKind::PutFile, r#"{"path":"/data/a.txt","is_dir":false}"#),
        "missing or invalid `file_path`"
    );
    assert_eq!(
        validation_message(ToolKind::PutFile, r#"{"path":"/data/a.txt","file_path":17}"#),
        "missing or invalid `file_path`"
    );
}

#[test]
fn put_file_without_path_is_rejected() {
    assert_eq!(validation_message(ToolKind::PutFile, "{}"), "missing or invalid `path`");
    assert_eq!(validation_message(ToolKind::PutFile, "null"), "missing or invalid `path`");
    assert_eq!(
        validation_message(ToolKind::PutFile, r#"{"is_dir":true}"#),
        "missing or invalid `path`"
    );
    assert_eq!(
        validation_message(ToolKind::PutFile, r#"{"path":5,"file_path":"/tmp/a.txt"}"#),
        "missing or invalid `path`"
    );
}

#[test]
fn put_file_attaches_the_local_file() {
    let call = tool(ToolKind::PutFile)
        .handle(value(r#"{"path":"/data/a.txt","file_path":"/tmp/upload/a.txt"}"#))
        .unwrap();
    assert_eq!(
        call,
        multipart(vec![
            text_part("path", "/data/a.txt"),
            file_part("file", "/tmp/upload/a.txt", "a.txt"),
        ])
    );
}

#[test]
fn put_file_sends_flag_and_time_as_text() {
    let call = tool(ToolKind::PutFile)
        .handle(value(
            r#"{"path":"/data/a.txt","is_dir":false,"mod_time":1700000000,"file_path":"a.txt"}"#,
        ))
        .unwrap();
    assert_eq!(
        call,
        multipart(vec![
            text_part("path", "/data/a.txt"),
            text_part("isDir", "false"),
            text_part("modTime", "1700000000"),
            file_part("file", "a.txt", "a.txt"),
        ])
    );
}

#[test]
fn put_file_directory_with_time() {
    let call = tool(ToolKind::PutFile)
        .handle(value(r#"{"path":"/data/d","is_dir":true,"mod_time":0}"#))
        .unwrap();
    assert_eq!(
        call,
        multipart(vec![
            text_part("path", "/data/d"),
            text_part("isDir", "true"),
            text_part("modTime", "0"),
        ])
    );
}

#[test]
fn put_file_ignores_flag_and_time_of_another_type() {
    let call = tool(ToolKind::PutFile)
        .handle(value(
            r#"{"path":"/data/a.txt","is_dir":"true","mod_time":-5,"file_path":"/tmp/a.txt"}"#,
        ))
        .unwrap();
    assert_eq!(
        call,
        multipart(vec![
            text_part("path", "/data/a.txt"),
            file_part("file", "/tmp/a.txt", "a.txt"),
        ])
    );
}

#[test]
fn get_file_sends_the_path_alone() {
    let call = tool(ToolKind::GetFile)
        .handle(value(r#"{"path":"/data/assets/a.png","extra":1}"#))
        .unwrap();
    assert_eq!(
        call,
        BackendCall::PostJsonExpectingFile {
            endpoint: "/api/test/endpoint".to_string(),
            body: value(r#"{"path":"/data/assets/a.png"}"#),
        }
    );
}

#[test]
fn get_file_without_path_is_rejected() {
    assert_eq!(validation_message(ToolKind::GetFile, "{}"), "missing or invalid `path`");
    assert_eq!(validation_message(ToolKind::GetFile, "null"), "missing or invalid `path`");
    assert_eq!(
        validation_message(ToolKind::GetFile, r#"{"path":["/data"]}"#),
        "missing or invalid `path`"
    );
}

#[test]
fn handlers_agree_with_handle() {
    let args = r#"{"path":"/data/a.txt","file_path":"/tmp/a.txt","files":["/tmp/a.txt"]}"#;
    assert_eq!(
        tool(ToolKind::AssetUpload).handle_asset_upload(value(args)),
        tool(ToolKind::AssetUpload).handle(value(args))
    );
    assert_eq!(
        tool(ToolKind::PutFile).handle_put_file(value(args)),
        tool(ToolKind::PutFile).handle(value(args))
    );
    assert_eq!(
        tool(ToolKind::GetFile).handle_get_file(value(args)),
        tool(ToolKind::GetFile).handle(value(args))
    );
}
