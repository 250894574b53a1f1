//! The catalog: every tool of the gateway with its endpoint, its kind, a
//! description for callers and the schema of its arguments.

use crate::tool::{ToolKind, ToolSpec};
use vstd::prelude::*;

verus! {

pub const SCHEMA_EMPTY: &'static str =
    r#"{"type":"object","properties":{},"additionalProperties":false}"#;

pub const SCHEMA_NOTEBOOK_ID: &'static str =
    r#"{"type":"object","properties":{"notebook":{"type":"string","description":"Notebook ID"}},"required":["notebook"],"additionalProperties":true}"#;

pub const SCHEMA_NOTEBOOK_ID_NAME: &'static str =
    r#"{"type":"object","properties":{"notebook":{"type":"string","description":"Notebook ID"},"name":{"type":"string","description":"Notebook name"}},"required":["notebook","name"],"additionalProperties":true}"#;

pub const SCHEMA_NOTEBOOK_CREATE: &'static str =
    r#"{"type":"object","properties":{"name":{"type":"string","description":"Notebook name"}},"required":["name"],"additionalProperties":true}"#;

pub const SCHEMA_NOTEBOOK_CONF: &'static str =
    r#"{"type":"object","properties":{"notebook":{"type":"string","description":"Notebook ID"},"conf":{"type":"object","description":"Notebook config object"}},"required":["notebook","conf"],"additionalProperties":true}"#;

pub const SCHEMA_DOC_CREATE_MD: &'static str =
    r#"{"type":"object","properties":{"notebook":{"type":"string","description":"Notebook ID"},"path":{"type":"string","description":"Document path (hpath)"},"markdown":{"type":"string","description":"GFM markdown content"}},"required":["notebook","path","markdown"],"additionalProperties":true}"#;

pub const SCHEMA_DOC_RENAME: &'static str =
    r#"{"type":"object","properties":{"notebook":{"type":"string","description":"Notebook ID"},"path":{"type":"string","description":"Document path"},"title":{"type":"string","description":"New document title"}},"required":["notebook","path","title"],"additionalProperties":true}"#;

pub const SCHEMA_DOC_RENAME_BY_ID: &'static str =
    r#"{"type":"object","properties":{"id":{"type":"string","description":"Document ID"},"title":{"type":"string","description":"New document title"}},"required":["id","title"],"additionalProperties":true}"#;

pub const SCHEMA_DOC_REMOVE: &'static str =
    r#"{"type":"object","properties":{"notebook":{"type":"string","description":"Notebook ID"},"path":{"type":"string","description":"Document path"}},"required":["notebook","path"],"additionalProperties":true}"#;

pub const SCHEMA_ID_ONLY: &'static str =
    r#"{"type":"object","properties":{"id":{"type":"string","description":"Block or document ID"}},"required":["id"],"additionalProperties":true}"#;

pub const SCHEMA_DOC_MOVE: &'static str =
    r#"{"type":"object","properties":{"fromPaths":{"type":"array","items":{"type":"string"},"description":"Source document paths"},"toNotebook":{"type":"string","description":"Target notebook ID"},"toPath":{"type":"string","description":"Target path"}},"required":["fromPaths","toNotebook","toPath"],"additionalProperties":true}"#;

pub const SCHEMA_DOC_MOVE_BY_ID: &'static str =
    r#"{"type":"object","properties":{"fromIDs":{"type":"array","items":{"type":"string"},"description":"Source document IDs"},"toID":{"type":"string","description":"Target parent doc ID or notebook ID"}},"required":["fromIDs","toID"],"additionalProperties":true}"#;

pub const SCHEMA_GET_HPATH_BY_PATH: &'static str =
    r#"{"type":"object","properties":{"notebook":{"type":"string","description":"Notebook ID"},"path":{"type":"string","description":"Document path"}},"required":["notebook","path"],"additionalProperties":true}"#;

pub const SCHEMA_GET_IDS_BY_HPATH: &'static str =
    r#"{"type":"object","properties":{"path":{"type":"string","description":"Human-readable path"},"notebook":{"type":"string","description":"Notebook ID"}},"required":["path","notebook"],"additionalProperties":true}"#;

pub const SCHEMA_BLOCK_INSERT: &'static str =
    r#"{"type":"object","properties":{"dataType":{"type":"string","description":"markdown or dom"},"data":{"type":"string","description":"Content to insert"},"nextID":{"type":"string","description":"Next block ID"},"previousID":{"type":"string","description":"Previous block ID"},"parentID":{"type":"string","description":"Parent block ID"}},"required":["dataType","data"],"additionalProperties":true}"#;

pub const SCHEMA_BLOCK_PREPEND: &'static str =
    r#"{"type":"object","properties":{"dataType":{"type":"string","description":"markdown or dom"},"data":{"type":"string","description":"Content to insert"},"parentID":{"type":"string","description":"Parent block ID"}},"required":["dataType","data","parentID"],"additionalProperties":true}"#;

pub const SCHEMA_BLOCK_UPDATE: &'static str =
    r#"{"type":"object","properties":{"dataType":{"type":"string","description":"markdown or dom"},"data":{"type":"string","description":"Updated content"},"id":{"type":"string","description":"Block ID"}},"required":["dataType","data","id"],"additionalProperties":true}"#;

pub const SCHEMA_BLOCK_MOVE: &'static str =
    r#"{"type":"object","properties":{"id":{"type":"string","description":"Block ID"},"previousID":{"type":"string","description":"Previous block ID"},"parentID":{"type":"string","description":"Parent block ID"}},"required":["id"],"additionalProperties":true}"#;

pub const SCHEMA_BLOCK_TRANSFER_REF: &'static str =
    r#"{"type":"object","properties":{"fromID":{"type":"string","description":"Def block ID"},"toID":{"type":"string","description":"Target block ID"},"refIDs":{"type":"array","items":{"type":"string"},"description":"Optional ref block IDs"}},"required":["fromID","toID"],"additionalProperties":true}"#;

pub const SCHEMA_ATTR_SET: &'static str =
    r#"{"type":"object","properties":{"id":{"type":"string","description":"Block ID"},"attrs":{"type":"object","description":"Attributes map"}},"required":["id","attrs"],"additionalProperties":true}"#;

pub const SCHEMA_SQL_QUERY: &'static str =
    r#"{"type":"object","properties":{"stmt":{"type":"string","description":"SQL statement"}},"required":["stmt"],"additionalProperties":true}"#;

pub const SCHEMA_TEMPLATE_RENDER: &'static str =
    r#"{"type":"object","properties":{"id":{"type":"string","description":"Document ID"},"path":{"type":"string","description":"Template file absolute path"}},"required":["id","path"],"additionalProperties":true}"#;

pub const SCHEMA_TEMPLATE_RENDER_SPRIG: &'static str =
    r#"{"type":"object","properties":{"template":{"type":"string","description":"Template content"}},"required":["template"],"additionalProperties":true}"#;

pub const SCHEMA_FILE_PATH: &'static str =
    r#"{"type":"object","properties":{"path":{"type":"string","description":"Path under workspace"}},"required":["path"],"additionalProperties":true}"#;

pub const SCHEMA_FILE_PUT: &'static str =
    r#"{"type":"object","properties":{"path":{"type":"string","description":"Path under workspace"},"is_dir":{"type":"boolean","description":"Create directory only"},"mod_time":{"type":"integer","description":"Unix time (seconds)"},"file_path":{"type":"string","description":"Local file path to upload"}},"required":["path"],"additionalProperties":true}"#;

pub const SCHEMA_FILE_RENAME: &'static str =
    r#"{"type":"object","properties":{"path":{"type":"string","description":"Path under workspace"},"newPath":{"type":"string","description":"New path under workspace"}},"required":["path","newPath"],"additionalProperties":true}"#;

pub const SCHEMA_FILE_READ_DIR: &'static str =
    r#"{"type":"object","properties":{"path":{"type":"string","description":"Directory path under workspace"}},"required":["path"],"additionalProperties":true}"#;

pub const SCHEMA_EXPORT_MD: &'static str =
    r#"{"type":"object","properties":{"id":{"type":"string","description":"Doc block ID"}},"required":["id"],"additionalProperties":true}"#;

pub const SCHEMA_EXPORT_RESOURCES: &'static str =
    r#"{"type":"object","properties":{"paths":{"type":"array","items":{"type":"string"},"description":"Paths to export"},"name":{"type":"string","description":"Optional zip name"}},"required":["paths"],"additionalProperties":true}"#;

pub const SCHEMA_PANDOC: &'static str =
    r#"{"type":"object","properties":{"dir":{"type":"string","description":"Working directory name"},"args":{"type":"array","items":{"type":"string"},"description":"Pandoc CLI args"}},"required":["dir","args"],"additionalProperties":true}"#;

pub const SCHEMA_NOTIFY: &'static str =
    r#"{"type":"object","properties":{"msg":{"type":"string","description":"Message text"},"timeout":{"type":"integer","description":"Timeout in ms"}},"required":["msg"],"additionalProperties":true}"#;

pub const SCHEMA_NETWORK_FORWARD_PROXY: &'static str =
    r#"{"type":"object","properties":{"url":{"type":"string","description":"Target URL"},"method":{"type":"string","description":"HTTP method"},"timeout":{"type":"integer","description":"Timeout in ms"},"contentType":{"type":"string","description":"Content-Type"},"headers":{"type":"array","items":{"type":"object"},"description":"Headers list"},"payload":{"type":"object","description":"Payload object or string"},"payloadEncoding":{"type":"string","description":"Payload encoding"},"responseEncoding":{"type":"string","description":"Response body encoding"}},"required":["url"],"additionalProperties":true}"#;

pub const SCHEMA_ASSET_UPLOAD: &'static str =
    r#"{"type":"object","properties":{"assets_dir_path":{"type":"string","description":"Target assets dir (e.g. /assets/)"},"files":{"type":"array","items":{"type":"string"},"description":"Local file paths"}},"required":["files"],"additionalProperties":true}"#;

/// Whether no two entries share an identifier.
pub open spec fn names_distinct(specs: Seq<ToolSpec>) -> bool {
    forall|i: int, j: int|
        0 <= i < j < specs.len() ==> (#[trigger] specs[i]).name@ != (#[trigger] specs[j]).name@
}

/// The kind of the tool that goes by `name`: three tools move files, every
/// other tool is plain JSON.
pub open spec fn kind_of(name: Seq<char>) -> ToolKind {
    if name == "siyuan_asset_upload"@ {
        ToolKind::AssetUpload
    } else if name == "siyuan_file_put"@ {
        ToolKind::PutFile
    } else if name == "siyuan_file_get"@ {
        ToolKind::GetFile
    } else {
        ToolKind::Json
    }
}

/// Whether every entry has the kind that goes with its name.
pub open spec fn kinds_as_named(specs: Seq<ToolSpec>) -> bool {
    forall|i: int| 0 <= i < specs.len() ==> (#[trigger] specs[i]).kind == kind_of(specs[i].name@)
}

/// The number of tools in the catalog.
pub const TOOL_COUNT: usize = 51;

/// The length of a name and three of its late characters: enough to tell
/// the names of the catalog apart.
pub open spec fn mark(name: Seq<char>) -> (nat, char, char, char) {
    (name.len(), name[name.len() - 2], name[name.len() - 3], name[name.len() - 8])
}

/// The catalog, in the order in which tools are listed to callers.
pub fn tool_specs() -> (specs: Vec<ToolSpec>)
    ensures
        specs@.len() == TOOL_COUNT,
        names_distinct(specs@),
        kinds_as_named(specs@),
{
    let mut specs: Vec<ToolSpec> = Vec::new();
    specs.push(
        ToolSpec {
            name: "siyuan_notebook_ls",
            endpoint: "/api/notebook/lsNotebooks",
            kind: ToolKind::Json,
            description: "List notebooks. No parameters. Use to obtain notebook IDs.",
            schema: SCHEMA_EMPTY,
        },
    );
    specs.push(
        ToolSpec {
            name: "siyuan_notebook_open",
            endpoint: "/api/notebook/openNotebook",
            kind: ToolKind::Json,
            description: "Open a notebook by ID.",
            schema: SCHEMA_NOTEBOOK_ID,
        },
    );
    specs.push(
        ToolSpec {
            name: "siyuan_notebook_close",
            endpoint: "/api/notebook/closeNotebook",
            kind: ToolKind::Json,
            description: "Close a notebook by ID.",
            schema: SCHEMA_NOTEBOOK_ID,
        },
    );
    specs.push(
        ToolSpec {
            name: "siyuan_notebook_rename",
            endpoint: "/api/notebook/renameNotebook",
            kind: ToolKind::Json,
            description: "Rename a notebook by ID.",
            schema: SCHEMA_NOTEBOOK_ID_NAME,
        },
    );
    specs.push(
        ToolSpec {
            name: "siyuan_notebook_create",
            endpoint: "/api/notebook/createNotebook",
            kind: ToolKind::Json,
            description: "Create a new notebook.",
            schema: SCHEMA_NOTEBOOK_CREATE,
        },
    );
    specs.push(
        ToolSpec {
            name: "siyuan_notebook_remove",
            endpoint: "/api/notebook/removeNotebook",
            kind: ToolKind::Json,
            description: "Remove a notebook by ID.",
            schema: SCHEMA_NOTEBOOK_ID,
        },
    );
    specs.push(
        ToolSpec {
            name: "siyuan_notebook_get_conf",
            endpoint: "/api/notebook/getNotebookConf",
            kind: ToolKind::Json,
            description: "Fetch notebook configuration by ID.",
            schema: SCHEMA_NOTEBOOK_ID,
        },
    );
    specs.push(
        ToolSpec {
            name: "siyuan_notebook_set_conf",
            endpoint: "/api/notebook/setNotebookConf",
            kind: ToolKind::Json,
            description: "Save notebook configuration by ID.",
            schema: SCHEMA_NOTEBOOK_CONF,
        },
    );
    specs.push(
        ToolSpec {
            name: "siyuan_doc_create_md",
            endpoint: "/api/filetree/createDocWithMd",
            kind: ToolKind::Json,
            description: "Create a document with Markdown content.",
            schema: SCHEMA_DOC_CREATE_MD,
        },
    );
    specs.push(
        ToolSpec {
            name: "siyuan_doc_rename",
            endpoint: "/api/filetree/renameDoc",
            kind: ToolKind::Json,
            description: "Rename a document by notebook + path.",
            schema: SCHEMA_DOC_RENAME,
        },
    );
    specs.push(
        ToolSpec {
            name: "siyuan_doc_rename_by_id",
            endpoint: "/api/filetree/renameDocByID",
            kind: ToolKind::Json,
            description: "Rename a document by ID.",
            schema: SCHEMA_DOC_RENAME_BY_ID,
        },
    );
    specs.push(
        ToolSpec {
            name: "siyuan_doc_remove",
            endpoint: "/api/filetree/removeDoc",
            kind: ToolKind::Json,
            description: "Remove a document by notebook + path.",
            schema: SCHEMA_DOC_REMOVE,
        },
    );
    specs.push(
        ToolSpec {
            name: "siyuan_doc_remove_by_id",
            endpoint: "/api/filetree/removeDocByID",
            kind: ToolKind::Json,
            description: "Remove a document by ID.",
            schema: SCHEMA_ID_ONLY,
        },
    );
    specs.push(
        ToolSpec {
            name: "siyuan_doc_move",
            endpoint: "/api/filetree/moveDocs",
            kind: ToolKind::Json,
            description: "Move documents by source paths to a target notebook/path.",
            schema: SCHEMA_DOC_MOVE,
        },
    );
    specs.push(
        ToolSpec {
            name: "siyuan_doc_move_by_id",
            endpoint: "/api/filetree/moveDocsByID",
            kind: ToolKind::Json,
            description: "Move documents by IDs to a target parent ID or notebook ID.",
            schema: SCHEMA_DOC_MOVE_BY_ID,
        },
    );
    specs.push(
        ToolSpec {
            name: "siyuan_doc_get_hpath_by_path",
            endpoint: "/api/filetree/getHPathByPath",
            kind: ToolKind::Json,
            description: "Get human-readable path from notebook + storage path.",
            schema: SCHEMA_GET_HPATH_BY_PATH,
        },
    );
    specs.push(
        ToolSpec {
            name: "siyuan_doc_get_hpath_by_id",
            endpoint: "/api/filetree/getHPathByID",
            kind: ToolKind::Json,
            description: "Get human-readable path from block/document ID.",
            schema: SCHEMA_ID_ONLY,
        },
    );
    specs.push(
        ToolSpec {
            name: "siyuan_doc_get_path_by_id",
            endpoint: "/api/filetree/getPathByID",
            kind: ToolKind::Json,
            description: "Get storage path and notebook ID from block/document ID.",
            schema: SCHEMA_ID_ONLY,
        },
    );
    specs.push(
        ToolSpec {
            name: "siyuan_doc_get_ids_by_hpath",
            endpoint: "/api/filetree/getIDsByHPath",
            kind: ToolKind::Json,
            description: "Get IDs from human-readable path + notebook ID.",
            schema: SCHEMA_GET_IDS_BY_HPATH,
        },
    );
    specs.push(
        ToolSpec {
            name: "siyuan_asset_upload",
            endpoint: "/api/asset/upload",
            kind: ToolKind::AssetUpload,
            description: "Upload assets from local files. Uses multipart. Params: assets_dir_path, files[].",
            schema: SCHEMA_ASSET_UPLOAD,
        },
    );
    specs.push(
        ToolSpec {
            name: "siyuan_block_insert",
            endpoint: "/api/block/insertBlock",
            kind: ToolKind::Json,
            description: "Insert blocks using nextID/previousID/parentID anchors.",
            schema: SCHEMA_BLOCK_INSERT,
        },
    );
    specs.push(
        ToolSpec {
            name: "siyuan_block_prepend",
            endpoint: "/api/block/prependBlock",
            kind: ToolKind::Json,
            description: "Prepend blocks to parentID.",
            schema: SCHEMA_BLOCK_PREPEND,
        },
    );
    specs.push(
        ToolSpec {
            name: "siyuan_block_append",
            endpoint: "/api/block/appendBlock",
            kind: ToolKind::Json,
            description: "Append blocks to parentID.",
            schema: SCHEMA_BLOCK_PREPEND,
        },
    );
    specs.push(
        ToolSpec {
            name: "siyuan_block_update",
            endpoint: "/api/block/updateBlock",
            kind: ToolKind::Json,
            description: "Update a block by ID.",
            schema: SCHEMA_BLOCK_UPDATE,
        },
    );
    specs.push(
        ToolSpec {
            name: "siyuan_block_delete",
            endpoint: "/api/block/deleteBlock",
            kind: ToolKind::Json,
            description: "Delete a block by ID.",
            schema: SCHEMA_ID_ONLY,
        },
    );
    specs.push(
        ToolSpec {
            name: "siyuan_block_move",
            endpoint: "/api/block/moveBlock",
            kind: ToolKind::Json,
            description: "Move a block with previousID/parentID anchors.",
            schema: SCHEMA_BLOCK_MOVE,
        },
    );
    specs.push(
        ToolSpec {
            name: "siyuan_block_fold",
            endpoint: "/api/block/foldBlock",
            kind: ToolKind::Json,
            description: "Fold a block by ID.",
            schema: SCHEMA_ID_ONLY,
        },
    );
    specs.push(
        ToolSpec {
            name: "siyuan_block_unfold",
            endpoint: "/api/block/unfoldBlock",
            kind: ToolKind::Json,
            description: "Unfold a block by ID.",
            schema: SCHEMA_ID_ONLY,
        },
    );
    specs.push(
        ToolSpec {
            name: "siyuan_block_get_kramdown",
            endpoint: "/api/block/getBlockKramdown",
            kind: ToolKind::Json,
            description: "Get block kramdown by ID.",
            schema: SCHEMA_ID_ONLY,
        },
    );
    specs.push(
        ToolSpec {
            name: "siyuan_block_get_children",
            endpoint: "/api/block/getChildBlocks",
            kind: ToolKind::Json,
            description: "List child blocks by parent ID.",
            schema: SCHEMA_ID_ONLY,
        },
    );
    specs.push(
        ToolSpec {
            name: "siyuan_block_transfer_ref",
            endpoint: "/api/block/transferBlockRef",
            kind: ToolKind::Json,
            description: "Transfer block references from one def block to another.",
            schema: SCHEMA_BLOCK_TRANSFER_REF,
        },
    );
    specs.push(
        ToolSpec {
            name: "siyuan_attr_set",
            endpoint: "/api/attr/setBlockAttrs",
            kind: ToolKind::Json,
            description: "Set block attributes.",
            schema: SCHEMA_ATTR_SET,
        },
    );
    specs.push(
        ToolSpec {
            name: "siyuan_attr_get",
            endpoint: "/api/attr/getBlockAttrs",
            kind: ToolKind::Json,
            description: "Get block attributes by ID.",
            schema: SCHEMA_ID_ONLY,
        },
    );
    specs.push(
        ToolSpec {
            name: "siyuan_sql_query",
            endpoint: "/api/query/sql",
            kind: ToolKind::Json,
            description: "Execute SQL query against SiYuan database.",
            schema: SCHEMA_SQL_QUERY,
        },
    );
    specs.push(
        ToolSpec {
            name: "siyuan_sql_flush",
            endpoint: "/api/sqlite/flushTransaction",
            kind: ToolKind::Json,
            description: "Flush the current SQLite transaction. No parameters.",
            schema: SCHEMA_EMPTY,
        },
    );
    specs.push(
        ToolSpec {
            name: "siyuan_template_render",
            endpoint: "/api/template/render",
            kind: ToolKind::Json,
            description: "Render a template file for a document.",
            schema: SCHEMA_TEMPLATE_RENDER,
        },
    );
    specs.push(
        ToolSpec {
            name: "siyuan_template_render_sprig",
            endpoint: "/api/template/renderSprig",
            kind: ToolKind::Json,
            description: "Render a Sprig template string.",
            schema: SCHEMA_TEMPLATE_RENDER_SPRIG,
        },
    );
    specs.push(
        ToolSpec {
            name: "siyuan_file_get",
            endpoint: "/api/file/getFile",
            kind: ToolKind::GetFile,
            description: "Download a file. Returns body_base64 + content_type.",
            schema: SCHEMA_FILE_PATH,
        },
    );
    specs.push(
        ToolSpec {
            name: "siyuan_file_put",
            endpoint: "/api/file/putFile",
            kind: ToolKind::PutFile,
            description: "Upload a file or create a directory (multipart). Params: path, is_dir, mod_time, file_path.",
            schema: SCHEMA_FILE_PUT,
        },
    );
    specs.push(
        ToolSpec {
            name: "siyuan_file_remove",
            endpoint: "/api/file/removeFile",
            kind: ToolKind::Json,
            description: "Remove a file by workspace path.",
            schema: SCHEMA_FILE_PATH,
        },
    );
    specs.push(
        ToolSpec {
            name: "siyuan_file_rename",
            endpoint: "/api/file/renameFile",
            kind: ToolKind::Json,
            description: "Rename a file by workspace path.",
            schema: SCHEMA_FILE_RENAME,
        },
    );
    specs.push(
        ToolSpec {
            name: "siyuan_file_read_dir",
            endpoint: "/api/file/readDir",
            kind: ToolKind::Json,
            description: "List files in a directory by workspace path.",
            schema: SCHEMA_FILE_READ_DIR,
        },
    );
    specs.push(
        ToolSpec {
            name: "siyuan_export_md",
            endpoint: "/api/export/exportMdContent",
            kind: ToolKind::Json,
            description: "Export a document as Markdown content by ID.",
            schema: SCHEMA_EXPORT_MD,
        },
    );
    specs.push(
        ToolSpec {
            name: "siyuan_export_resources",
            endpoint: "/api/export/exportResources",
            kind: ToolKind::Json,
            description: "Export files/folders to a zip; returns zip path.",
            schema: SCHEMA_EXPORT_RESOURCES,
        },
    );
    specs.push(
        ToolSpec {
            name: "siyuan_convert_pandoc",
            endpoint: "/api/convert/pandoc",
            kind: ToolKind::Json,
            description: "Run pandoc conversion in a temp directory.",
            schema: SCHEMA_PANDOC,
        },
    );
    specs.push(
        ToolSpec {
            name: "siyuan_notify_msg",
            endpoint: "/api/notification/pushMsg",
            kind: ToolKind::Json,
            description: "Push a normal notification message.",
            schema: SCHEMA_NOTIFY,
        },
    );
    specs.push(
        ToolSpec {
            name: "siyuan_notify_err",
            endpoint: "/api/notification/pushErrMsg",
            kind: ToolKind::Json,
            description: "Push an error notification message.",
            schema: SCHEMA_NOTIFY,
        },
    );
    specs.push(
        ToolSpec {
            name: "siyuan_network_forward_proxy",
            endpoint: "/api/network/forwardProxy",
            kind: ToolKind::Json,
            description: "Forward proxy HTTP request through SiYuan.",
            schema: SCHEMA_NETWORK_FORWARD_PROXY,
        },
    );
    specs.push(
        ToolSpec {
            name: "siyuan_system_boot_progress",
            endpoint: "/api/system/bootProgress",
            kind: ToolKind::Json,
            description: "Get system boot progress. No parameters.",
            schema: SCHEMA_EMPTY,
        },
    );
    specs.push(
        ToolSpec {
            name: "siyuan_system_version",
            endpoint: "/api/system/version",
            kind: ToolKind::Json,
            description: "Get system version. No parameters.",
            schema: SCHEMA_EMPTY,
        },
    );
    specs.push(
        ToolSpec {
            name: "siyuan_system_current_time",
            endpoint: "/api/system/currentTime",
            kind: ToolKind::Json,
            description: "Get system current time (ms). No parameters.",
            schema: SCHEMA_EMPTY,
        },
    );
    proof {
        // The mark of each name, read off its spelling. No two are equal.
        reveal_strlit("siyuan_notebook_ls");
        assert(mark("siyuan_notebook_ls"@) == (18nat, 'l', '_', 'e'));
        reveal_strlit("siyuan_notebook_open");
        assert(mark("siyuan_notebook_open"@) == (20nat, 'e', 'p', 'o'));
        reveal_strlit("siyuan_notebook_close");
        assert(mark("siyuan_notebook_close"@) == (21nat, 's', 'o', 'o'));
        reveal_strlit("siyuan_notebook_rename");
        assert(mark("siyuan_notebook_rename"@) == (22nat, 'm', 'a', 'k'));
        reveal_strlit("siyuan_notebook_create");
        assert(mark("siyuan_notebook_create"@) == (22nat, 't', 'a', 'k'));
        reveal_strlit("siyuan_notebook_remove");
        assert(mark("siyuan_notebook_remove"@) == (22nat, 'v', 'o', 'k'));
        reveal_strlit("siyuan_notebook_get_conf");
        assert(mark("siyuan_notebook_get_conf"@) == (24nat, 'n', 'o', 'g'));
        reveal_strlit("siyuan_notebook_set_conf");
        assert(mark("siyuan_notebook_set_conf"@) == (24nat, 'n', 'o', 's'));
        reveal_strlit("siyuan_doc_create_md");
        assert(mark("siyuan_doc_create_md"@) == (20nat, 'm', '_', 'r'));
        reveal_strlit("siyuan_doc_rename");
        assert(mark("siyuan_doc_rename"@) == (17nat, 'm', 'a', 'c'));
        reveal_strlit("siyuan_doc_rename_by_id");
        assert(mark("siyuan_doc_rename_by_id"@) == (23nat, 'i', '_', 'm'));
        reveal_strlit("siyuan_doc_remove");
        assert(mark("siyuan_doc_remove"@) == (17nat, 'v', 'o', 'c'));
        reveal_strlit("siyuan_doc_remove_by_id");
        assert(mark("siyuan_doc_remove_by_id"@) == (23nat, 'i', '_', 'v'));
        reveal_strlit("siyuan_doc_move");
        assert(mark("siyuan_doc_move"@) == (15nat, 'v', 'o', 'd'));
        reveal_strlit("siyuan_doc_move_by_id");
        assert(mark("siyuan_doc_move_by_id"@) == (21nat, 'i', '_', 'v'));
        reveal_strlit("siyuan_doc_get_hpath_by_path");
        assert(mark("siyuan_doc_get_hpath_by_path"@) == (28nat, 't', 'a', '_'));
        reveal_strlit("siyuan_doc_get_hpath_by_id");
        assert(mark("siyuan_doc_get_hpath_by_id"@) == (26nat, 'i', '_', 't'));
        reveal_strlit("siyuan_doc_get_path_by_id");
        assert(mark("siyuan_doc_get_path_by_id"@) == (25nat, 'i', '_', 't'));
        reveal_strlit("siyuan_doc_get_ids_by_hpath");
        assert(mark("siyuan_doc_get_ids_by_hpath"@) == (27nat, 't', 'a', 'b'));
        reveal_strlit("siyuan_asset_upload");
        assert(mark("siyuan_asset_upload"@) == (19nat, 'a', 'o', 't'));
        reveal_strlit("siyuan_block_insert");
        assert(mark("siyuan_block_insert"@) == (19nat, 'r', 'e', 'k'));
        reveal_strlit("siyuan_block_prepend");
        assert(mark("siyuan_block_prepend"@) == (20nat, 'n', 'e', '_'));
        reveal_strlit("siyuan_block_append");
        assert(mark("siyuan_block_append"@) == (19nat, 'n', 'e', 'k'));
        reveal_strlit("siyuan_block_update");
        assert(mark("siyuan_block_update"@) == (19nat, 't', 'a', 'k'));
        reveal_strlit("siyuan_block_delete");
        assert(mark("siyuan_block_delete"@) == (19nat, 't', 'e', 'k'));
        reveal_strlit("siyuan_block_move");
        assert(mark("siyuan_block_move"@) == (17nat, 'v', 'o', 'o'));
        reveal_strlit("siyuan_block_fold");
        assert(mark("siyuan_block_fold"@) == (17nat, 'l', 'o', 'o'));
        reveal_strlit("siyuan_block_unfold");
        assert(mark("siyuan_block_unfold"@) == (19nat, 'l', 'o', 'k'));
        reveal_strlit("siyuan_block_get_kramdown");
        assert(mark("siyuan_block_get_kramdown"@) == (25nat, 'w', 'o', 'k'));
        reveal_strlit("siyuan_block_get_children");
        assert(mark("siyuan_block_get_children"@) == (25nat, 'e', 'r', 'c'));
        reveal_strlit("siyuan_block_transfer_ref");
        assert(mark("siyuan_block_transfer_ref"@) == (25nat, 'e', 'r', 's'));
        reveal_strlit("siyuan_attr_set");
        assert(mark("siyuan_attr_set"@) == (15nat, 'e', 's', 'a'));
        reveal_strlit("siyuan_attr_get");
        assert(mark("siyuan_attr_get"@) == (15nat, 'e', 'g', 'a'));
        reveal_strlit("siyuan_sql_query");
        assert(mark("siyuan_sql_query"@) == (16nat, 'r', 'e', 'q'));
        reveal_strlit("siyuan_sql_flush");
        assert(mark("siyuan_sql_flush"@) == (16nat, 's', 'u', 'q'));
        reveal_strlit("siyuan_template_render");
        assert(mark("siyuan_template_render"@) == (22nat, 'e', 'd', 'e'));
        reveal_strlit("siyuan_template_render_sprig");
        assert(mark("siyuan_template_render_sprig"@) == (28nat, 'i', 'r', 'e'));
        reveal_strlit("siyuan_file_get");
        assert(mark("siyuan_file_get"@) == (15nat, 'e', 'g', 'f'));
        reveal_strlit("siyuan_file_put");
        assert(mark("siyuan_file_put"@) == (15nat, 'u', 'p', 'f'));
        reveal_strlit("siyuan_file_remove");
        assert(mark("siyuan_file_remove"@) == (18nat, 'v', 'o', 'e'));
        reveal_strlit("siyuan_file_rename");
        assert(mark("siyuan_file_rename"@) == (18nat, 'm', 'a', 'e'));
        reveal_strlit("siyuan_file_read_dir");
        assert(mark("siyuan_file_read_dir"@) == (20nat, 'i', 'd', 'r'));
        reveal_strlit("siyuan_export_md");
        assert(mark("siyuan_export_md"@) == (16nat, 'm', '_', 'x'));
        reveal_strlit("siyuan_export_resources");
        assert(mark("siyuan_export_resources"@) == (23nat, 'e', 'c', 'e'));
        reveal_strlit("siyuan_convert_pandoc");
        assert(mark("siyuan_convert_pandoc"@) == (21nat, 'o', 'd', 't'));
        reveal_strlit("siyuan_notify_msg");
        assert(mark("siyuan_notify_msg"@) == (17nat, 's', 'm', 't'));
        reveal_strlit("siyuan_notify_err");
        assert(mark("siyuan_notify_err"@) == (17nat, 'r', 'e', 't'));
        reveal_strlit("siyuan_network_forward_proxy");
        assert(mark("siyuan_network_forward_proxy"@) == (28nat, 'x', 'o', 'r'));
        reveal_strlit("siyuan_system_boot_progress");
        assert(mark("siyuan_system_boot_progress"@) == (27nat, 's', 'e', 'p'));
        reveal_strlit("siyuan_system_version");
        assert(mark("siyuan_system_version"@) == (21nat, 'o', 'i', '_'));
        reveal_strlit("siyuan_system_current_time");
        assert(mark("siyuan_system_current_time"@) == (26nat, 'm', 'i', 'e'));
    }
    specs
}

} // verus!
