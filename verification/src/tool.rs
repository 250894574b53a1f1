//! What a tool is: an identifier bound to a backend endpoint and to one of
//! four ways of encoding the call.

use vstd::prelude::*;

verus! {

/// How a tool's arguments become a request, and how the reply is read.
#[derive(Clone, Copy, Debug, PartialEq, Eq, Structural)]
pub enum ToolKind {
    /// Plain JSON: the arguments object is the request body, the reply is
    /// read as JSON.
    Json,
    /// Multipart upload of local files as assets.
    AssetUpload,
    /// Multipart upload of one local file, or creation of a directory.
    PutFile,
    /// JSON request whose reply is a binary download.
    GetFile,
}

/// One entry of the catalog.
#[derive(Clone, Copy, Debug)]
pub struct ToolSpec {
    /// The identifier that callers invoke the tool by.
    pub name: &'static str,
    /// The backend path that the tool posts to.
    pub endpoint: &'static str,
    pub kind: ToolKind,
    pub description: &'static str,
    /// The JSON schema of the arguments, as JSON text.
    pub schema: &'static str,
}

/// A tool ready to take arguments.
#[derive(Clone, Copy, Debug)]
pub struct SiyuanTool {
    pub endpoint: &'static str,
    pub kind: ToolKind,
}

impl SiyuanTool {
    /// The tool that a catalog entry describes.
    pub fn new(spec: &ToolSpec) -> (tool: SiyuanTool)
        ensures
            tool.endpoint == spec.endpoint,
            tool.kind == spec.kind,
    {
        SiyuanTool { endpoint: spec.endpoint, kind: spec.kind }
    }
}

} // verus!
