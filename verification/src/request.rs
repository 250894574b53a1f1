//! From a tool and its arguments to the one HTTP call that the invocation
//! amounts to.
//!
//! Nothing here touches the network or the disk. A [`BackendCall`] says what
//! is to be sent; file parts name the local file whose bytes are to be
//! attached, and reading it is left to the caller.

use crate::args::{
    array_member, flag_member, missing_or_invalid, not_an_object, object_args, text_list,
    text_member, texts, unsigned_member,
};
use crate::error::{validation, ErrorModel, ToolError};
use crate::json::{
    insert_member, json_of, new_members, no_members, object_value, text_value, Json,
};
use crate::text::{decimal, decimal_text, file_name, file_name_of, flag_text, flag_word};
use crate::tool::{SiyuanTool, ToolKind};
use serde_json::Value;
use vstd::prelude::*;

verus! {

/// One part of a multipart form.
#[derive(Debug, PartialEq, Eq)]
pub enum FormPart {
    /// A text field.
    Text { name: String, value: String },
    /// A file field: the bytes of the local file at `path`, sent under the
    /// file name `file_name`.
    File { name: String, path: String, file_name: String },
}

/// The mathematical reading of a [`FormPart`].
pub enum PartModel {
    Text { name: Seq<char>, value: Seq<char> },
    File { name: Seq<char>, path: Seq<char>, file_name: Seq<char> },
}

impl View for FormPart {
    type V = PartModel;

    open spec fn view(&self) -> PartModel {
        match *self {
            FormPart::Text { name, value } => PartModel::Text { name: name@, value: value@ },
            FormPart::File { name, path, file_name } => PartModel::File {
                name: name@,
                path: path@,
                file_name: file_name@,
            },
        }
    }
}

/// The readings of a run of parts, in order.
pub open spec fn parts_of(parts: Seq<FormPart>) -> Seq<PartModel> {
    parts.map_values(|part: FormPart| part@)
}

/// The HTTP call that an invocation amounts to. Every call is a POST to the
/// endpoint, which is a path below the backend's base URL.
#[derive(Debug, PartialEq, Eq)]
pub enum BackendCall {
    /// A JSON body; the reply is read as JSON text.
    PostJson { endpoint: String, body: Value },
    /// A multipart form; the reply is read as JSON text.
    PostMultipart { endpoint: String, parts: Vec<FormPart> },
    /// A JSON body; the reply is a binary download.
    PostJsonExpectingFile { endpoint: String, body: Value },
}

/// The mathematical reading of a [`BackendCall`].
pub enum CallModel {
    PostJson { endpoint: Seq<char>, body: Json },
    PostMultipart { endpoint: Seq<char>, parts: Seq<PartModel> },
    PostJsonExpectingFile { endpoint: Seq<char>, body: Json },
}

impl View for BackendCall {
    type V = CallModel;

    open spec fn view(&self) -> CallModel {
        match *self {
            BackendCall::PostJson { endpoint, body } => CallModel::PostJson {
                endpoint: endpoint@,
                body: json_of(body),
            },
            BackendCall::PostMultipart { endpoint, parts } => CallModel::PostMultipart {
                endpoint: endpoint@,
                parts: parts_of(parts@),
            },
            BackendCall::PostJsonExpectingFile { endpoint, body } => CallModel::PostJsonExpectingFile {
                endpoint: endpoint@,
                body: json_of(body),
            },
        }
    }
}

/// The reading of what a handler returns.
pub open spec fn outcome_of(r: Result<BackendCall, ToolError>) -> Result<CallModel, ErrorModel> {
    match r {
        Ok(call) => Ok(call@),
        Err(e) => Err(e@),
    }
}

/// The file name that a local file is uploaded under: the file name of its
/// path, or `file` where the path has none.
pub open spec fn upload_name(path: Seq<char>) -> Seq<char> {
    match file_name_of(path) {
        Some(name) => name,
        None => "file"@,
    }
}

/// The file part for the local file at `path`, sent in the field `name`.
pub open spec fn file_part_of(name: Seq<char>, path: Seq<char>) -> PartModel {
    PartModel::File { name, path, file_name: upload_name(path) }
}

/// One `file[]` part for each path, in order.
pub open spec fn asset_parts(paths: Seq<Seq<char>>) -> Seq<PartModel> {
    paths.map_values(|path: Seq<char>| file_part_of("file[]"@, path))
}

/// The call of an asset upload: the target directory as the text field
/// `assetsDirPath` (`/assets/` unless `assets_dir_path` names another), then
/// one `file[]` part for each path listed under `files`.
pub open spec fn asset_upload_plan(endpoint: Seq<char>, members: Map<Seq<char>, Json>) -> Result<
    CallModel,
    ErrorModel,
> {
    let dir = match text_member(members, "assets_dir_path"@) {
        Some(dir) => dir,
        None => "/assets/"@,
    };
    match text_list(members, "files"@) {
        Err(failure) => Err(failure),
        Ok(paths) => Ok(
            CallModel::PostMultipart {
                endpoint,
                parts: seq![PartModel::Text { name: "assetsDirPath"@, value: dir }] + asset_parts(
                    paths,
                ),
            },
        ),
    }
}

/// The text fields of a file upload: `path`, then `isDir` and `modTime`
/// where they were given.
pub open spec fn put_file_fields(path: Seq<char>, is_dir: Option<bool>, mod_time: Option<u64>) -> Seq<
    PartModel,
> {
    let first = seq![PartModel::Text { name: "path"@, value: path }];
    let second = match is_dir {
        Some(flag) => first.push(PartModel::Text { name: "isDir"@, value: flag_word(flag) }),
        None => first,
    };
    match mod_time {
        Some(seconds) => second.push(
            PartModel::Text { name: "modTime"@, value: decimal(seconds as nat) },
        ),
        None => second,
    }
}

/// The call of a file upload. `path` is required. Unless `is_dir` is true,
/// `file_path` is required too and names the local file sent as the part
/// `file`; for a directory no file part is sent.
pub open spec fn put_file_plan(endpoint: Seq<char>, members: Map<Seq<char>, Json>) -> Result<
    CallModel,
    ErrorModel,
> {
    match text_member(members, "path"@) {
        None => Err(missing_or_invalid("path"@)),
        Some(path) => {
            let is_dir = flag_member(members, "is_dir"@);
            let fields = put_file_fields(path, is_dir, unsigned_member(members, "mod_time"@));
            if is_dir == Some(true) {
                Ok(CallModel::PostMultipart { endpoint, parts: fields })
            } else {
                match text_member(members, "file_path"@) {
                    None => Err(missing_or_invalid("file_path"@)),
                    Some(local) => Ok(
                        CallModel::PostMultipart {
                            endpoint,
                            parts: fields.push(file_part_of("file"@, local)),
                        },
                    ),
                }
            }
        },
    }
}

/// The call of a download: the required `path` alone, as a JSON object.
pub open spec fn get_file_plan(endpoint: Seq<char>, members: Map<Seq<char>, Json>) -> Result<
    CallModel,
    ErrorModel,
> {
    match text_member(members, "path"@) {
        None => Err(missing_or_invalid("path"@)),
        Some(path) => Ok(
            CallModel::PostJsonExpectingFile {
                endpoint,
                body: Json::Object(no_members().insert("path"@, Json::Text(path))),
            },
        ),
    }
}

/// The call that a tool of the given kind makes for the given arguments, or
/// the failure that the caller gets instead.
pub open spec fn planned(kind: ToolKind, endpoint: Seq<char>, args: Json) -> Result<
    CallModel,
    ErrorModel,
> {
    match object_args(args) {
        None => Err(not_an_object()),
        Some(members) => match kind {
            ToolKind::Json => Ok(CallModel::PostJson { endpoint, body: Json::Object(members) }),
            ToolKind::AssetUpload => asset_upload_plan(endpoint, members),
            ToolKind::PutFile => put_file_plan(endpoint, members),
            ToolKind::GetFile => get_file_plan(endpoint, members),
        },
    }
}

/// Whether a part is a text field.
pub open spec fn is_text_part(part: PartModel) -> bool {
    part is Text
}

/// For a plain JSON tool, absent arguments and an empty object come to the
/// same call, whose body is the empty object.
pub proof fn lemma_absent_arguments_are_an_empty_object(endpoint: Seq<char>)
    ensures
        planned(ToolKind::Json, endpoint, Json::Null) == planned(
            ToolKind::Json,
            endpoint,
            Json::Object(no_members()),
        ),
        planned(ToolKind::Json, endpoint, Json::Null) == Ok::<CallModel, ErrorModel>(
            CallModel::PostJson { endpoint, body: Json::Object(no_members()) },
        ),
{
}

/// Arguments that are neither absent nor an object, a string among them,
/// are rejected with a validation failure by every kind of tool, and no call
/// is planned.
pub proof fn lemma_non_object_arguments_are_rejected(
    kind: ToolKind,
    endpoint: Seq<char>,
    args: Json,
)
    requires
        !(args is Null),
        !(args is Object),
    ensures
        planned(kind, endpoint, args) == Err::<CallModel, ErrorModel>(
            validation("arguments must be a JSON object"@),
        ),
{
}

/// A file upload that names a `path` and says that it is a directory is
/// planned whether or not `file_path` is given, and the form then holds text
/// fields only: no local file is read.
pub proof fn lemma_directory_needs_no_file(endpoint: Seq<char>, members: Map<Seq<char>, Json>)
    requires
        text_member(members, "path"@) is Some,
        flag_member(members, "is_dir"@) == Some(true),
    ensures
        put_file_plan(endpoint, members) matches Ok(CallModel::PostMultipart { parts, .. })
            && forall|i: int| 0 <= i < parts.len() ==> is_text_part(#[trigger] parts[i]),
{
}

/// A file upload that names a `path`, does not say that it is a directory
/// and has no string under `file_path` is rejected with a validation
/// failure, and no call is planned.
pub proof fn lemma_file_upload_needs_file_path(endpoint: Seq<char>, members: Map<Seq<char>, Json>)
    requires
        text_member(members, "path"@) is Some,
        flag_member(members, "is_dir"@) != Some(true),
        text_member(members, "file_path"@) is None,
    ensures
        put_file_plan(endpoint, members) == Err::<CallModel, ErrorModel>(
            validation("missing or invalid `"@ + "file_path"@ + "`"@),
        ),
{
}

/// An asset upload that names no target directory sends `/assets/` in the
/// field `assetsDirPath`, as the first part of the form.
pub proof fn lemma_assets_directory_defaults(endpoint: Seq<char>, members: Map<Seq<char>, Json>)
    requires
        text_member(members, "assets_dir_path"@) is None,
        text_list(members, "files"@) is Ok,
    ensures
        asset_upload_plan(endpoint, members) matches Ok(CallModel::PostMultipart { parts, .. })
            && parts[0] == (PartModel::Text { name: "assetsDirPath"@, value: "/assets/"@ }),
{
}

/// An asset upload whose `files` hold anything but strings is rejected with
/// a validation failure, and no call is planned.
pub proof fn lemma_asset_files_must_be_strings(
    endpoint: Seq<char>,
    members: Map<Seq<char>, Json>,
    items: Seq<Json>,
    i: int,
)
    requires
        array_member(members, "files"@) == Some(items),
        0 <= i < items.len(),
        !(items[i] is Text),
    ensures
        asset_upload_plan(endpoint, members) == Err::<CallModel, ErrorModel>(
            validation("invalid `"@ + "files"@ + "` entry"@),
        ),
{
}

impl SiyuanTool {
    /// The form part that attaches the local file at `file_path` in the
    /// field `name`.
    pub fn file_part(name: &str, file_path: String) -> (part: FormPart)
        ensures
            part@ == file_part_of(name@, file_path@),
    {
        let file_name = match file_name(file_path.as_str()) {
            Some(found) => found,
            None => "file".to_owned(),
        };
        FormPart::File { name: name.to_owned(), path: file_path, file_name }
    }

    /// Plans an asset upload.
    pub fn handle_asset_upload(&self, args: Value) -> (r: Result<BackendCall, ToolError>)
        ensures
            outcome_of(r) == match object_args(json_of(args)) {
                Some(members) => asset_upload_plan(self.endpoint@, members),
                None => Err(not_an_object()),
            },
    {
        let map = Self::args_as_object(args)?;
        let assets_dir = match Self::optional_string(&map, "assets_dir_path") {
            Some(dir) => dir,
            None => "/assets/".to_owned(),
        };
        let files = Self::string_array(&map, "files")?;
        let ghost paths = texts(files@);
        let mut parts: Vec<FormPart> = Vec::new();
        parts.push(FormPart::Text { name: "assetsDirPath".to_owned(), value: assets_dir });
        let ghost head = parts_of(parts@);
        assert(head =~= seq![PartModel::Text { name: "assetsDirPath"@, value: assets_dir@ }]);
        let mut i: usize = 0;
        while i < files.len()
            invariant
                i <= files.len(),
                paths == texts(files@),
                parts_of(parts@) =~= head + asset_parts(paths.take(i as int)),
            decreases files.len() - i,
        {
            let ghost before = parts_of(parts@);
            let part = Self::file_part("file[]", files[i].clone());
            parts.push(part);
            assert(parts_of(parts@) =~= before.push(part@));
            assert(asset_parts(paths.take(i + 1)) =~= asset_parts(paths.take(i as int)).push(
                part@,
            ));
            i = i + 1;
        }
        assert(paths.take(i as int) =~= paths);
        Ok(BackendCall::PostMultipart { endpoint: self.endpoint.to_owned(), parts })
    }

    /// Plans a file upload or the creation of a directory.
    pub fn handle_put_file(&self, args: Value) -> (r: Result<BackendCall, ToolError>)
        ensures
            outcome_of(r) == match object_args(json_of(args)) {
                Some(members) => put_file_plan(self.endpoint@, members),
                None => Err(not_an_object()),
            },
    {
        let map = Self::args_as_object(args)?;
        let path = Self::required_string(&map, "path")?;
        let is_dir = Self::optional_bool(&map, "is_dir");
        let mod_time = Self::optional_u64(&map, "mod_time");
        let mut parts: Vec<FormPart> = Vec::new();
        parts.push(FormPart::Text { name: "path".to_owned(), value: path });
        if let Some(value) = is_dir {
            parts.push(FormPart::Text { name: "isDir".to_owned(), value: flag_text(value) });
        }
        if let Some(value) = mod_time {
            parts.push(FormPart::Text { name: "modTime".to_owned(), value: decimal_text(value) });
        }
        assert(parts_of(parts@) =~= put_file_fields(path@, is_dir, mod_time));
        let is_dir_flag = match is_dir {
            Some(flag) => flag,
            None => false,
        };
        if !is_dir_flag {
            let file_path = Self::required_string(&map, "file_path")?;
            let ghost fields = parts_of(parts@);
            parts.push(Self::file_part("file", file_path));
            assert(parts_of(parts@) =~= fields.push(file_part_of("file"@, file_path@)));
        }
        Ok(BackendCall::PostMultipart { endpoint: self.endpoint.to_owned(), parts })
    }

    /// Plans a download.
    pub fn handle_get_file(&self, args: Value) -> (r: Result<BackendCall, ToolError>)
        ensures
            outcome_of(r) == match object_args(json_of(args)) {
                Some(members) => get_file_plan(self.endpoint@, members),
                None => Err(not_an_object()),
            },
    {
        let map = Self::args_as_object(args)?;
        let path = Self::required_string(&map, "path")?;
        let mut body = new_members();
        insert_member(&mut body, "path".to_owned(), text_value(path));
        Ok(
            BackendCall::PostJsonExpectingFile {
                endpoint: self.endpoint.to_owned(),
                body: object_value(body),
            },
        )
    }

    /// Decides the call for an invocation of this tool with `args`, or fails
    /// with a validation error where the arguments do not fit the tool.
    pub fn handle(&self, args: Value) -> (r: Result<BackendCall, ToolError>)
        ensures
            outcome_of(r) == planned(self.kind, self.endpoint@, json_of(args)),
    {
        match self.kind {
            ToolKind::Json => {
                let body = Self::ensure_object(args)?;
                Ok(BackendCall::PostJson { endpoint: self.endpoint.to_owned(), body })
            },
            ToolKind::AssetUpload => self.handle_asset_upload(args),
            ToolKind::PutFile => self.handle_put_file(args),
            ToolKind::GetFile => self.handle_get_file(args),
        }
    }
}

} // verus!
