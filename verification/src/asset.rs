//! Asset export: what is stored for an export and under which name, how a
//! download finds it again, and the list of formats on offer.
//!
//! Talking to the engine and to the disk is the caller's part. The functions
//! here take what came back and say what to store, what to answer, or which
//! error to report.

use vstd::prelude::*;
use vstd::utf8::encode_utf8;
use base64::Engine;
use crate::ident::{fresh_identifier, is_identifier};
use crate::json::{get, member, Json};
use crate::text::{ends_with, starts_with, str_eq};

verus! {

/// Status of an answer to a request that cannot be served as it stands.
pub const STATUS_BAD_REQUEST: u16 = 400;

/// Status of an answer to a download that names no stored export.
pub const STATUS_NOT_FOUND: u16 = 404;

/// Status of an answer after a fault of this service.
pub const STATUS_INTERNAL: u16 = 500;

/// Status of an answer when the engine could not be reached.
pub const STATUS_BAD_GATEWAY: u16 = 502;

/// The resolution of an export request that names none.
pub fn default_resolution() -> (resolution: usize)
    ensures
        resolution == 128,
{
    128
}

/// One format on offer.
pub struct FormatInfo {
    pub name: String,
    pub extension: String,
    pub category: String,
    pub description: String,
}

impl View for FormatInfo {
    type V = (Seq<char>, Seq<char>, Seq<char>, Seq<char>);

    open spec fn view(&self) -> (Seq<char>, Seq<char>, Seq<char>, Seq<char>) {
        (self.name@, self.extension@, self.category@, self.description@)
    }
}

/// The formats on offer and their number.
pub struct FormatsResponse {
    pub total: usize,
    pub formats: Vec<FormatInfo>,
}

/// A format entry made of its four texts.
pub fn fmt(name: &str, ext: &str, category: &str, desc: &str) -> (f: FormatInfo)
    ensures
        f@ == (name@, ext@, category@, desc@),
{
    FormatInfo {
        name: String::from_str(name),
        extension: String::from_str(ext),
        category: String::from_str(category),
        description: String::from_str(desc),
    }
}

/// A list of formats as rows of name, extension, category and description.
pub open spec fn rows(list: Seq<FormatInfo>) -> Seq<(Seq<char>, Seq<char>, Seq<char>, Seq<char>)> {
    list.map_values(|f: FormatInfo| f@)
}

/// The formats on offer, in the order they are listed in.
pub open spec fn format_table() -> Seq<(Seq<char>, Seq<char>, Seq<char>, Seq<char>)> {
    seq![
        ("OBJ"@, "obj"@, "mesh"@, "Wavefront OBJ - Universal mesh format"@),
        ("STL"@, "stl"@, "mesh"@, "Stereolithography - 3D printing standard"@),
        ("GLB"@, "glb"@, "mesh"@, "glTF Binary - Web/game engine format"@),
        ("FBX"@, "fbx"@, "mesh"@, "Filmbox - Animation/game industry standard"@),
        ("USD"@, "usd"@, "mesh"@, "Universal Scene Description - VFX pipeline"@),
        ("Alembic"@, "abc"@, "mesh"@, "Alembic - VFX cache format"@),
        ("PLY"@, "ply"@, "mesh"@, "Stanford PLY - Point cloud / mesh"@),
        ("3MF"@, "3mf"@, "mesh"@, "3D Manufacturing Format - Advanced 3D printing"@),
        ("ASDF"@, "asdf"@, "sdf"@, "ALICE SDF Format - Native SDF serialization"@),
        ("ASDF JSON"@, "asdf.json"@, "sdf"@, "ALICE SDF JSON - Human-readable SDF"@),
        ("Nanite"@, "nanite"@, "mesh"@, "Nanite mesh - UE5 virtualized geometry"@),
        ("ABM"@, "abm"@, "mesh"@, "ALICE Binary Mesh - Optimized binary format"@),
        ("WGSL"@, "wgsl"@, "shader"@, "WebGPU Shading Language"@),
        ("GLSL"@, "glsl"@, "shader"@, "OpenGL Shading Language"@),
        ("HLSL"@, "hlsl"@, "shader"@, "High-Level Shading Language (DirectX/UE5)"@),
    ]
}

fn offer(list: &mut Vec<FormatInfo>, name: &str, ext: &str, category: &str, desc: &str)
    ensures
        rows(final(list)@) == rows(old(list)@).push((name@, ext@, category@, desc@)),
        final(list)@.len() == old(list)@.len() + 1,
{
    list.push(fmt(name, ext, category, desc));
    assert(rows(list@) =~= rows(old(list)@).push((name@, ext@, category@, desc@)));
}

/// The formats on offer. The list is the same on every call.
pub fn list_formats() -> (resp: FormatsResponse)
    ensures
        rows(resp.formats@) == format_table(),
        resp.total == 15,
        resp.total == resp.formats@.len(),
{
    let mut formats: Vec<FormatInfo> = Vec::new();
    assert(rows(formats@) =~= Seq::empty());
    offer(&mut formats, "OBJ", "obj", "mesh", "Wavefront OBJ - Universal mesh format");
    offer(&mut formats, "STL", "stl", "mesh", "Stereolithography - 3D printing standard");
    offer(&mut formats, "GLB", "glb", "mesh", "glTF Binary - Web/game engine format");
    offer(&mut formats, "FBX", "fbx", "mesh", "Filmbox - Animation/game industry standard");
    offer(&mut formats, "USD", "usd", "mesh", "Universal Scene Description - VFX pipeline");
    offer(&mut formats, "Alembic", "abc", "mesh", "Alembic - VFX cache format");
    offer(&mut formats, "PLY", "ply", "mesh", "Stanford PLY - Point cloud / mesh");
    offer(&mut formats, "3MF", "3mf", "mesh", "3D Manufacturing Format - Advanced 3D printing");
    offer(&mut formats, "ASDF", "asdf", "sdf", "ALICE SDF Format - Native SDF serialization");
    offer(&mut formats, "ASDF JSON", "asdf.json", "sdf", "ALICE SDF JSON - Human-readable SDF");
    offer(&mut formats, "Nanite", "nanite", "mesh", "Nanite mesh - UE5 virtualized geometry");
    offer(&mut formats, "ABM", "abm", "mesh", "ALICE Binary Mesh - Optimized binary format");
    offer(&mut formats, "WGSL", "wgsl", "shader", "WebGPU Shading Language");
    offer(&mut formats, "GLSL", "glsl", "shader", "OpenGL Shading Language");
    offer(&mut formats, "HLSL", "hlsl", "shader", "High-Level Shading Language (DirectX/UE5)");
    let total = formats.len();
    FormatsResponse { total, formats }
}

/// The file extension an export of `format` is stored under: the format
/// itself for the five mesh formats that are written out, `bin` for
/// anything else.
pub open spec fn extension_of(format: Seq<char>) -> Seq<char> {
    if format == "obj"@ {
        "obj"@
    } else if format == "stl"@ {
        "stl"@
    } else if format == "glb"@ {
        "glb"@
    } else if format == "fbx"@ {
        "fbx"@
    } else if format == "ply"@ {
        "ply"@
    } else {
        "bin"@
    }
}

/// The name of the file that holds an export: identifier, dot, extension.
pub open spec fn file_name_of(export_id: Seq<char>, format: Seq<char>) -> Seq<char> {
    export_id + "."@ + extension_of(format)
}

/// The path of a file in the storage directory.
pub open spec fn path_in(storage_path: Seq<char>, file_name: Seq<char>) -> Seq<char> {
    storage_path + "/"@ + file_name
}

/// The address under which an export can be downloaded.
pub open spec fn download_url_of(export_id: Seq<char>) -> Seq<char> {
    "/api/v1/asset/download/"@ + export_id
}

/// The address of the engine's export route below `base`.
pub open spec fn engine_url_of(base: Seq<char>) -> Seq<char> {
    base + "/api/v1/export"@
}

/// The file extension for `format`.
pub fn extension_for(format: &str) -> (ext: &'static str)
    ensures
        ext@ == extension_of(format@),
{
    if str_eq(format, "obj") {
        "obj"
    } else if str_eq(format, "stl") {
        "stl"
    } else if str_eq(format, "glb") {
        "glb"
    } else if str_eq(format, "fbx") {
        "fbx"
    } else if str_eq(format, "ply") {
        "ply"
    } else {
        "bin"
    }
}

/// The name of the file that holds the export `export_id` of `format`.
pub fn export_file_name(export_id: &str, format: &str) -> (name: String)
    ensures
        name@ == file_name_of(export_id@, format@),
{
    let mut name = String::from_str(export_id);
    name.append(".");
    name.append(extension_for(format));
    name
}

/// The path of `file_name` in the storage directory.
pub fn storage_file(storage_path: &str, file_name: &str) -> (path: String)
    ensures
        path@ == path_in(storage_path@, file_name@),
{
    let mut path = String::from_str(storage_path);
    path.append("/");
    path.append(file_name);
    path
}

/// The address under which the export `export_id` can be downloaded.
pub fn download_url(export_id: &str) -> (url: String)
    ensures
        url@ == download_url_of(export_id@),
{
    let mut url = String::from_str("/api/v1/asset/download/");
    url.append(export_id);
    url
}

/// The address of the engine's export route below `base`.
pub fn engine_export_url(base: &str) -> (url: String)
    ensures
        url@ == engine_url_of(base@),
{
    let mut url = String::from_str(base);
    url.append("/api/v1/export");
    url
}

/// `base64::DecodeError`, the error of a failed decoding. Nothing is read
/// from it.
#[verifier::external_type_specification]
#[verifier::external_body]
pub struct ExDecodeError(base64::DecodeError);

/// What the standard base64 alphabet with padding decodes `text` to, and
/// `None` where `text` is no such encoding.
pub uninterp spec fn base64_decoded(text: Seq<char>) -> Option<Seq<u8>>;

/// Calls `decode` of `base64::engine::general_purpose::STANDARD` on `text`.
///
/// Trusted: decoding is a function of the text alone, named
/// `base64_decoded`. The call returns the decoded bytes where that is
/// `Some`, and an error where it is `None`.
#[verifier::external_body]
fn decode_standard(text: &str) -> (r: Result<Vec<u8>, base64::DecodeError>)
    ensures
        match r {
            Ok(bytes) => base64_decoded(text@) == Some(bytes@),
            Err(_) => base64_decoded(text@) is None,
        },
{
    base64::engine::general_purpose::STANDARD.decode(text)
}

/// What to store for an answer of the engine, given what its binary payload
/// decoded to: a binary payload is stored decoded, and not at all where it
/// does not decode; without one, a text payload is stored as its UTF-8
/// bytes; without either, nothing is stored.
pub open spec fn payload_of(decoded: Option<Option<Seq<u8>>>, text: Option<Seq<char>>) -> Option<
    Seq<u8>,
> {
    match decoded {
        Some(bytes) => bytes,
        None => match text {
            Some(t) => Some(encode_utf8(t)),
            None => None,
        },
    }
}

/// What to store for an answer of the engine with the given binary and text
/// payloads.
pub open spec fn stored_for(data_base64: Option<Seq<char>>, data_text: Option<Seq<char>>) -> Option<
    Seq<u8>,
> {
    payload_of(
        match data_base64 {
            Some(b) => Some(base64_decoded(b)),
            None => None,
        },
        data_text,
    )
}

/// The view of an optional string.
pub open spec fn text_of(s: Option<String>) -> Option<Seq<char>> {
    match s {
        Some(t) => Some(t@),
        None => None,
    }
}

/// The view of an optional byte vector.
pub open spec fn bytes_of(v: Option<Vec<u8>>) -> Option<Seq<u8>> {
    match v {
        Some(b) => Some(b@),
        None => None,
    }
}

/// Picks what to store, given what the binary payload decoded to (`None`
/// where there was no binary payload, `Some(None)` where it did not decode)
/// and the text payload.
pub fn choose_payload(decoded: Option<Option<Vec<u8>>>, text: &Option<String>) -> (r: Option<
    Vec<u8>,
>)
    ensures
        bytes_of(r) == payload_of(
            match decoded {
                Some(d) => Some(bytes_of(d)),
                None => None,
            },
            text_of(*text),
        ),
{
    match decoded {
        Some(bytes) => bytes,
        None => match text {
            Some(t) => Some(t.as_str().as_bytes_vec()),
            None => None,
        },
    }
}

/// Decodes the binary payload of an answer, where it has one, and picks
/// what to store.
pub fn payload(data_base64: &Option<String>, data_text: &Option<String>) -> (r: Option<Vec<u8>>)
    ensures
        bytes_of(r) == stored_for(text_of(*data_base64), text_of(*data_text)),
{
    let decoded = match data_base64 {
        Some(b) => Some(
            match decode_standard(b.as_str()) {
                Ok(bytes) => Some(bytes),
                Err(_) => None,
            },
        ),
        None => None,
    };
    choose_payload(decoded, data_text)
}

/// How the engine answered a forwarded export request.
pub enum EngineReply {
    /// The request could not be sent; holds the text of the fault.
    Unreachable { details: String },
    /// The engine answered with a status other than success; holds the body
    /// of its answer.
    Rejected { body: String },
    /// The body of the answer could not be read; holds the text of the
    /// fault.
    Malformed { details: String },
    /// The engine answered; holds the binary and the text payload of the
    /// answer, each where it has one.
    Answer { data_base64: Option<String>, data_text: Option<String> },
}

/// The member `key` of `body` where it is a text, and `None` where `body`
/// has no such member or one that is no text.
pub open spec fn text_member(body: Json, key: Seq<char>) -> Option<Seq<char>> {
    match member(body, key) {
        Some(Json::Text(s)) => Some(s@),
        _ => None,
    }
}

fn read_text(body: &Json, key: &str) -> (r: Option<String>)
    ensures
        text_of(r) == text_member(*body, key@),
{
    match get(body, key) {
        Some(Json::Text(s)) => Some(s.clone()),
        _ => None,
    }
}

/// Reads the answer of the engine from the body it sent: the binary payload
/// is the text member `data_base64`, the text payload the text member
/// `data_text`, each where the body has it.
pub fn answer_of(body: &Json) -> (reply: EngineReply)
    ensures
        reply matches EngineReply::Answer { data_base64, data_text } && text_of(data_base64)
            == text_member(*body, "data_base64"@) && text_of(data_text) == text_member(
            *body,
            "data_text"@,
        ),
{
    EngineReply::Answer {
        data_base64: read_text(body, "data_base64"),
        data_text: read_text(body, "data_text"),
    }
}

/// An error of the asset service: status, what went wrong, and details.
pub struct AssetError {
    pub status: u16,
    pub error: String,
    pub details: String,
}

/// A file to write: where, and what.
pub struct StoredFile {
    pub path: String,
    pub bytes: Vec<u8>,
}

/// The answer to an export that went through.
pub struct ExportResponse {
    pub export_id: String,
    pub format: String,
    pub status: String,
    pub download_url: Option<String>,
}

/// What an export that went through asks for: the file to write, where the
/// engine sent a payload that can be stored, and the answer to give.
pub struct Export {
    pub store: Option<StoredFile>,
    pub response: ExportResponse,
}

/// The error that a reply of the engine is answered with: status, text and
/// details. `None` for a reply that is no error.
pub open spec fn refusal_of(reply: EngineReply) -> Option<(u16, Seq<char>, Seq<char>)> {
    match reply {
        EngineReply::Unreachable { details } => Some(
            (STATUS_BAD_GATEWAY, "SDF engine unavailable"@, details@),
        ),
        EngineReply::Rejected { body } => Some((STATUS_BAD_REQUEST, "Export failed"@, body@)),
        EngineReply::Malformed { details } => Some(
            (STATUS_INTERNAL, "Invalid engine response"@, details@),
        ),
        EngineReply::Answer { .. } => None,
    }
}

/// Whether `out` is the outcome of the export `export_id` of `format` into
/// `storage_path`, for an answer of the engine with the given payloads.
pub open spec fn export_matches(
    out: Export,
    export_id: Seq<char>,
    storage_path: Seq<char>,
    format: Seq<char>,
    data_base64: Option<Seq<char>>,
    data_text: Option<Seq<char>>,
) -> bool {
    &&& out.response.export_id@ == export_id
    &&& out.response.format@ == format
    &&& out.response.status@ == "completed"@
    &&& text_of(out.response.download_url) == Some(download_url_of(export_id))
    &&& match stored_for(data_base64, data_text) {
        Some(bytes) => out.store matches Some(file) && file.bytes@ == bytes && file.path@
            == path_in(storage_path, file_name_of(export_id, format)),
        None => out.store is None,
    }
}

/// Whether `r` is the outcome of the export `export_id` for `reply`: the
/// error of the reply where it is one, and otherwise the file and the
/// answer of the export.
pub open spec fn export_outcome(
    r: Result<Export, AssetError>,
    export_id: Seq<char>,
    storage_path: Seq<char>,
    format: Seq<char>,
    reply: EngineReply,
) -> bool {
    match reply {
        EngineReply::Answer { data_base64, data_text } => r matches Ok(out) && export_matches(
            out,
            export_id,
            storage_path,
            format,
            text_of(data_base64),
            text_of(data_text),
        ),
        _ => r matches Err(e) && refusal_of(reply) == Some((e.status, e.error@, e.details@)),
    }
}

/// Concludes the export `export_id` once the engine has replied.
pub fn finish_export(export_id: String, storage_path: &str, format: String, reply: EngineReply) -> (r:
    Result<Export, AssetError>)
    ensures
        export_outcome(r, export_id@, storage_path@, format@, reply),
{
    match reply {
        EngineReply::Unreachable { details } => Err(
            AssetError {
                status: STATUS_BAD_GATEWAY,
                error: String::from_str("SDF engine unavailable"),
                details,
            },
        ),
        EngineReply::Rejected { body } => Err(
            AssetError {
                status: STATUS_BAD_REQUEST,
                error: String::from_str("Export failed"),
                details: body,
            },
        ),
        EngineReply::Malformed { details } => Err(
            AssetError {
                status: STATUS_INTERNAL,
                error: String::from_str("Invalid engine response"),
                details,
            },
        ),
        EngineReply::Answer { data_base64, data_text } => {
            let file_name = export_file_name(export_id.as_str(), format.as_str());
            let path = storage_file(storage_path, file_name.as_str());
            let store = match payload(&data_base64, &data_text) {
                Some(bytes) => Some(StoredFile { path, bytes }),
                None => None,
            };
            let url = download_url(export_id.as_str());
            Ok(
                Export {
                    store,
                    response: ExportResponse {
                        export_id,
                        format,
                        status: String::from_str("completed"),
                        download_url: Some(url),
                    },
                },
            )
        },
    }
}

/// Concludes an export under a fresh identifier.
///
/// The identifier is drawn anew on every call, so two calls on the same
/// arguments differ in it. Whatever it is, it has the shape of an
/// identifier, and the outcome is that of `finish_export` for it.
pub fn export_asset(storage_path: &str, format: String, reply: EngineReply) -> (r: Result<
    Export,
    AssetError,
>)
    ensures
        exists|export_id: Seq<char>|
            is_identifier(export_id) && #[trigger] export_outcome(
                r,
                export_id,
                storage_path@,
                format@,
                reply,
            ),
        r matches Ok(out) ==> is_identifier(out.response.export_id@),
{
    let export_id = fresh_identifier();
    let ghost id = export_id@;
    let r = finish_export(export_id, storage_path, format, reply);
    assert(export_outcome(r, id, storage_path@, format@, reply));
    r
}

/// The media type a stored file is served as, going by the end of its
/// name.
pub open spec fn content_type_of(name: Seq<char>) -> Seq<char> {
    if ".obj"@.is_suffix_of(name) {
        "model/obj"@
    } else if ".stl"@.is_suffix_of(name) {
        "model/stl"@
    } else if ".glb"@.is_suffix_of(name) {
        "model/gltf-binary"@
    } else {
        "application/octet-stream"@
    }
}

/// The disposition a stored file is served with: an attachment under its
/// own name.
pub open spec fn disposition_of(name: Seq<char>) -> Seq<char> {
    "attachment; filename=\""@ + name + "\""@
}

/// The media type for the file called `name`.
pub fn content_type_for(name: &str) -> (media: &'static str)
    ensures
        media@ == content_type_of(name@),
{
    if ends_with(name, ".obj") {
        "model/obj"
    } else if ends_with(name, ".stl") {
        "model/stl"
    } else if ends_with(name, ".glb") {
        "model/gltf-binary"
    } else {
        "application/octet-stream"
    }
}

/// The disposition for the file called `name`.
pub fn content_disposition(name: &str) -> (d: String)
    ensures
        d@ == disposition_of(name@),
{
    let mut d = String::from_str("attachment; filename=\"");
    d.append(name);
    d.append("\"");
    d
}

/// Which stored file to serve, and how.
pub struct Download {
    /// Position of the file in the listing that was searched.
    pub index: usize,
    pub content_type: String,
    pub disposition: String,
}

/// Whether a stored file called `name` belongs to the export `export_id`:
/// it does when its name begins with the identifier.
pub open spec fn belongs_to(name: Seq<char>, export_id: Seq<char>) -> bool {
    export_id.is_prefix_of(name)
}

/// Picks the file to serve for a download of `export_id` from the names of
/// the stored files: the first one, in the order of the listing, that
/// belongs to the export. Answers `STATUS_NOT_FOUND` where none does.
pub fn download_asset(names: &Vec<String>, export_id: &str) -> (r: Result<Download, u16>)
    ensures
        match r {
            Ok(d) => {
                &&& d.index < names@.len()
                &&& belongs_to(names@[d.index as int]@, export_id@)
                &&& forall|j: int| 0 <= j < d.index ==> !belongs_to(#[trigger] names@[j]@, export_id@)
                &&& d.content_type@ == content_type_of(names@[d.index as int]@)
                &&& d.disposition@ == disposition_of(names@[d.index as int]@)
            },
            Err(code) => {
                &&& code == STATUS_NOT_FOUND
                &&& forall|j: int| 0 <= j < names@.len() ==> !belongs_to(#[trigger] names@[j]@, export_id@)
            },
        },
{
    let mut i: usize = 0;
    while i < names.len()
        invariant
            i <= names.len(),
            forall|j: int| 0 <= j < i ==> !belongs_to(#[trigger] names@[j]@, export_id@),
        decreases names.len() - i,
    {
        let name = names[i].as_str();
        if starts_with(name, export_id) {
            return Ok(
                Download {
                    index: i,
                    content_type: String::from_str(content_type_for(name)),
                    disposition: content_disposition(name),
                },
            );
        }
        i = i + 1;
    }
    Err(STATUS_NOT_FOUND)
}

/// The file stored for an export belongs to it.
pub proof fn lemma_export_file_belongs(export_id: Seq<char>, format: Seq<char>)
    ensures
        belongs_to(file_name_of(export_id, format), export_id),
{
    let name = file_name_of(export_id, format);
    assert(name.subrange(0, export_id.len() as int) =~= export_id);
}

/// The file stored for one export belongs to no export with another
/// identifier.
pub proof fn lemma_export_file_is_private(id: Seq<char>, other: Seq<char>, format: Seq<char>)
    requires
        is_identifier(id),
        is_identifier(other),
        belongs_to(file_name_of(id, format), other),
    ensures
        other == id,
{
    let name = file_name_of(id, format);
    assert(name.subrange(0, 36) =~= id);
    assert(other =~= id);
}

/// The health report of the asset service.
pub struct HealthResponse {
    pub status: String,
    pub version: String,
    pub uptime_secs: u64,
}

/// The health report of a service of the given version that has been up for
/// `uptime_secs` seconds.
pub fn health(version: &str, uptime_secs: u64) -> (h: HealthResponse)
    ensures
        h.status@ == "ok"@,
        h.version@ == version@,
        h.uptime_secs == uptime_secs,
{
    HealthResponse { status: String::from_str("ok"), version: String::from_str(version), uptime_secs }
}

} // verus!
