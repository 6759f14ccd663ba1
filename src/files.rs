//! The rules of the file API: where an upload is stored and under which
//! name, which paths may be downloaded or described, and what is answered.

use vstd::prelude::*;
use vstd::string::*;
use crate::error::Error;
use crate::outside::{guessed_mime, mime_for_path, new_uuid, uuid_text_char};
use crate::paths::{escapes_root, file_name_of, is_contained, join, join_path, last_segment};
use crate::security::{sanitize_filename, sanitized};
use crate::static_files::{Header, headers_view};
use crate::text::{format_radix, quoted, radix_digits, signed_decimal, signed_decimal_string};
use crate::types::{FileInfo, Timestamp};

verus! {

/// Whether a multipart field with this name carries the upload.
pub fn is_file_field(name: Option<&str>) -> (r: bool)
    ensures
        r == (name.is_some() && name.unwrap()@ == "file"@),
{
    match name {
        Some(n) => {
            let file = "file";
            proof {
                reveal_strlit("file");
            }
            if n.unicode_len() != 4 {
                assert(n@ != "file"@);
                return false;
            }
            let same = n.get_char(0) == 'f' && n.get_char(1) == 'i' && n.get_char(2) == 'l'
                && n.get_char(3) == 'e';
            proof {
                if same {
                    assert(n@ =~= file@);
                }
            }
            same
        },
        None => false,
    }
}

/// The name under which an upload is stored: the supplied file name with
/// its disallowed characters removed, or, when that leaves nothing or no
/// name was supplied, `upload_` followed by `token`.
pub open spec fn upload_name(file_name: Option<Seq<char>>, token: Seq<char>) -> Seq<char> {
    match file_name {
        Some(n) => if sanitized(n).len() > 0 {
            sanitized(n)
        } else {
            "upload_"@ + token
        },
        None => "upload_"@ + token,
    }
}

pub open spec fn opt_view(s: Option<&str>) -> Option<Seq<char>> {
    match s {
        Some(v) => Some(v@),
        None => None,
    }
}

/// The stored name of an upload, given the token to use when a name has
/// to be generated.
pub fn upload_name_with(file_name: Option<&str>, token: &str) -> (r: String)
    ensures
        r@ == upload_name(opt_view(file_name), token@),
{
    if let Some(n) = file_name {
        let s = sanitize_filename(n);
        if s.unicode_len() > 0 {
            return s;
        }
    }
    let mut name = String::from_str("upload_");
    name.append(token);
    name
}

/// The stored name of an upload; a generated name holds a fresh random
/// UUID.
pub fn upload_file_name(file_name: Option<&str>) -> (r: String)
    ensures
        exists|token: Seq<char>|
            token.len() == 36 && (forall|i: int|
                0 <= i < token.len() ==> #[trigger] uuid_text_char(token[i])) && r@ == upload_name(
                opt_view(file_name),
                token,
            ),
{
    let token = new_uuid();
    upload_name_with(file_name, token.as_str())
}

/// The directory that uploads are written to.
pub open spec fn upload_dir_of(root: Seq<char>) -> Seq<char> {
    join_path(root, "uploads"@)
}

pub fn upload_dir(root: &str) -> (r: String)
    ensures
        r@ == upload_dir_of(root@),
{
    join(root, "uploads")
}

/// The file that an upload stored as `name` is written to.
pub fn upload_path(root: &str, name: &str) -> (r: String)
    ensures
        r@ == join_path(upload_dir_of(root@), name@),
{
    let dir = upload_dir(root);
    join(dir.as_str(), name)
}

/// The path, relative to the static root, under which an upload stored as
/// `name` can be downloaded.
pub open spec fn stored_relative_path(name: Seq<char>) -> Seq<char> {
    "uploads/"@ + name
}

pub fn stored_path(name: &str) -> (r: String)
    ensures
        r@ == stored_relative_path(name@),
{
    let mut s = String::from_str("uploads/");
    s.append(name);
    s
}

/// The message that confirms an upload stored as `name`.
pub open spec fn upload_message(name: Seq<char>) -> Seq<char> {
    "File '"@ + name + "' uploaded successfully"@
}

pub fn upload_success_message(name: &str) -> (r: String)
    ensures
        r@ == upload_message(name@),
{
    let mut s = String::from_str("File '");
    s.append(name);
    s.append("' uploaded successfully");
    s
}

/// The error of an upload request without a field named `file`.
pub fn missing_file_field() -> (r: Error)
    ensures
        r is Validation && r->Validation_0@ == "No file field found in multipart request"@,
{
    Error::validation("No file field found in multipart request")
}

/// The error when the upload directory cannot be created.
pub fn upload_dir_failed() -> (r: Error)
    ensures
        r is Internal && r->Internal_0@ == "Failed to create upload directory"@,
{
    Error::internal("Failed to create upload directory")
}

/// The error when the uploaded bytes cannot be written.
pub fn upload_write_failed() -> (r: Error)
    ensures
        r is Internal && r->Internal_0@ == "Failed to save uploaded file"@,
{
    Error::internal("Failed to save uploaded file")
}

/// The file that a download or metadata request for `rel` names, or a
/// validation error when `rel` would leave the static root.
pub fn api_target(root: &str, rel: &str) -> (r: Result<String, Error>)
    ensures
        !escapes_root(rel@) <==> r is Ok,
        r is Ok ==> r->Ok_0@ == join_path(root@, rel@),
        r is Err ==> r->Err_0 is Validation && r->Err_0->Validation_0@ == "Invalid file path"@,
{
    if is_contained(rel) {
        Ok(join(root, rel))
    } else {
        Err(Error::validation("Invalid file path"))
    }
}

/// The error of a download or metadata request for a missing file.
pub fn file_not_found() -> (r: Error)
    ensures
        r is Http && r->Http_0@ == "File not found"@,
{
    Error::http("File not found")
}

/// The file name offered to the client for a download of `path`.
pub open spec fn download_name(path: Seq<char>) -> Seq<char> {
    if last_segment(path).len() > 0 {
        last_segment(path)
    } else {
        "download"@
    }
}

/// The headers of a download of `path` whose MIME type is `mime`.
pub open spec fn spec_download_headers(path: Seq<char>, mime: Seq<char>) -> Seq<
    (Seq<char>, Seq<char>),
> {
    seq![
        ("content-type"@, mime),
        ("content-disposition"@, "attachment; filename="@ + quoted(download_name(path))),
    ]
}

pub fn download_headers_with(path: &str, mime: &str) -> (r: Vec<Header>)
    ensures
        headers_view(r@) == spec_download_headers(path@, mime@),
{
    let name = file_name_of(path);
    let shown = if name.unicode_len() > 0 {
        name
    } else {
        String::from_str("download")
    };
    let mut disposition = String::from_str("attachment; filename=");
    crate::outside::push_char(&mut disposition, '"');
    disposition.append(shown.as_str());
    crate::outside::push_char(&mut disposition, '"');
    assert(shown@ == download_name(path@));
    assert(disposition@ =~= "attachment; filename="@ + quoted(download_name(path@)));
    let mut hs: Vec<Header> = Vec::new();
    hs.push(Header { name: String::from_str("content-type"), value: String::from_str(mime) });
    hs.push(Header { name: String::from_str("content-disposition"), value: disposition });
    assert(headers_view(hs@) =~= spec_download_headers(path@, mime@));
    hs
}

/// The headers of a download of `path`, typed by its extension.
pub fn download_headers(path: &str) -> (r: Vec<Header>)
    ensures
        headers_view(r@) == spec_download_headers(path@, guessed_mime(path@)),
{
    let mime = mime_for_path(path);
    download_headers_with(path, mime.as_str())
}

/// The entity tag of the metadata API: size and modification second,
/// joined by `-`, in double quotes.
pub open spec fn info_etag(size: u64, modified_secs: i64) -> Seq<char> {
    quoted(radix_digits(size as nat, 10) + "-"@ + signed_decimal(modified_secs as int))
}

pub fn metadata_etag(size: u64, modified_secs: i64) -> (r: String)
    ensures
        r@ == info_etag(size, modified_secs),
{
    let mut inner = format_radix(size, 10);
    inner.append("-");
    let m = signed_decimal_string(modified_secs);
    inner.append(m.as_str());
    crate::text::quote(inner.as_str())
}

/// Unix permission bits written in octal.
pub fn permissions_string(mode: u32) -> (r: String)
    ensures
        r@ == radix_digits(mode as nat, 8),
{
    format_radix(mode as u64, 8)
}

/// The metadata record of the file at `path`, given its MIME type.
pub fn file_info_with_mime(
    path: String,
    mime: String,
    size: u64,
    created_at: Timestamp,
    modified_at: Timestamp,
    mode: u32,
) -> (r: FileInfo)
    ensures
        r.path == path,
        r.mime_type == mime,
        r.size == size,
        r.created_at == created_at,
        r.modified_at == modified_at,
        r.etag@ == info_etag(size, modified_at.secs),
        r.permissions@ == radix_digits(mode as nat, 8),
{
    let etag = metadata_etag(size, modified_at.secs);
    let permissions = permissions_string(mode);
    FileInfo { path, size, mime_type: mime, created_at, modified_at, etag, permissions }
}

/// What a metadata lookup found of a file.
#[derive(Debug, Clone, Copy)]
pub struct FileStat {
    pub size: u64,
    pub created_at: Timestamp,
    pub modified_at: Timestamp,
    pub mode: u32,
}

/// The answer to a metadata request for `rel` under `root`, given what the
/// lookup of the joined path found (`None` when it failed). A path that
/// would leave the root is refused whatever the lookup held; a failed lookup
/// is not found; otherwise the record describes the file.
pub fn file_info(root: &str, rel: String, lookup: Option<FileStat>) -> (r: Result<FileInfo, Error>)
    ensures
        escapes_root(rel@) ==> r is Err && r->Err_0 is Validation && r->Err_0->Validation_0@
            == "Invalid file path"@,
        !escapes_root(rel@) && lookup is None ==> r is Err && r->Err_0 is Http
            && r->Err_0->Http_0@ == "File not found"@,
        !escapes_root(rel@) && lookup is Some ==> r is Ok && ({
            let st = lookup->Some_0;
            let info = r->Ok_0;
            &&& info.path == rel
            &&& info.mime_type@ == guessed_mime(join_path(root@, rel@))
            &&& info.size == st.size
            &&& info.created_at == st.created_at
            &&& info.modified_at == st.modified_at
            &&& info.etag@ == info_etag(st.size, st.modified_at.secs)
            &&& info.permissions@ == radix_digits(st.mode as nat, 8)
        }),
{
    let full_path = match api_target(root, rel.as_str()) {
        Ok(p) => p,
        Err(e) => {
            return Err(e);
        },
    };
    match lookup {
        Some(st) => {
            let mime = mime_for_path(full_path.as_str());
            Ok(file_info_with_mime(rel, mime, st.size, st.created_at, st.modified_at, st.mode))
        },
        None => Err(file_not_found()),
    }
}

/// The body that a download of `rel` under `root` answers with, given the
/// bytes that reading the joined path gave (`None` when it failed): none for
/// a path that would leave the root or a failed read, else those bytes.
pub open spec fn download_body(root: Seq<char>, rel: Seq<char>, contents: Option<Seq<u8>>) -> Option<
    Seq<u8>,
> {
    if escapes_root(rel) {
        None
    } else {
        contents
    }
}

pub open spec fn bytes_view(contents: Option<Vec<u8>>) -> Option<Seq<u8>> {
    match contents {
        Some(b) => Some(b@),
        None => None,
    }
}

/// A file handed to the client as an attachment.
pub struct Download {
    pub headers: Vec<Header>,
    pub body: Vec<u8>,
}

/// The answer to a download request for `rel` under `root`, given what
/// reading the joined path gave. A path that would leave the root is refused
/// whatever the read held; a failed read is not found; otherwise the bytes
/// are sent unchanged, typed by the path's extension.
pub fn download_file(root: &str, rel: &str, contents: Option<Vec<u8>>) -> (r: Result<
    Download,
    Error,
>)
    ensures
        r is Ok <==> download_body(root@, rel@, bytes_view(contents)) is Some,
        r is Ok ==> r->Ok_0.body@ == download_body(root@, rel@, bytes_view(contents))->Some_0
            && headers_view(r->Ok_0.headers@) == spec_download_headers(
            join_path(root@, rel@),
            guessed_mime(join_path(root@, rel@)),
        ),
        escapes_root(rel@) ==> r is Err && r->Err_0 is Validation && r->Err_0->Validation_0@
            == "Invalid file path"@,
        !escapes_root(rel@) && contents is None ==> r is Err && r->Err_0 is Http
            && r->Err_0->Http_0@ == "File not found"@,
{
    let full_path = match api_target(root, rel) {
        Ok(p) => p,
        Err(e) => {
            return Err(e);
        },
    };
    match contents {
        Some(body) => Ok(Download { headers: download_headers(full_path.as_str()), body }),
        None => Err(file_not_found()),
    }
}

/// An upload stored as `name` is downloaded from the very file it was
/// written to, through the path that the upload reports: when that file
/// still holds the `written` bytes, the download answers with exactly
/// those bytes, typed by the same extension.
pub proof fn lemma_upload_then_download(root: Seq<char>, name: Seq<char>, written: Seq<u8>)
    requires
        name.len() > 0,
        !name.contains('/'),
        name != ".."@,
    ensures
        download_body(root, stored_relative_path(name), Some(written)) == Some(written),
        !escapes_root(stored_relative_path(name)),
        join_path(root, stored_relative_path(name)) == join_path(upload_dir_of(root), name),
        guessed_mime(join_path(root, stored_relative_path(name))) == guessed_mime(
            join_path(upload_dir_of(root), name),
        ),
{
    reveal_strlit("uploads/");
    reveal_strlit("uploads");
    let rel = stored_relative_path(name);
    assert(rel.len() == 8 + name.len());
    assert forall|i: int|
        0 <= i && i + 2 <= rel.len() && #[trigger] rel[i] == '.' && rel[i + 1] == '.' && (i == 0
            || rel[i - 1] == '/') implies !(i + 2 == rel.len() || rel[i + 2] == '/') by {
        if i >= 8 {
            assert(rel[i] == name[i - 8]);
            assert(i == 8);
            if i + 2 == rel.len() {
                assert(name =~= ".."@) by {
                    reveal_strlit("..");
                }
            } else {
                assert(rel[i + 2] == name[i - 6]);
            }
        }
    }
    assert(join_path(root, rel) =~= join_path(upload_dir_of(root), name));
}

} // verus!
