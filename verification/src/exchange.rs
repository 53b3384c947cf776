//! Listing the files a peer shares.

use vstd::prelude::*;
use crate::metadata::files_metadata;
use crate::metadata::metadata_of;
use crate::metadata::FileInfo;
use crate::message::FileListRequest;
use crate::message::FileListResponse;
use crate::message::ProtocolMessage;

verus! {

/// The request for the files a peer shares below `path` (all of them where
/// there is no path).
pub fn file_list_request(device_id: u128, group_code: &str, path: Option<String>) -> (m:
    ProtocolMessage)
    ensures
        m matches ProtocolMessage::FileListRequest(r) && r.device_id == device_id
            && r.group_code@ == group_code@ && r.path == path,
{
    ProtocolMessage::FileListRequest(
        FileListRequest { device_id, group_code: group_code.to_owned(), path },
    )
}

/// Takes the answer to a file list request: a file list, or an error.
pub fn expect_file_list(msg: ProtocolMessage) -> (r: Result<FileListResponse, String>)
    ensures
        msg matches ProtocolMessage::FileListResponse(resp) ==> r == Ok::<
            FileListResponse,
            String,
        >(resp),
        msg !is FileListResponse ==> (r matches Err(e) && e@ == "Unexpected response type"@),
{
    match msg {
        ProtocolMessage::FileListResponse(resp) => Ok(resp),
        _ => Err(String::from_str("Unexpected response type")),
    }
}

/// What to do with a file list request.
#[derive(Debug, PartialEq, Eq)]
pub enum FileListDecision {
    /// The requester is of another group, or asked for a folder outside the
    /// shared one: send this empty list.
    Deny(FileListResponse),
    /// List the shared folder, or `sub_path` below it, and send the list.
    Scan { sub_path: Option<String> },
}

/// Whether `p` has a `..` component (between `/` separators or the ends).
pub open spec fn has_parent_segment(p: Seq<char>) -> bool {
    exists|i: int|
        0 <= i && i + 2 <= p.len() && #[trigger] p[i] == '.' && p[i + 1] == '.' && (i == 0 || p[i
            - 1] == '/') && (i + 2 == p.len() || p[i + 2] == '/')
}

/// Whether the sub-path `p` stays below the folder it is joined to, on
/// every platform: it is relative (does not start with `/`), names no drive
/// or share (no `:`, no `\`), and has no `..` component.
pub open spec fn is_confined(p: Seq<char>) -> bool {
    &&& !(p.len() > 0 && p[0] == '/')
    &&& !p.contains(':')
    &&& !p.contains('\\')
    &&& !has_parent_segment(p)
}

/// Whether a requested sub-path stays below the shared folder.
pub fn is_confined_path(p: &str) -> (ok: bool)
    ensures
        ok == is_confined(p@),
{
    let n = p.unicode_len();
    let mut i: usize = 0;
    while i < n
        invariant
            n == p@.len(),
            0 <= i <= n,
            forall|j: int| 0 <= j < i ==> p@[j] != ':' && p@[j] != '\\',
            forall|j: int|
                0 <= j < i ==> !(j + 2 <= p@.len() && #[trigger] p@[j] == '.' && p@[j + 1] == '.'
                    && (j == 0 || p@[j - 1] == '/') && (j + 2 == p@.len() || p@[j + 2] == '/')),
        decreases n - i,
    {
        let c = p.get_char(i);
        if c == ':' || c == '\\' {
            assert(p@.contains(c));
            return false;
        }
        if c == '.' && i + 1 < n && p.get_char(i + 1) == '.' && (i == 0 || p.get_char(i - 1) == '/')
            && (i + 2 == n || p.get_char(i + 2) == '/') {
            assert(has_parent_segment(p@));
            return false;
        }
        i += 1;
    }
    if n > 0 && p.get_char(0) == '/' {
        return false;
    }
    true
}

/// Exactly the relative sub-paths made of ordinary segments stay below the
/// shared folder: a path is confined when, and only when, it does not start
/// with `/`, holds no `:` and no backslash, and no segment of it is `..`.
/// Any other character (spaces, dots inside names, letters of any script)
/// is allowed.
pub proof fn lemma_confined_iff_ordinary_segments(p: Seq<char>)
    ensures
        is_confined(p) <==> {
            &&& !(p.len() > 0 && p[0] == '/')
            &&& forall|i: int| 0 <= i < p.len() ==> p[i] != ':' && p[i] != '\\'
            &&& forall|i: int|
                0 <= i && i + 2 <= p.len() && (i == 0 || p[i - 1] == '/') && (i + 2 == p.len()
                    || p[i + 2] == '/') ==> !(#[trigger] p[i] == '.' && p[i + 1] == '.')
        },
{
    if !p.contains(':') && !p.contains('\\') {
        assert forall|i: int| 0 <= i < p.len() implies p[i] != ':' && p[i] != '\\' by {
            if p[i] == ':' {
                assert(p.contains(':'));
            }
            if p[i] == '\\' {
                assert(p.contains('\\'));
            }
        }
    }
}

/// A request of the device's group for a relative sub-folder made of
/// ordinary segments is served with exactly that sub-path, whatever
/// characters (such as spaces) its segments hold.
pub proof fn lemma_ordinary_subfolders_are_served(
    req: FileListRequest,
    local_group_code: Seq<char>,
    p: Seq<char>,
)
    requires
        req.group_code@ == local_group_code,
        req.path matches Some(q) && q@ == p,
        !(p.len() > 0 && p[0] == '/'),
        forall|i: int| 0 <= i < p.len() ==> p[i] != ':' && p[i] != '\\',
        forall|i: int|
            0 <= i && i + 2 <= p.len() && (i == 0 || p[i - 1] == '/') && (i + 2 == p.len() || p[i
                + 2] == '/') ==> !(#[trigger] p[i] == '.' && p[i + 1] == '.'),
    ensures
        is_confined(p),
{
    lemma_confined_iff_ordinary_segments(p);
}

/// Decides on a message that should be a file list request: a request with
/// the device's own group code (compared as it is, an empty code included)
/// for the shared folder or a sub-path that stays below it is served; any
/// other gets an empty list.
pub fn decide_file_list(
    msg: &ProtocolMessage,
    local_group_code: &str,
    device_id: u128,
    display_name: &str,
) -> (r: Result<FileListDecision, String>)
    ensures
        msg !is FileListRequest ==> (r matches Err(e) && e@ == "Expected FileListRequest"@),
        msg matches ProtocolMessage::FileListRequest(req) ==> {
            let served = req.group_code@ == local_group_code@ && match req.path {
                Some(p) => is_confined(p@),
                None => true,
            };
            &&& !served ==> (r matches Ok(FileListDecision::Deny(resp)) && resp.device_id
                == device_id && resp.display_name@ == display_name@ && resp.files@.len() == 0
                && resp.path@ == Seq::<char>::empty())
            &&& served ==> r == Ok::<FileListDecision, String>(
                FileListDecision::Scan { sub_path: req.path },
            )
        },
{
    match msg {
        ProtocolMessage::FileListRequest(req) => {
            let confined = match &req.path {
                Some(p) => is_confined_path(p.as_str()),
                None => true,
            };
            if !crate::text::str_equal(req.group_code.as_str(), local_group_code) || !confined {
                return Ok(
                    FileListDecision::Deny(
                        FileListResponse {
                            device_id,
                            display_name: display_name.to_owned(),
                            files: Vec::new(),
                            path: String::new(),
                        },
                    ),
                );
            }
            Ok(FileListDecision::Scan { sub_path: req.path.clone() })
        },
        _ => Err(String::from_str("Expected FileListRequest")),
    }
}

/// The list of `files` found under `path`.
pub fn file_list_response(
    device_id: u128,
    display_name: &str,
    files: Vec<FileInfo>,
    path: String,
) -> (r: FileListResponse)
    ensures
        r.device_id == device_id,
        r.display_name@ == display_name@,
        r.path == path,
        r.files@.len() == files@.len(),
        forall|i: int| 0 <= i < files@.len() ==> #[trigger] r.files@[i] == metadata_of(files@[i]),
{
    FileListResponse {
        device_id,
        display_name: display_name.to_owned(),
        files: files_metadata(files),
        path,
    }
}

} // verus!
