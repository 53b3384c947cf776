//! What is known of a shared file, and what of it is told to peers.

use vstd::prelude::*;
use crate::message::FileMetadata;

verus! {

/// A file (or folder) below the shared folder.
#[derive(Clone, Debug, PartialEq, Eq)]
pub struct FileInfo {
    pub name: String,
    pub relative_path: String,
    pub absolute_path: String,
    pub size: u64,
    pub is_directory: bool,
    pub modified: String,
    pub mime_type: String,
    pub checksum: Option<String>,
}

/// The metadata told to peers of `f`: everything but its absolute path.
pub open spec fn metadata_of(f: FileInfo) -> FileMetadata {
    FileMetadata {
        name: f.name,
        path: f.relative_path,
        size: f.size,
        is_directory: f.is_directory,
        modified: f.modified,
        checksum: f.checksum,
        mime_type: f.mime_type,
    }
}

impl FileInfo {
    /// A file of unknown type (`application/octet-stream`), with no checksum.
    pub fn new(
        name: String,
        relative_path: String,
        absolute_path: String,
        size: u64,
        is_directory: bool,
        modified: String,
    ) -> (f: FileInfo)
        ensures
            f.name == name,
            f.relative_path == relative_path,
            f.absolute_path == absolute_path,
            f.size == size,
            f.is_directory == is_directory,
            f.modified == modified,
            f.mime_type@ == "application/octet-stream"@,
            f.checksum is None,
    {
        FileInfo {
            name,
            relative_path,
            absolute_path,
            size,
            is_directory,
            modified,
            mime_type: String::from_str("application/octet-stream"),
            checksum: None,
        }
    }

    /// The metadata told to peers of this file.
    pub fn into_metadata(self) -> (m: FileMetadata)
        ensures
            m == metadata_of(self),
    {
        FileMetadata {
            name: self.name,
            path: self.relative_path,
            size: self.size,
            is_directory: self.is_directory,
            modified: self.modified,
            checksum: self.checksum,
            mime_type: self.mime_type,
        }
    }
}

/// The metadata of each file, in order.
pub fn files_metadata(files: Vec<FileInfo>) -> (out: Vec<FileMetadata>)
    ensures
        out@.len() == files@.len(),
        forall|i: int| 0 <= i < files@.len() ==> #[trigger] out@[i] == metadata_of(files@[i]),
{
    let mut out: Vec<FileMetadata> = Vec::new();
    let mut rest = files;
    let ghost all = rest@;
    let n = rest.len();
    while rest.len() > 0
        invariant
            n == all.len(),
            out@.len() + rest@.len() == n,
            rest@ == all.skip(out@.len() as int),
            forall|j: int| 0 <= j < out@.len() ==> #[trigger] out@[j] == metadata_of(all[j]),
        decreases rest@.len(),
    {
        let f = rest.remove(0);
        proof {
            assert(f == all[out@.len() as int]);
        }
        out.push(f.into_metadata());
        proof {
            assert(rest@ =~= all.skip(out@.len() as int));
        }
    }
    out
}

/// Whether an entry of the shared folder is hidden: its name is known and
/// starts with a dot.
pub open spec fn is_hidden(name: Option<Seq<char>>) -> bool {
    name matches Some(n) && n.len() > 0 && n[0] == '.'
}

/// Whether the entry named `name` is left out of listings.
pub fn is_hidden_name(name: Option<&str>) -> (r: bool)
    ensures
        r == is_hidden(
            match name {
                Some(n) => Some(n@),
                None => None,
            },
        ),
{
    match name {
        Some(n) => {
            if n.unicode_len() == 0 {
                false
            } else {
                n.get_char(0) == '.'
            }
        },
        None => false,
    }
}

/// A name that stands for one entry of a folder on every platform: not
/// empty, without `/`, `\` or `:`, and neither `.` nor `..`, so that
/// joining it to a folder stays inside that folder.
pub open spec fn is_safe_name(n: Seq<char>) -> bool {
    &&& n.len() > 0
    &&& !n.contains('/')
    &&& !n.contains('\\')
    &&& !n.contains(':')
    &&& n != seq!['.']
    &&& n != seq!['.', '.']
}

/// Text that can be a normal path component: not empty, and neither `.`
/// nor `..`.
pub open spec fn is_component_text(n: Seq<char>) -> bool {
    &&& n.len() > 0
    &&& n != seq!['.']
    &&& n != seq!['.', '.']
}

/// `n` occurs in `p` as a run of consecutive characters.
pub open spec fn is_substring(n: Seq<char>, p: Seq<char>) -> bool {
    exists|i: int| 0 <= i && i + n.len() <= p.len() && #[trigger] p.subrange(i, i + n.len()) == n
}

/// A path whose only separator is `/` on every platform: it holds no `\`
/// and no `:` (so it has no drive or verbatim prefix) and does not start
/// with two slashes (so it names no network share).
pub open spec fn is_slash_path(p: Seq<char>) -> bool {
    &&& !p.contains('\\')
    &&& !p.contains(':')
    &&& !(p.len() >= 2 && p[0] == '/' && p[1] == '/')
}

/// The characters after the last `/` of `p` (all of `p` where it has none).
pub open spec fn trailing_segment(p: Seq<char>) -> Seq<char>
    decreases p.len(),
{
    if p.len() == 0 || p.last() == '/' {
        seq![]
    } else {
        trailing_segment(p.drop_last()).push(p.last())
    }
}

/// The last component of a `/`-separated path, as `Path::file_name` gives
/// it: trailing slashes and `.` components are passed over, and a path that
/// ends in `..` (or has no component) has none.
pub open spec fn last_component(p: Seq<char>) -> Option<Seq<char>>
    decreases p.len(),
{
    if p.len() == 0 {
        None
    } else if p.last() == '/' {
        last_component(p.drop_last())
    } else {
        let seg = trailing_segment(p);
        if seg == seq!['.'] {
            last_component(p.subrange(0, p.len() - 1))
        } else if seg == seq!['.', '.'] {
            None
        } else {
            Some(seg)
        }
    }
}

/// The trailing segment of `p` ends `p` and holds no `/`.
proof fn lemma_trailing_segment(p: Seq<char>)
    ensures
        trailing_segment(p).len() <= p.len(),
        trailing_segment(p) == p.subrange(p.len() - trailing_segment(p).len(), p.len() as int),
        !trailing_segment(p).contains('/'),
        p.len() > 0 && p.last() != '/' ==> trailing_segment(p).len() > 0,
    decreases p.len(),
{
    if p.len() > 0 && p.last() != '/' {
        lemma_trailing_segment(p.drop_last());
        let t = trailing_segment(p.drop_last());
        assert(trailing_segment(p) =~= p.subrange(p.len() - t.len() - 1, p.len() as int));
        assert forall|i: int| 0 <= i < trailing_segment(p).len() implies trailing_segment(p)[i]
            != '/' by {
            if i < t.len() {
                assert(trailing_segment(p)[i] == t[i]);
            }
        }
    }
}

/// The last component of a `/`-separated path is a safe name that occurs in
/// the path.
pub proof fn lemma_last_component_is_safe(p: Seq<char>)
    requires
        is_slash_path(p),
    ensures
        last_component(p) matches Some(c) ==> is_safe_name(c) && is_substring(c, p),
    decreases p.len(),
{
    if p.len() > 0 {
        if p.last() == '/' {
            let q = p.drop_last();
            assert(is_slash_path(q)) by {
                assert forall|i: int| 0 <= i < q.len() implies q[i] != '\\' && q[i] != ':' by {
                    assert(q[i] == p[i]);
                }
            }
            lemma_last_component_is_safe(q);
            if let Some(c) = last_component(q) {
                let i = choose|i: int| 0 <= i && i + c.len() <= q.len() && #[trigger] q.subrange(
                    i,
                    i + c.len(),
                ) == c;
                assert(p.subrange(i, i + c.len()) == c);
            }
        } else {
            let seg = trailing_segment(p);
            lemma_trailing_segment(p);
            if seg == seq!['.'] {
                let q = p.subrange(0, p.len() - 1);
                assert(is_slash_path(q)) by {
                    assert forall|i: int| 0 <= i < q.len() implies q[i] != '\\' && q[i] != ':' by {
                        assert(q[i] == p[i]);
                    }
                }
                lemma_last_component_is_safe(q);
                if let Some(c) = last_component(q) {
                    let i = choose|i: int|
                        0 <= i && i + c.len() <= q.len() && #[trigger] q.subrange(i, i + c.len())
                            == c;
                    assert(p.subrange(i, i + c.len()) == c);
                }
            } else if seg != seq!['.', '.'] {
                let k = p.len() - seg.len();
                assert(p.subrange(k, k + seg.len()) == seg);
                assert forall|i: int| 0 <= i < seg.len() implies seg[i] != '\\' && seg[i] != ':' by {
                    assert(seg[i] == p[k + i]);
                }
            }
        }
    }
}

/// `std::path::Path::file_name` (with `OsStr::to_str`): the last normal
/// component of `path`, where it has one. A normal component is a part of
/// the path itself, never empty, never `.` or `..`. For a path whose only
/// separator is `/` on every platform, it is the component that
/// `last_component` describes. Beyond that, which characters separate
/// components depends on the platform (on Windows `\` does, and after a
/// verbatim prefix `/` does not), and is not stated.
#[verifier::external_body]
fn path_file_name(path: &str) -> (r: Option<String>)
    ensures
        r matches Some(name) ==> is_component_text(name@) && is_substring(name@, path@),
        is_slash_path(path@) ==> (r is Some <==> last_component(path@) is Some),
        is_slash_path(path@) && r is Some ==> r->Some_0@ == last_component(path@)->Some_0,
{
    std::path::Path::new(path).file_name().and_then(|n| n.to_str()).map(|n| n.to_string())
}

/// The last component of a path as a name, or `fallback` where there is none.
pub open spec fn name_or(p: Seq<char>, fallback: Seq<char>) -> Seq<char> {
    match last_component(p) {
        Some(c) => c,
        None => fallback,
    }
}

/// The last component of `path`, or `fallback` where it has none.
pub fn file_name_or(path: &str, fallback: &str) -> (name: String)
    ensures
        name@ == fallback@ || (is_component_text(name@) && is_substring(name@, path@)),
        is_slash_path(path@) ==> name@ == name_or(path@, fallback@),
{
    match path_file_name(path) {
        Some(n) => n,
        None => String::from_str(fallback),
    }
}

/// Whether `name` is a safe name for an entry of a folder.
pub fn is_safe_file_name(name: &str) -> (ok: bool)
    ensures
        ok == is_safe_name(name@),
{
    let n = name.unicode_len();
    if n == 0 {
        return false;
    }
    let mut i: usize = 0;
    while i < n
        invariant
            n == name@.len(),
            0 <= i <= n,
            forall|j: int| 0 <= j < i ==> name@[j] != '/' && name@[j] != '\\' && name@[j] != ':',
        decreases n - i,
    {
        let c = name.get_char(i);
        if c == '/' || c == '\\' || c == ':' {
            assert(name@.contains(c));
            return false;
        }
        i += 1;
    }
    if n == 1 && name.get_char(0) == '.' {
        assert(name@ =~= seq!['.']);
        return false;
    }
    if n == 2 && name.get_char(0) == '.' && name.get_char(1) == '.' {
        assert(name@ =~= seq!['.', '.']);
        return false;
    }
    proof {
        if name@ == seq!['.'] {
            assert(name@[0] == '.');
        }
        if name@ == seq!['.', '.'] {
            assert(name@[0] == '.' && name@[1] == '.');
        }
    }
    true
}

/// The RFC 3339 text (UTC) of the time `secs` seconds and `nanos`
/// nanoseconds after the Unix epoch, or `None` where the time is out of
/// chrono's range.
pub uninterp spec fn rfc3339_utc(secs: i64, nanos: u32) -> Option<Seq<char>>;

/// `chrono::DateTime::<Utc>::from_timestamp(secs, nanos)` followed by
/// `to_rfc3339`. The text is named, not stated.
#[verifier::external_body]
fn timestamp_rfc3339(secs: i64, nanos: u32) -> (r: Option<String>)
    ensures
        r is Some <==> rfc3339_utc(secs, nanos) is Some,
        r matches Some(t) ==> rfc3339_utc(secs, nanos) == Some(t@),
{
    chrono::DateTime::from_timestamp(secs, nanos).map(|d| d.to_rfc3339())
}

/// Whether `p` starts with `prefix`.
pub open spec fn starts_with(p: Seq<char>, prefix: Seq<char>) -> bool {
    prefix.len() <= p.len() && p.subrange(0, prefix.len() as int) == prefix
}

/// The path of `path` relative to the folder `root` it starts with: what
/// follows `root`, without the separator after it.
pub open spec fn relative_to(path: Seq<char>, root: Seq<char>) -> Seq<char> {
    let rest = path.skip(root.len() as int);
    if rest.len() > 0 && (rest[0] == '/' || rest[0] == '\\') {
        rest.skip(1)
    } else {
        rest
    }
}

/// The name text of an entry: its name, or empty where it has none.
pub open spec fn name_text(name: Option<Seq<char>>) -> Seq<char> {
    match name {
        Some(n) => n,
        None => Seq::<char>::empty(),
    }
}

/// Whether `p` starts with `prefix`.
fn has_prefix(p: &str, prefix: &str) -> (ok: bool)
    ensures
        ok == starts_with(p@, prefix@),
{
    let n = prefix.unicode_len();
    if n > p.unicode_len() {
        return false;
    }
    let mut i: usize = 0;
    while i < n
        invariant
            n == prefix@.len(),
            n <= p@.len(),
            0 <= i <= n,
            forall|j: int| 0 <= j < i ==> p@[j] == prefix@[j],
        decreases n - i,
    {
        if p.get_char(i) != prefix.get_char(i) {
            assert(p@.subrange(0, n as int)[i as int] != prefix@[i as int]);
            return false;
        }
        i += 1;
    }
    assert(p@.subrange(0, n as int) =~= prefix@);
    true
}

/// The entry of a folder listing for the path `path` found under `root`,
/// whose last component is `name`, of `size` bytes, last modified `secs`
/// seconds and `nanos` nanoseconds after the epoch. Hidden entries are left
/// out, and so are paths outside `root` and times out of the calendar's
/// range.
pub fn file_entry(
    root: &str,
    path: &str,
    name: Option<&str>,
    size: u64,
    is_directory: bool,
    modified_secs: i64,
    modified_nanos: u32,
) -> (r: Option<FileInfo>)
    ensures
        r is Some <==> !is_hidden(
            match name {
                Some(n) => Some(n@),
                None => None,
            },
        ) && starts_with(path@, root@) && rfc3339_utc(modified_secs, modified_nanos) is Some,
        r matches Some(f) ==> {
            &&& f.name@ == name_text(
                match name {
                    Some(n) => Some(n@),
                    None => None,
                },
            )
            &&& f.relative_path@ == relative_to(path@, root@)
            &&& f.absolute_path@ == path@
            &&& f.size == size
            &&& f.is_directory == is_directory
            &&& Some(f.modified@) == rfc3339_utc(modified_secs, modified_nanos)
            &&& f.mime_type@ == "application/octet-stream"@
            &&& f.checksum is None
        },
{
    if is_hidden_name(name) {
        return None;
    }
    if !has_prefix(path, root) {
        return None;
    }
    let modified = match timestamp_rfc3339(modified_secs, modified_nanos) {
        Some(t) => t,
        None => {
            return None;
        },
    };
    let n = path.unicode_len();
    let mut start = root.unicode_len();
    if start < n {
        let c = path.get_char(start);
        if c == '/' || c == '\\' {
            start = start + 1;
        }
    }
    let relative = path.substring_char(start, n).to_owned();
    proof {
        assert(relative@ =~= relative_to(path@, root@));
    }
    let name_string = match name {
        Some(t) => t.to_owned(),
        None => String::new(),
    };
    Some(
        FileInfo::new(
            name_string,
            relative,
            path.to_owned(),
            size,
            is_directory,
            modified,
        ),
    )
}

/// Only names that start with a dot are hidden: an entry without a name,
/// or whose name is empty or starts with any other character, is listed;
/// an entry whose name starts with `.` is not.
pub proof fn lemma_hidden_iff_dot_name(name: Option<Seq<char>>)
    ensures
        name is None ==> !is_hidden(name),
        forall|n: Seq<char>|
            name == Some(n) ==> (is_hidden(name) <==> (n.len() > 0 && n[0] == '.')),
{
}

/// A scanned entry is listed exactly when its name does not start with a
/// dot, its path lies under the root, and its time can be written: in
/// particular every entry under the root whose name starts with another
/// character (and whose time is in range) is listed, under that name, at
/// its path relative to the root.
pub proof fn lemma_visible_entries_are_listed(
    root: Seq<char>,
    path: Seq<char>,
    n: Seq<char>,
    secs: i64,
    nanos: u32,
)
    requires
        n.len() == 0 || n[0] != '.',
        root.len() <= path.len(),
        forall|i: int| 0 <= i < root.len() ==> path[i] == root[i],
        rfc3339_utc(secs, nanos) is Some,
    ensures
        !is_hidden(Some(n)),
        starts_with(path, root),
{
    assert(path.subrange(0, root.len() as int) =~= root);
}

/// What the forward-slash form of a path is, position by position: it is as
/// long as the path, each backslash becomes `/`, and every other character
/// stays as it is.
pub proof fn lemma_forward_slashes_exact(p: Seq<char>)
    ensures
        crate::archive::with_forward_slashes(p).len() == p.len(),
        forall|i: int|
            0 <= i < p.len() ==> (p[i] == '\\' ==> crate::archive::with_forward_slashes(p)[i]
                == '/') && (p[i] != '\\' ==> crate::archive::with_forward_slashes(p)[i] == p[i]),
{
}

} // verus!
