//! Names used when a folder is sent as a zip archive.

use vstd::prelude::*;
use crate::text::push_char;

verus! {

/// `path` with every backslash turned into a forward slash.
pub open spec fn with_forward_slashes(path: Seq<char>) -> Seq<char> {
    Seq::new(path.len(), |i: int| if path[i] == '\\' { '/' } else { path[i] })
}

/// The name of an archive entry for a relative path: separators are
/// written as forward slashes, as zip archives want them.
pub fn zip_entry_name(path: &str) -> (name: String)
    ensures
        name@ == with_forward_slashes(path@),
{
    let n = path.unicode_len();
    let mut out = String::new();
    let mut i: usize = 0;
    while i < n
        invariant
            n == path@.len(),
            0 <= i <= n,
            out@ == with_forward_slashes(path@.take(i as int)),
        decreases n - i,
    {
        let c = path.get_char(i);
        if c == '\\' {
            push_char(&mut out, '/');
        } else {
            push_char(&mut out, c);
        }
        proof {
            assert(out@ =~= with_forward_slashes(path@.take(i + 1)));
        }
        i += 1;
    }
    proof {
        assert(path@.take(n as int) =~= path@);
    }
    out
}

/// The file name of the archive made of the folder `folder_name`.
pub fn archive_file_name(folder_name: &str) -> (name: String)
    ensures
        name@ == folder_name@ + ".zip"@,
{
    let mut s = String::from_str(folder_name);
    s.append(".zip");
    s
}

} // verus!
