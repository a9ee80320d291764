//! Path sanitization for POSIX-style shell tooling on Windows.

use vstd::prelude::*;
use vstd::string::StrSliceExecFns;

use crate::strutil::concat3;

verus! {

/// An ASCII letter, as drive letters are.
pub open spec fn is_ascii_letter(c: char) -> bool {
    ('a' <= c && c <= 'z') || ('A' <= c && c <= 'Z')
}

/// A path separator as Windows accepts it.
pub open spec fn is_path_slash(c: char) -> bool {
    c == '/' || c == '\\'
}

/// Whether the path starts with a Windows drive prefix
/// `<letter>:<slash>`.
pub open spec fn has_drive_prefix(s: Seq<char>) -> bool {
    s.len() >= 3 && is_ascii_letter(s[0]) && s[1] == ':' && is_path_slash(s[2])
}

/// The shape a Windows path must take before a POSIX-style shell
/// tool accepts it: `C:/a/b` becomes `/C/a/b`; any path without a
/// drive prefix passes through unchanged.
pub open spec fn sanitized_path(s: Seq<char>) -> Seq<char> {
    if has_drive_prefix(s) {
        seq!['/', s[0]] + s.subrange(2, s.len() as int)
    } else {
        s
    }
}

/// Whether `c` is an ASCII letter.
fn is_ascii_letter_exec(c: char) -> (r: bool)
    ensures
        r == is_ascii_letter(c),
{
    ('a' <= c && c <= 'z') || ('A' <= c && c <= 'Z')
}

/// Rewrites a Windows drive-prefixed path for POSIX-style shell
/// tooling, and returns any other path unchanged.
pub fn sanitize_path(s: &str) -> (r: String)
    ensures
        r@ == sanitized_path(s@),
{
    let len = s.unicode_len();
    if len >= 3 {
        let c0 = s.get_char(0);
        let c1 = s.get_char(1);
        let c2 = s.get_char(2);
        if is_ascii_letter_exec(c0) && c1 == ':' && (c2 == '/' || c2 == '\\') {
            let drive = s.substring_char(0, 1);
            let rest = s.substring_char(2, len);
            let r = concat3("/", drive, rest);
            proof {
                reveal_strlit("/");
                assert(r@ =~= sanitized_path(s@));
            }
            return r;
        }
    }
    s.to_owned()
}

} // verus!
