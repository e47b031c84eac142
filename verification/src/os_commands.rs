//! The platform's "open this path" command line. Only the freedesktop opener
//! is built here; other platforms would swap in their own spelling.

use vstd::prelude::*;
use vstd::string::StringExecFns;

verus! {

/// The shell command line that opens `path`.
pub open spec fn open_command_spec(path: Seq<char>) -> Seq<char> {
    "xdg-open \""@ + path + "\""@
}

/// The shell command that opens `path` with the desktop's default handler.
pub fn open_command(path: &str) -> (r: String)
    ensures
        r@ == open_command_spec(path@),
{
    let mut s = String::from_str("xdg-open \"");
    s.append(path);
    s.append("\"");
    s
}

} // verus!
