//! Which files the periodic cleanup removes.

use vstd::prelude::*;
use vstd::string::*;
use crate::text::same_text;

verus! {

/// Seconds between two rounds of cleanup.
pub const CLEANUP_INTERVAL_SECS: u64 = 60;

/// Whether a file of this name has the extension `log`: the name ends in
/// `.log` and something stands before that dot.
pub open spec fn has_log_extension(name: Seq<char>) -> bool {
    name.len() > 4 && name.skip(name.len() - 4) == ".log"@
}

/// Whether the cleanup removes a file called `name`.
pub fn is_log_file_name(name: &str) -> (is_log: bool)
    ensures
        is_log == has_log_extension(name@),
{
    let len: usize = name.unicode_len();
    if len <= 4 {
        return false;
    }
    proof {
        assert(name@.subrange(len - 4, len as int) =~= name@.skip(len - 4));
    }
    same_text(name.substring_char(len - 4, len), ".log")
}

} // verus!
