//! The daemon's line protocol: the command lines this controller writes
//! (`STATUS`, `START <path>`, `STOP`), newline framing, and the one reply
//! check the design pattern-matches — whether a `STATUS` reply contains
//! the marker that means the daemon is idle.

use vstd::prelude::*;
use vstd::string::StrSliceExecFns;
use vstd::string::StringExecFns;

verus! {

/// `pat` occurs in `s` starting at index `i`.
pub open spec fn contains_at(s: Seq<char>, pat: Seq<char>, i: int) -> bool {
    &&& 0 <= i
    &&& i + pat.len() <= s.len()
    &&& s.subrange(i, i + pat.len()) == pat
}

/// `pat` occurs somewhere in `s`.
pub open spec fn contains_pattern(s: Seq<char>, pat: Seq<char>) -> bool {
    exists|i: int| contains_at(s, pat, i)
}

/// `needle` occurs in `hay` starting at character index `i`.
fn matches_at(hay: &str, needle: &str, i: usize) -> (r: bool)
    requires
        i + needle@.len() <= hay@.len(),
    ensures
        r == contains_at(hay@, needle@, i as int),
{
    let n: usize = hay.unicode_len();
    let m: usize = needle.unicode_len();
    let mut j: usize = 0;
    while j < m
        invariant
            n == hay@.len(),
            m == needle@.len(),
            i + m <= n,
            j <= m,
            forall|k: int| 0 <= k < j ==> hay@[i + k] == needle@[k],
        decreases m - j,
    {
        if hay.get_char(i + j) != needle.get_char(j) {
            proof {
                assert(hay@.subrange(i as int, i + m)[j as int] == hay@[i + j]);
            }
            return false;
        }
        j += 1;
    }
    proof {
        assert(hay@.subrange(i as int, i + m) =~= needle@);
    }
    true
}

/// Whether `needle` occurs anywhere in `hay`, by character.
pub fn str_contains(hay: &str, needle: &str) -> (r: bool)
    ensures
        r == contains_pattern(hay@, needle@),
{
    let n: usize = hay.unicode_len();
    let m: usize = needle.unicode_len();
    if m > n {
        proof {
            assert forall|k: int| !contains_at(hay@, needle@, k) by {};
        }
        return false;
    }
    if m == 0 {
        proof {
            assert(hay@.subrange(0, 0) =~= needle@);
            assert(contains_at(hay@, needle@, 0));
        }
        return true;
    }
    let mut i: usize = 0;
    while i <= n - m
        invariant
            n == hay@.len(),
            m == needle@.len(),
            1 <= m <= n,
            i <= n - m + 1,
            forall|k: int| 0 <= k < i ==> !contains_at(hay@, needle@, k),
        decreases n - m - i + 1,
    {
        if matches_at(hay, needle, i) {
            return true;
        }
        i += 1;
    }
    proof {
        assert forall|k: int| !contains_at(hay@, needle@, k) by {
            if 0 <= k < i {
            } else if k >= i {
                assert(k + m > n);
            }
        }
    }
    false
}

/// The marker inside a `STATUS` reply that means the daemon is idle and
/// ready to accept `START`.
pub open spec fn listening_marker() -> Seq<char> {
    "Listening"@
}

/// The daemon reply `line` signals that the daemon is idle.
pub open spec fn signals_listening(line: Seq<char>) -> bool {
    contains_pattern(line, listening_marker())
}

/// The one pattern-matched daemon reply: a `STATUS` response counts as
/// "idle" exactly when it contains the listening marker as a substring.
pub fn response_signals_listening(line: &str) -> (r: bool)
    ensures
        r == signals_listening(line@),
{
    str_contains(line, "Listening")
}

/// The command line that asks the daemon whether it is idle.
pub open spec fn status_command_view() -> Seq<char> {
    "STATUS"@
}

/// The command line that starts a recording into `path`.
pub open spec fn start_command_view(path: Seq<char>) -> Seq<char> {
    "START "@ + path
}

/// The command line that stops the in-progress recording.
pub open spec fn stop_command_view() -> Seq<char> {
    "STOP"@
}

pub fn status_command() -> (r: String)
    ensures
        r@ == status_command_view(),
{
    "STATUS".to_owned()
}

pub fn start_command(path: &str) -> (r: String)
    ensures
        r@ == start_command_view(path@),
{
    let mut r = "START ".to_owned();
    r.append(path);
    r
}

pub fn stop_command() -> (r: String)
    ensures
        r@ == stop_command_view(),
{
    "STOP".to_owned()
}

/// A command as it goes onto the wire: the line terminated by a newline.
pub open spec fn framed_view(cmd: Seq<char>) -> Seq<char> {
    cmd + "\n"@
}

pub fn frame_command(cmd: &str) -> (r: String)
    ensures
        r@ == framed_view(cmd@),
{
    let mut r = cmd.to_owned();
    r.append("\n");
    r
}

} // verus!
