//! Assembly of the external player invocation: the binary name and its
//! argument order for playing one recording, routed either to a configured
//! named sink or to the default output.

use vstd::prelude::*;
use vstd::string::StringExecFns;

verus! {

/// The external player binary the controller invokes.
pub open spec fn player_binary_view() -> Seq<char> {
    "pw-play"@
}

/// The full command line (binary first) that plays `path`: routed to the
/// named sink when one is configured, to the default output otherwise.
pub open spec fn spec_playback_command(sink: Option<Seq<char>>, path: Seq<char>) -> Seq<
    Seq<char>,
> {
    match sink {
        Some(s) => seq![player_binary_view(), "--target"@, s, path],
        None => seq![player_binary_view(), path],
    }
}

pub fn playback_command(sink: &Option<String>, path: &str) -> (argv: Vec<String>)
    ensures
        argv.deep_view() == spec_playback_command(sink.deep_view(), path@),
{
    let mut argv: Vec<String> = Vec::new();
    argv.push("pw-play".to_owned());
    match sink {
        Some(s) => {
            argv.push("--target".to_owned());
            argv.push(s.clone());
        },
        None => {},
    }
    argv.push(path.to_owned());
    proof {
        assert(argv.deep_view() =~= spec_playback_command(sink.deep_view(), path@));
    }
    argv
}

} // verus!
