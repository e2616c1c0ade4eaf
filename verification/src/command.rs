//! The command lines of the supported requests.
//!
//! Commands are ASCII text, one per line, terminated by `\n`; arguments are
//! space-separated. Playlist names that need the protocol's quoting rules
//! are the caller's responsibility: the builders splice the name in as
//! given.

use vstd::prelude::*;
use vstd::string::StringExecFns;

verus! {

/// The command line that lists the current queue.
pub fn playlist_command() -> (r: String)
    ensures
        r@ == "playlist\n"@,
{
    "playlist\n".to_owned()
}

/// The command line that clears the active queue.
pub fn clear_command() -> (r: String)
    ensures
        r@ == "clear\n"@,
{
    "clear\n".to_owned()
}

/// The command line that fetches the status snapshot.
pub fn status_command() -> (r: String)
    ensures
        r@ == "status\n"@,
{
    "status\n".to_owned()
}

/// The command line that fetches the statistics counters.
pub fn stats_command() -> (r: String)
    ensures
        r@ == "stats\n"@,
{
    "stats\n".to_owned()
}

/// The command line that fetches the current song's fields.
pub fn currentsong_command() -> (r: String)
    ensures
        r@ == "currentsong\n"@,
{
    "currentsong\n".to_owned()
}

/// The command line that lists a named saved playlist's contents.
pub fn list_playlist_command(name: &str) -> (r: String)
    ensures
        r@ == "listplaylist "@ + name@ + "\n"@,
{
    let mut s = "listplaylist ".to_owned();
    s.append(name);
    s.append("\n");
    s
}

/// The command line that loads a named saved playlist into the queue.
pub fn load_playlist_command(name: &str) -> (r: String)
    ensures
        r@ == "load "@ + name@ + "\n"@,
{
    let mut s = "load ".to_owned();
    s.append(name);
    s.append("\n");
    s
}

} // verus!
