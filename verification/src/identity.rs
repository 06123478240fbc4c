//! Identity policy: which command opens a capsule's browser surface.

use crate::text::conjoin;
use vstd::prelude::*;

verus! {

/// The browser profile directory of a capsule.
pub open spec fn profile_dir_text(capsule_id: Seq<char>) -> Seq<char> {
    "/tmp/nexum/profiles/"@ + capsule_id
}

/// The command that opens `url` for a capsule.
pub open spec fn browser_launch_text(url: Seq<char>, capsule_id: Seq<char>, collision: bool) -> Seq<
    char,
> {
    if collision {
        "firefox --profile "@ + profile_dir_text(capsule_id) + " "@ + url
    } else {
        "xdg-open "@ + url
    }
}

/// The browser profile directory of a capsule: `/tmp/nexum/profiles/` and its id.
pub fn profile_dir_for_capsule(capsule_id: &str) -> (dir: String)
    ensures
        dir@ == profile_dir_text(capsule_id@),
{
    conjoin("/tmp/nexum/profiles/", capsule_id)
}

/// The default opener, or Firefox on the capsule's own profile where identities
/// collide.
pub fn browser_launch_command(url: &str, capsule_id: &str, collision_detected: bool) -> (command:
    String)
    ensures
        command@ == browser_launch_text(url@, capsule_id@, collision_detected),
{
    if collision_detected {
        let mut command = String::from_str("firefox --profile ");
        let dir = profile_dir_for_capsule(capsule_id);
        command.append(dir.as_str());
        command.append(" ");
        command.append(url);
        return command;
    }
    conjoin("xdg-open ", url)
}

} // verus!
