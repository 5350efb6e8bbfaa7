//! The download executor's logic: the command line handed to the external
//! download tool and the reading of what it printed.
use vstd::prelude::*;
use crate::text::{decimal, is_substring, str_contains, u64_to_decimal};

verus! {

/// The directive that downloads one workshop item of the game (its app id
/// is 294100); the item's id follows it.
pub const DOWNLOAD_DIRECTIVE: &'static str = "+workshop_download_item 294100";

/// Printed once the tool is connected anonymously.
pub const CONNECT_MARKER: &'static str = "Connecting anonymously to Steam Public...OK";

/// Printed once the client configuration is received.
pub const CLIENT_CONFIG_MARKER: &'static str = "Waiting for client config...OK";

/// Printed once the user information is received.
pub const USER_INFO_MARKER: &'static str = "Waiting for user info...OK";

/// Printed for an item whose content was downloaded.
pub const CONTENT_MARKER: &'static str = "Success. Downloaded item";

/// The number of attempts after which a command that downloads nothing is
/// given up.
pub const ADMIN_ATTEMPT_LIMIT: usize = 5;

/// The text reported when a command was given up.
pub const EXHAUSTED_MESSAGE: &'static str = "Error: Failed to install";

pub open spec fn is_download_command(c: Seq<char>) -> bool {
    is_substring(DOWNLOAD_DIRECTIVE@, c)
}

/// All three session markers are present.
pub open spec fn session_ok(out: Seq<char>) -> bool {
    is_substring(CONNECT_MARKER@, out) && is_substring(CLIENT_CONFIG_MARKER@, out)
        && is_substring(USER_INFO_MARKER@, out)
}

pub open spec fn content_ok(out: Seq<char>) -> bool {
    is_substring(CONTENT_MARKER@, out)
}

/// What one attempt of the tool amounts to.
#[derive(Clone, Copy, Debug, PartialEq, Eq, Structural)]
pub enum Verdict {
    /// Run the same command again.
    Retry,
    /// A healthy session that downloaded content.
    Success,
    /// A healthy session that downloaded nothing.
    Failure,
    /// A command that downloads nothing reached the attempt limit.
    Exhausted,
}

/// The verdict on attempt number `attempt` (counted from 1) of command `c`
/// that printed `out`.
pub open spec fn verdict(c: Seq<char>, out: Seq<char>, attempt: nat) -> Verdict {
    if session_ok(out) && content_ok(out) {
        Verdict::Success
    } else if is_download_command(c) && session_ok(out) {
        Verdict::Failure
    } else if is_download_command(c) {
        Verdict::Retry
    } else if attempt >= ADMIN_ATTEMPT_LIMIT {
        Verdict::Exhausted
    } else {
        Verdict::Retry
    }
}

/// Reads the output of one attempt of `command`.
pub fn classify_attempt(command: &str, output: &str, attempt: usize) -> (v: Verdict)
    ensures
        v == verdict(command@, output@, attempt as nat),
{
    let session = str_contains(output, CONNECT_MARKER) && str_contains(
        output,
        CLIENT_CONFIG_MARKER,
    ) && str_contains(output, USER_INFO_MARKER);
    let download = str_contains(command, DOWNLOAD_DIRECTIVE);
    if session && str_contains(output, CONTENT_MARKER) {
        Verdict::Success
    } else if download && session {
        Verdict::Failure
    } else if download {
        Verdict::Retry
    } else if attempt >= ADMIN_ATTEMPT_LIMIT {
        Verdict::Exhausted
    } else {
        Verdict::Retry
    }
}

/// An output with the three session markers and the content marker is a
/// success, whatever the command and the attempt; an output of a download
/// command that lacks any session marker is retried, never reported as a
/// failure.
pub proof fn lemma_download_classification(c: Seq<char>, out: Seq<char>, attempt: nat)
    ensures
        session_ok(out) && content_ok(out) ==> verdict(c, out, attempt) == Verdict::Success,
        is_download_command(c) && !session_ok(out) ==> verdict(c, out, attempt)
            == Verdict::Retry,
{
}

/// The ids written in decimal, one download directive before each.
pub open spec fn directives(ids: Seq<u64>) -> Seq<char>
    decreases ids.len(),
{
    if ids.len() == 0 {
        Seq::empty()
    } else if ids.len() == 1 {
        decimal(ids[0] as nat)
    } else {
        directives(ids.drop_last()) + " "@ + DOWNLOAD_DIRECTIVE@ + " "@ + decimal(
            ids.last() as nat,
        )
    }
}

/// The arguments that download `ids` in one run of the tool.
pub open spec fn download_command(ids: Seq<u64>) -> Seq<char> {
    DOWNLOAD_DIRECTIVE@ + " "@ + directives(ids)
}

/// Builds `download_command(ids)`.
pub fn gen_download_command(ids: &[u64]) -> (r: String)
    ensures
        r@ == download_command(ids@),
{
    let mut r = String::from_str(DOWNLOAD_DIRECTIVE);
    r.append(" ");
    let mut i: usize = 0;
    while i < ids.len()
        invariant
            0 <= i <= ids@.len(),
            r@ == DOWNLOAD_DIRECTIVE@ + " "@ + directives(ids@.take(i as int)),
        decreases ids@.len() - i,
    {
        let ghost before = r@;
        assert(ids@.take(i as int + 1).drop_last() == ids@.take(i as int));
        if i > 0 {
            r.append(" ");
            r.append(DOWNLOAD_DIRECTIVE);
            r.append(" ");
        }
        let d = u64_to_decimal(ids[i]);
        r.append(d.as_str());
        proof {
            if i == 0 {
                assert(directives(ids@.take(1)) == decimal(ids@[0] as nat));
                assert(directives(ids@.take(0)) == Seq::<char>::empty());
                assert(before + d@ == DOWNLOAD_DIRECTIVE@ + " "@ + directives(ids@.take(1)));
            } else {
                assert(r@ == before + " "@ + DOWNLOAD_DIRECTIVE@ + " "@ + d@);
                assert(r@ == DOWNLOAD_DIRECTIVE@ + " "@ + directives(ids@.take(i as int + 1)));
            }
        }
        i = i + 1;
    }
    assert(ids@.take(ids@.len() as int) == ids@);
    r
}

/// The whole argument line of one run: through `env`, the tool starts with
/// its home set to the configuration directory, logs in anonymously, runs
/// the directives `c` and quits. Arguments are separated by single spaces.
pub open spec fn command_line(config: Seq<char>, tool: Seq<char>, c: Seq<char>) -> Seq<char> {
    "HOME="@ + config + " "@ + tool + " +login anonymous "@ + c + " +quit"@
}

/// Builds `command_line(config, tool, c)`.
pub fn gen_command_line(config: &str, tool: &str, c: &str) -> (r: String)
    ensures
        r@ == command_line(config@, tool@, c@),
{
    let mut r = String::from_str("HOME=");
    r.append(config);
    r.append(" ");
    r.append(tool);
    r.append(" +login anonymous ");
    r.append(c);
    r.append(" +quit");
    r
}

} // verus!
