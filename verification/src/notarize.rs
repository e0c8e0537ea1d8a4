//! Decisions of macOS notarization: its configuration, how the notary
//! service's status reads, and when the blocking workflow stops.

use vstd::prelude::*;

use vstd::utf8::encode_utf8;

use crate::build_mode::Platform;
use crate::json_codec::{json_document_parses, json_field_string, json_string_field, parse_json_document};
use crate::toml_doc::opt_text;

verus! {

pub const REQUEST_FILE: &'static str = ".notarization-request";

/// The number of status polls of the blocking workflow, 30 seconds apart.
pub const MAX_POLL_ATTEMPTS: u32 = 60;

/// Configuration for notarization.
pub struct NotarizeConfig {
    /// Apple ID for notarization
    pub apple_id: String,
    /// Team ID
    pub team_id: String,
    /// App-specific password (or keychain reference)
    pub password: String,
    /// Enable verbose output
    pub verbose: bool,
}

/// Why notarization cannot go ahead.
#[derive(Debug, Clone, Copy, PartialEq, Eq, Structural)]
pub enum NotarizeError {
    /// `APPLE_ID` is not set.
    MissingAppleId,
    /// `APPLE_TEAM_ID` is not set.
    MissingTeamId,
    /// Notarization runs on macOS only.
    NotMacOS,
}

impl NotarizeConfig {
    /// The configuration from the values of `APPLE_ID`, `APPLE_TEAM_ID` and
    /// `APPLE_APP_PASSWORD`; the password falls back to the keychain entry.
    pub fn from_values(apple_id: Option<String>, team_id: Option<String>, password: Option<String>) -> (r:
        Result<Self, NotarizeError>)
        ensures
            apple_id is None ==> r == Err::<Self, NotarizeError>(NotarizeError::MissingAppleId),
            apple_id is Some && team_id is None ==> r == Err::<Self, NotarizeError>(
                NotarizeError::MissingTeamId,
            ),
            apple_id is Some && team_id is Some ==> (r matches Ok(c) && c.apple_id
                == apple_id.unwrap() && c.team_id == team_id.unwrap() && !c.verbose && c.password@
                == (match password {
                Some(p) => p@,
                None => "@keychain:AC_PASSWORD"@,
            })),
    {
        let apple_id = match apple_id {
            Some(a) => a,
            None => {
                return Err(NotarizeError::MissingAppleId);
            },
        };
        let team_id = match team_id {
            Some(t) => t,
            None => {
                return Err(NotarizeError::MissingTeamId);
            },
        };
        let password = match password {
            Some(p) => p,
            None => "@keychain:AC_PASSWORD".to_string(),
        };
        Ok(NotarizeConfig { apple_id, team_id, password, verbose: false })
    }
}

/// Notarization subcommand.
#[derive(Debug, Clone, Copy, PartialEq, Eq, Structural)]
pub enum NotarizeAction {
    Submit,
    Status,
    Staple,
    /// Submit, wait, staple (blocking).
    Full,
}

/// Notarization runs on macOS only; elsewhere nothing is done.
pub fn run(action: NotarizeAction, platform: Platform) -> (r: Result<NotarizeAction, NotarizeError>)
    ensures
        platform == Platform::MacOS ==> r == Ok::<NotarizeAction, NotarizeError>(action),
        platform != Platform::MacOS ==> r == Err::<NotarizeAction, NotarizeError>(
            NotarizeError::NotMacOS,
        ),
{
    if platform != Platform::MacOS {
        return Err(NotarizeError::NotMacOS);
    }
    Ok(action)
}

/// The state of a submission as the notary service reports it.
#[derive(Debug, Clone, Copy, PartialEq, Eq, Structural)]
pub enum NotaryStatus {
    Accepted,
    InProgress,
    Failed,
    Unknown,
}

/// How a status text reads.
pub open spec fn notary_status(s: Seq<char>) -> NotaryStatus {
    if s == "Accepted"@ {
        NotaryStatus::Accepted
    } else if s == "In Progress"@ {
        NotaryStatus::InProgress
    } else if s == "Invalid"@ || s == "Rejected"@ {
        NotaryStatus::Failed
    } else {
        NotaryStatus::Unknown
    }
}

/// Reads the `status` field of a `notarytool info` reply.
pub fn classify_status(status: &str) -> (r: NotaryStatus)
    ensures
        r == notary_status(status@),
{
    if crate::text::str_eq(status, "Accepted") {
        NotaryStatus::Accepted
    } else if crate::text::str_eq(status, "In Progress") {
        NotaryStatus::InProgress
    } else if crate::text::str_eq(status, "Invalid") || crate::text::str_eq(status, "Rejected") {
        NotaryStatus::Failed
    } else {
        NotaryStatus::Unknown
    }
}

/// What the blocking workflow does after a status poll.
#[derive(Debug, Clone, Copy, PartialEq, Eq, Structural)]
pub enum PollStep {
    /// Accepted: staple the ticket.
    Staple,
    /// Rejected: fetch the log and fail.
    Reject,
    /// Still processing: poll again.
    Wait,
    /// Still processing after the last attempt: fail with a timeout.
    TimedOut,
}

/// The step after poll number `attempt` (from 1) read `status`.
pub open spec fn poll_step_of(attempt: u32, status: NotaryStatus) -> PollStep {
    match status {
        NotaryStatus::Accepted => PollStep::Staple,
        NotaryStatus::Failed => PollStep::Reject,
        _ => if attempt >= MAX_POLL_ATTEMPTS {
            PollStep::TimedOut
        } else {
            PollStep::Wait
        },
    }
}

/// Decides the next step of the blocking workflow.
pub fn poll_step(attempt: u32, status: NotaryStatus) -> (r: PollStep)
    ensures
        r == poll_step_of(attempt, status),
{
    match status {
        NotaryStatus::Accepted => PollStep::Staple,
        NotaryStatus::Failed => PollStep::Reject,
        _ => if attempt >= MAX_POLL_ATTEMPTS {
            PollStep::TimedOut
        } else {
            PollStep::Wait
        },
    }
}

/// The blocking workflow never polls more than the limit: every poll up to
/// the limit either ends the workflow or waits, and the last one never waits.
pub proof fn law_polling_is_bounded(attempt: u32, status: NotaryStatus)
    requires
        attempt >= MAX_POLL_ATTEMPTS,
    ensures
        poll_step_of(attempt, status) != PollStep::Wait,
{
}

/// The `notarytool` arguments that follow the subcommand and its operand.
pub open spec fn credential_args(config: &NotarizeConfig) -> Seq<Seq<char>> {
    seq!["--apple-id"@, config.apple_id@, "--team-id"@, config.team_id@, "--password"@, config.password@]
}

/// `xcrun` arguments of a notarytool subcommand on one operand, with the
/// credentials and, when `json`, JSON output.
pub fn notarytool_args(subcommand: &str, operand: &str, config: &NotarizeConfig, json: bool) -> (args:
    Vec<String>)
    ensures
        args@.map_values(|s: String| s@) == seq!["notarytool"@, subcommand@, operand@]
            + credential_args(config) + (if json {
            seq!["--output-format"@, "json"@]
        } else {
            seq![]
        }),
{
    let mut args: Vec<String> = vec![
        "notarytool".to_string(),
        subcommand.to_string(),
        operand.to_string(),
        "--apple-id".to_string(),
        config.apple_id.clone(),
        "--team-id".to_string(),
        config.team_id.clone(),
        "--password".to_string(),
        config.password.clone(),
    ];
    if json {
        args.push("--output-format".to_string());
        args.push("json".to_string());
    }
    assert(args@.map_values(|s: String| s@) =~= seq!["notarytool"@, subcommand@, operand@]
        + credential_args(config) + (if json {
        seq!["--output-format"@, "json"@]
    } else {
        seq![]
    }));
    args
}

/// The bundles stapled after notarization.
pub fn stapled_bundles() -> (b: Vec<&'static str>)
    ensures
        b@.map_values(|s: &'static str| s@) == seq!["wavecraft.vst3"@, "wavecraft.clap"@, "wavecraft.component"@],
{
    let b = vec!["wavecraft.vst3", "wavecraft.clap", "wavecraft.component"];
    assert(b@.map_values(|s: &'static str| s@) =~= seq!["wavecraft.vst3"@, "wavecraft.clap"@, "wavecraft.component"@]);
    b
}

/// A submission as saved between runs.
#[derive(Debug, Clone)]
pub struct NotarizationRequest {
    pub request_id: String,
    pub submitted_at: String,
    pub bundles: Vec<String>,
}

/// Why a `notarytool` reply could not be read.
#[derive(Debug, Clone, Copy, PartialEq, Eq, Structural)]
pub enum NotaryReplyError {
    /// The reply is not JSON.
    NotParsed,
    /// The reply names no request ID.
    MissingId,
}

/// The request ID of a `notarytool submit` reply: its `id` string.
pub fn submission_request_id(reply: &str) -> (r: Result<String, NotaryReplyError>)
    ensures
        !json_document_parses(encode_utf8(reply@)) ==> r == Err::<String, NotaryReplyError>(
            NotaryReplyError::NotParsed,
        ),
        json_document_parses(encode_utf8(reply@)) ==> match json_field_string(reply@, "id"@) {
            Some(v) => r matches Ok(s) && s@ == v,
            None => r == Err::<String, NotaryReplyError>(NotaryReplyError::MissingId),
        },
{
    if parse_json_document(reply.as_bytes()).is_none() {
        return Err(NotaryReplyError::NotParsed);
    }
    match json_string_field(reply, "id") {
        Some(id) => Ok(id),
        None => Err(NotaryReplyError::MissingId),
    }
}

/// The status of a `notarytool info` reply, read from its `status` string
/// (`unknown` when there is none); `None` when the reply is not JSON.
pub fn reply_status(reply: &str) -> (r: Option<NotaryStatus>)
    ensures
        !json_document_parses(encode_utf8(reply@)) ==> r is None,
        json_document_parses(encode_utf8(reply@)) ==> r == Some(
            notary_status(
                match json_field_string(reply@, "status"@) {
                    Some(v) => v,
                    None => "unknown"@,
                },
            ),
        ),
{
    if parse_json_document(reply.as_bytes()).is_none() {
        return None;
    }
    match json_string_field(reply, "status") {
        Some(status) => Some(classify_status(status.as_str())),
        None => Some(classify_status("unknown")),
    }
}

/// The request ID of the pending notarization, read from the request file.
pub fn pending_request_id(content: &str) -> (r: Option<String>)
    ensures
        opt_text(r) == json_field_string(content@, "request_id"@),
{
    json_string_field(content, "request_id")
}

} // verus!
