//! The bridge session manager: request framing, reply reading, and the
//! single-slot store that decides when a session is reused.
use vstd::prelude::*;
use crate::error::{ControlError, ErrorView};
use crate::json::{
    json_member, json_member_of, json_parses, json_quoted, json_string, parse_json, JsonMember,
    MemberView,
};
use crate::ssh::{effective_hold, hold_duration};
use crate::status::PiBridgeDispatchStatus;
use crate::text::{decimal, decimal_string, push_char, str_append, string_from, trim, trimmed};
use crate::validate::{command_result, normalize_mecanum_command};

verus! {

/// Extra read time granted beyond the held duration, in milliseconds.
pub const REPLY_SLACK_MS: u64 = 7000;

/// A validated bridge dispatch request.
pub struct BridgeRequest {
    /// The host, trimmed.
    pub host: String,
    pub port: u16,
    /// The token, trimmed.
    pub token: String,
    pub command: char,
    pub duration_ms: u32,
    /// How long to wait for the reply.
    pub read_timeout_ms: u64,
}

/// The first validation failure of a bridge dispatch request, if any.
pub open spec fn bridge_request_error(host: Seq<char>, command: Seq<char>) -> Option<ErrorView> {
    if trimmed(host).len() == 0 {
        Some(ErrorView::EmptyHost)
    } else if command_result(command) is Err {
        Some(command_result(command)->Err_0)
    } else {
        None
    }
}

pub open spec fn token_view(token: Option<String>) -> Seq<char> {
    match token {
        Some(t) => trimmed(t@),
        None => seq![],
    }
}

/// Validates a bridge dispatch request: the host must not be blank, the
/// command must be one of the motor commands, and the duration is clamped.
pub fn prepare_bridge_dispatch(
    host: &str,
    port: u16,
    token: Option<String>,
    command: &str,
    duration_ms: Option<u32>,
) -> (r: Result<BridgeRequest, ControlError>)
    ensures
        bridge_request_error(host@, command@) matches Some(e) ==> (r matches Err(err) && err@
            == e),
        bridge_request_error(host@, command@) is None ==> (r matches Ok(req) && {
            &&& req.host@ == trimmed(host@)
            &&& req.port == port
            &&& req.token@ == token_view(token)
            &&& req.command == command_result(command@)->Ok_0
            &&& req.duration_ms == effective_hold(duration_ms)
            &&& req.read_timeout_ms == req.duration_ms + REPLY_SLACK_MS
        }),
{
    let h = trim(host);
    if h.as_str().is_empty() {
        return Err(ControlError::EmptyHost);
    }
    let cmd = match normalize_mecanum_command(command) {
        Ok(c) => c,
        Err(e) => return Err(e),
    };
    let hold = hold_duration(duration_ms);
    let t = match token {
        Some(t) => trim(t.as_str()),
        None => String::new(),
    };
    Ok(
        BridgeRequest {
            host: h,
            port,
            token: t,
            command: cmd,
            duration_ms: hold,
            read_timeout_ms: hold as u64 + REPLY_SLACK_MS,
        },
    )
}

/// The host of a bridge connection: trimmed, and not blank.
pub fn bridge_host(host: &str) -> (r: Result<String, ControlError>)
    ensures
        trimmed(host@).len() == 0 ==> (r matches Err(e) && e@ == ErrorView::EmptyHost),
        trimmed(host@).len() > 0 ==> (r matches Ok(h) && h@ == trimmed(host@)),
{
    let h = trim(host);
    if h.as_str().is_empty() {
        Err(ControlError::EmptyHost)
    } else {
        Ok(h)
    }
}

/// `host:port`.
pub open spec fn target_label(host: Seq<char>, port: u16) -> Seq<char> {
    host + seq![':'] + decimal(port as nat)
}

pub fn bridge_target(host: &str, port: u16) -> (r: String)
    ensures
        r@ == target_label(host@, port),
{
    let mut t = string_from(host);
    push_char(&mut t, ':');
    let p = decimal_string(port as u64);
    str_append(&mut t, p.as_str());
    t
}

// ---------------------------------------------------------------------------
// Wire format

/// One request line, keys in sorted order as a JSON map writes them, with
/// its newline.
pub open spec fn request_line(token_json: Seq<char>, cmd: char, hold: nat) -> Seq<char> {
    "{\"cmd\":\""@ + seq![cmd] + "\",\"duration_ms\":"@ + decimal(hold) + ",\"token\":"@
        + token_json + "}\n"@
}

/// Frames a request once the token's JSON text is known.
pub fn frame_request(token_json: &str, cmd: char, hold_ms: u32) -> (r: String)
    ensures
        r@ == request_line(token_json@, cmd, hold_ms as nat),
{
    let mut w = string_from("{\"cmd\":\"");
    push_char(&mut w, cmd);
    str_append(&mut w, "\",\"duration_ms\":");
    let d = decimal_string(hold_ms as u64);
    str_append(&mut w, d.as_str());
    str_append(&mut w, ",\"token\":");
    str_append(&mut w, token_json);
    str_append(&mut w, "}\n");
    w
}

/// The request line for a validated dispatch.
pub fn bridge_request_line(req: &BridgeRequest) -> (r: String)
    ensures
        r@ == request_line(json_quoted(req.token@), req.command, req.duration_ms as nat),
{
    match json_string(req.token.as_str()) {
        Ok(t) => frame_request(t.as_str(), req.command, req.duration_ms),
        Err(_) => String::new(),
    }
}

/// The fields of a reply that the dispatcher reads.
pub struct BridgeReply {
    /// The `ok` member, when it is a boolean.
    pub ok: Option<bool>,
    /// The `error` member, when it is a string.
    pub error: Option<String>,
}

pub open spec fn member_bool(m: MemberView) -> Option<bool> {
    match m {
        MemberView::Bool(b) => Some(b),
        _ => None,
    }
}

pub open spec fn member_str(m: MemberView) -> Option<Seq<char>> {
    match m {
        MemberView::Str(s) => Some(s),
        _ => None,
    }
}

pub open spec fn opt_view(s: Option<String>) -> Option<Seq<char>> {
    match s {
        Some(t) => Some(t@),
        None => None,
    }
}

/// Reads a reply line; `None` when it is not JSON.
pub fn read_bridge_reply(line: &str) -> (r: Option<BridgeReply>)
    ensures
        r is Some <==> json_parses(trimmed(line@)),
        r matches Some(rep) ==> rep.ok == member_bool(json_member_of(trimmed(line@), "ok"@))
            && opt_view(rep.error) == member_str(json_member_of(trimmed(line@), "error"@)),
{
    let t = trim(line);
    match parse_json(t.as_str()) {
        Ok(p) => {
            let ok = match json_member(&p, "ok") {
                JsonMember::Bool(b) => Some(b),
                _ => None,
            };
            let error = match json_member(&p, "error") {
                JsonMember::Str(e) => Some(e),
                _ => None,
            };
            Some(BridgeReply { ok, error })
        },
        Err(_) => None,
    }
}

/// What a reply line means, read from its trimmed text.
pub open spec fn reply_text_result(t: Seq<char>) -> Result<(), ErrorView> {
    if !json_parses(t) {
        Err(ErrorView::InvalidJson)
    } else if json_member_of(t, "ok"@) == MemberView::Bool(true) {
        Ok(())
    } else {
        Err(
            ErrorView::Rejected(
                match json_member_of(t, "error"@) {
                    MemberView::Str(e) => e,
                    _ => "bridge error"@,
                },
            ),
        )
    }
}

/// What an exchange that read `bytes_read` bytes ending in `line` means.
pub open spec fn exchange_result(bytes_read: nat, line: Seq<char>) -> Result<(), ErrorView> {
    if bytes_read == 0 {
        Err(ErrorView::ConnectionClosed)
    } else {
        reply_text_result(trimmed(line))
    }
}

/// What a reply means: success when `ok` is `true`, a rejection carrying the
/// peer's `error` (or a generic reason) otherwise, and a protocol error when
/// the line was not JSON.
pub open spec fn reply_result(reply: Option<BridgeReply>) -> Result<(), ErrorView> {
    match reply {
        None => Err(ErrorView::InvalidJson),
        Some(r) => if r.ok == Some(true) {
            Ok(())
        } else {
            Err(
                ErrorView::Rejected(
                    match r.error {
                        Some(e) => e@,
                        None => "bridge error"@,
                    },
                ),
            )
        },
    }
}

pub open spec fn unit_result(r: Result<(), ControlError>) -> Result<(), ErrorView> {
    match r {
        Ok(_) => Ok(()),
        Err(e) => Err(e@),
    }
}

pub fn reply_outcome(reply: Option<BridgeReply>) -> (r: Result<(), ControlError>)
    ensures
        unit_result(r) == reply_result(reply),
{
    match reply {
        None => Err(ControlError::InvalidJson),
        Some(rep) => {
            if rep.ok == Some(true) {
                Ok(())
            } else {
                match rep.error {
                    Some(e) => Err(ControlError::Rejected(e)),
                    None => Err(ControlError::Rejected(string_from("bridge error"))),
                }
            }
        },
    }
}

/// Reads the result of one exchange: `bytes_read` bytes ending in `line`.
/// Zero bytes means the peer closed the connection.
pub fn exchange_outcome(bytes_read: usize, line: &str) -> (r: Result<(), ControlError>)
    ensures
        unit_result(r) == exchange_result(bytes_read as nat, line@),
{
    if bytes_read == 0 {
        return Err(ControlError::ConnectionClosed);
    }
    let reply = read_bridge_reply(line);
    proof {
        let t = trimmed(line@);
        if reply is Some && json_member_of(t, "ok"@) == MemberView::Bool(true) {
            assert(reply->Some_0.ok == Some(true));
        }
    }
    reply_outcome(reply)
}

/// The status of a dispatch that the peer accepted.
pub fn bridge_dispatch_status(target: &str, req: &BridgeRequest) -> (r: PiBridgeDispatchStatus)
    ensures
        r.target@ == target@,
        r.command@ == seq![req.command],
        r.duration_ms == req.duration_ms,
{
    let mut command = String::new();
    push_char(&mut command, req.command);
    assert(command@ =~= seq![req.command]);
    PiBridgeDispatchStatus { target: string_from(target), command, duration_ms: req.duration_ms }
}

/// Collects the failures of connecting to each resolved address in turn.
pub struct ConnectAttempts {
    pub last_error: Option<String>,
}

pub open spec fn attempt_message(addr: Seq<char>, error: Seq<char>) -> Seq<char> {
    "Connect to "@ + addr + " failed: "@ + error
}

impl ConnectAttempts {
    pub fn new() -> (r: Self)
        ensures
            r.last_error is None,
    {
        ConnectAttempts { last_error: None }
    }

    /// Records that connecting to `addr` failed with `error`.
    pub fn failed(&mut self, addr: &str, error: &str)
        ensures
            opt_view(final(self).last_error) == Some(attempt_message(addr@, error@)),
    {
        let mut m = string_from("Connect to ");
        str_append(&mut m, addr);
        str_append(&mut m, " failed: ");
        str_append(&mut m, error);
        self.last_error = Some(m);
    }

    /// The error once every address has failed: the last failure, or a
    /// generic one when no address was tried.
    pub fn exhausted(self) -> (r: ControlError)
        ensures
            r@ == ErrorView::Transport(
                match opt_view(self.last_error) {
                    Some(m) => m,
                    None => "Bridge connect failed"@,
                },
            ),
    {
        match self.last_error {
            Some(m) => ControlError::Transport(m),
            None => ControlError::Transport(string_from("Bridge connect failed")),
        }
    }
}

/// The error when `host:port` cannot be resolved.
pub fn resolve_failure(host: &str, port: u16, error: &str) -> (r: ControlError)
    ensures
        r@ == ErrorView::Transport(
            "Failed to resolve "@ + target_label(host@, port) + ": "@ + error@,
        ),
{
    let mut m = string_from("Failed to resolve ");
    let t = bridge_target(host, port);
    str_append(&mut m, t.as_str());
    str_append(&mut m, ": ");
    str_append(&mut m, error);
    ControlError::Transport(m)
}

/// The error when `host:port` resolves to no address.
pub fn no_addresses(host: &str, port: u16) -> (r: ControlError)
    ensures
        r@ == ErrorView::Transport("No addresses found for "@ + target_label(host@, port)),
{
    let mut m = string_from("No addresses found for ");
    let t = bridge_target(host, port);
    str_append(&mut m, t.as_str());
    ControlError::Transport(m)
}

} // verus!
