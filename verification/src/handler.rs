//! Protocol decisions of a client connection (WebSocket or WebRTC data
//! channel): which requests need a token, what each request asks of the
//! session layer, and how outcomes become responses and error envelopes.
//!
//! The connection loop performs the actions (session manager, clipboard,
//! monomind tooling, network) and hands the outcomes back here.

use crate::errors::{
    prefixed, server_error_text, session_error_text, webrtc_error_text, ServerError, SessionError,
    WebRtcError,
};
use crate::ids::{parse_uuid, uuid_parse, uuid_text, uuid_to_string};
use crate::pairing::PairingCode;
use crate::session::{Line, SessionSnapshot};
use crate::text::{decimal, has_prefix, push_decimal, push_signed_decimal, signed_decimal, str_eq, string_of};
use vstd::prelude::*;

verus! {

// ---------------------------------------------------------------------------
// Error envelopes
// ---------------------------------------------------------------------------

/// Error codes of the protocol's error response.
#[derive(Debug, Clone, Copy, PartialEq, Eq, Structural)]
pub enum ErrorCode {
    Unknown,
    InvalidRequest,
    SessionNotFound,
    AuthFailed,
    PermissionDenied,
    RateLimitExceeded,
    ServerError,
}

/// An error response with its sequence number.
#[derive(Debug, Clone)]
pub struct ErrorEnvelope {
    pub sequence_number: u64,
    pub code: ErrorCode,
    pub message: String,
}

/// The code and message an error is reported with.
pub open spec fn error_report(error: ServerError) -> (ErrorCode, Seq<char>) {
    match error {
        ServerError::SessionNotFound(m) => (ErrorCode::SessionNotFound, m@),
        ServerError::AuthFailed(m) => (ErrorCode::AuthFailed, m@),
        ServerError::PermissionDenied => (ErrorCode::PermissionDenied, "Permission denied"@),
        ServerError::RateLimitExceeded => (ErrorCode::RateLimitExceeded, "Rate limit exceeded"@),
        _ => (ErrorCode::Unknown, server_error_text(error)),
    }
}

/// The error envelope reporting `error` under `sequence_number`: missing
/// sessions, failed authentication, denied permission and rate limiting
/// get their own codes (with the bare detail as message); every other
/// error is `Unknown` with the error's full message.
pub fn create_error_envelope(sequence_number: u64, error: ServerError) -> (e: ErrorEnvelope)
    ensures
        e.sequence_number == sequence_number,
        (e.code, e.message@) == error_report(error),
{
    let (code, message) = match &error {
        ServerError::SessionNotFound(m) => (ErrorCode::SessionNotFound, m.clone()),
        ServerError::AuthFailed(m) => (ErrorCode::AuthFailed, m.clone()),
        ServerError::PermissionDenied => (ErrorCode::PermissionDenied, string_of("Permission denied")),
        ServerError::RateLimitExceeded => (
            ErrorCode::RateLimitExceeded,
            string_of("Rate limit exceeded"),
        ),
        _ => (ErrorCode::Unknown, error.message()),
    };
    ErrorEnvelope { sequence_number, code, message }
}

/// The error envelope answering a frame that is not a protocol message.
pub fn decode_error_envelope(sequence_number: u64, detail: &str) -> (e: ErrorEnvelope)
    ensures
        e.sequence_number == sequence_number,
        e.code == ErrorCode::InvalidRequest,
        e.message@ == "Protocol decode error: "@ + detail@,
{
    let d = string_of(detail);
    ErrorEnvelope {
        sequence_number,
        code: ErrorCode::InvalidRequest,
        message: prefixed("Protocol decode error: ", &d),
    }
}

// ---------------------------------------------------------------------------
// Authentication
// ---------------------------------------------------------------------------

/// Claims of a verified access token.
#[derive(Debug, Clone)]
pub struct Claims {
    /// The user the token was issued to
    pub sub: String,
}

/// Verifies access tokens (JWT, EdDSA-signed). The error is the
/// verifier's message.
pub trait AuthService {
    fn verify_access(&self, token: &str) -> Result<Claims, String>;
}

/// An authentication failure reported by the token verifier.
pub open spec fn is_jwt_failure(e: ServerError) -> bool {
    e matches ServerError::AuthFailed(m) && has_prefix(m@, "JWT verification failed: "@)
}

/// Whether `o` is the outcome of token verification whose verifier answered
/// `r`: the claims, or an authentication failure carrying the verifier's
/// message.
pub open spec fn is_auth_outcome(r: Result<Claims, String>, o: Result<Claims, ServerError>) -> bool {
    match r {
        Ok(c) => o == Ok::<Claims, ServerError>(c),
        Err(m) => o matches Err(ServerError::AuthFailed(t)) && t@ == "JWT verification failed: "@
            + m@,
    }
}

/// The outcome of token verification: the claims, or an authentication
/// failure carrying the verifier's message.
pub fn auth_outcome(r: Result<Claims, String>) -> (o: Result<Claims, ServerError>)
    ensures
        is_auth_outcome(r, o),
{
    match r {
        Ok(c) => Ok(c),
        Err(m) => Err(ServerError::AuthFailed(prefixed("JWT verification failed: ", &m))),
    }
}

/// Verify a JWT access token with the authentication service: the outcome
/// of what the service answered for this token.
pub fn verify_auth_token<A: AuthService>(auth_service: &A, token: &str) -> (r: Result<
    Claims,
    ServerError,
>)
    ensures
        r matches Err(e) ==> is_jwt_failure(e),
        exists|answer: Result<Claims, String>|
            #![trigger call_ensures(A::verify_access, (auth_service, token), answer)]
            call_ensures(A::verify_access, (auth_service, token), answer) && is_auth_outcome(
                answer,
                r,
            ),
{
    let outcome = auth_service.verify_access(token);
    let r = auth_outcome(outcome);
    proof {
        assert(call_ensures(A::verify_access, (auth_service, token), outcome));
        if r is Err {
            let m = r->Err_0->AuthFailed_0;
            reveal_strlit("JWT verification failed: ");
            assert(m@.subrange(0, 25) =~= "JWT verification failed: "@);
        }
    }
    r
}

// ---------------------------------------------------------------------------
// Requests
// ---------------------------------------------------------------------------

/// A message from the client, as far as the decisions read it.
#[derive(Debug, Clone)]
pub enum ClientMessage {
    Attach { session_id: String, session_name: String, rows: u32, cols: u32, auth_token: String },
    Input { data: Vec<u8>, auth_token: String, pane_id: Option<String> },
    Resize { rows: u32, cols: u32, auth_token: String, pane_id: Option<String> },
    Detach,
    Dashboard { command: String, params: Vec<(String, String)> },
    HealthCheck { project_dir: String },
    Upgrade { project_dir: String, confirmed: bool },
    Detection { project_dir: String },
    Search,
    SplitPane { pane_id: String, direction: i32, new_session_shell: String },
    ClosePane { pane_id: String },
    FocusPane { pane_id: String },
    ClipboardGet { request_id: String },
    ClipboardSet { content: String },
    /// A clipboard response, which only the server sends.
    ClipboardGetResponse,
    /// Any other message the server or the P2P layer sends.
    ServerToClient,
    /// An envelope without a message.
    Empty,
}

/// Which session an attach goes to.
#[derive(Debug, Clone)]
pub enum AttachTarget {
    /// An existing session, by id.
    Existing(u128),
    /// The session registered under a stable name, created if needed.
    Named { name: String, rows: u16, cols: u16 },
    /// A new session.
    New { rows: u16, cols: u16 },
}

/// The project directory a monomind request works in.
#[derive(Debug, Clone)]
pub enum ProjectDir {
    /// The directory the client named.
    Given(String),
    /// The attached session's directory (if any), else the daemon's.
    SessionDefault(Option<u128>),
}

/// A dashboard command.
#[derive(Debug, Clone)]
pub enum DashboardCommand {
    /// The daemon's account pairing code.
    PairingCode,
    /// The daemon's peer id.
    PeerId,
    /// A monomind CLI command with its parameters.
    Monomind { command: String, params: Vec<(String, String)> },
}

/// What a request asks of the session layer and the tooling.
#[derive(Debug, Clone)]
pub enum Plan {
    Attach { target: AttachTarget, user: Option<String> },
    SendInputToPane { root: u128, pane_id: String, data: Vec<u8>, user: Option<String> },
    SendInput { session: u128, data: Vec<u8>, user: Option<String> },
    ResizePane { root: u128, pane_id: String, rows: u16, cols: u16, user: Option<String> },
    ResizeSession { session: u128, rows: u16, cols: u16, user: Option<String> },
    Detach { session: u128 },
    Dashboard(DashboardCommand),
    HealthCheck(ProjectDir),
    Upgrade(ProjectDir),
    Detection(ProjectDir),
    SplitPane { root: u128, pane_id: String, direction: i32, shell: String },
    ClosePane { root: u128, pane_id: String },
    FocusPane { root: u128, pane_id: String },
    ClipboardGet { session: u128, request_id: String },
    ClipboardSet { session: u128, content: String },
}

/// Whether a request must carry a token: attach, input and resize do,
/// unless the daemon runs in development mode.
pub open spec fn token_required(msg: ClientMessage, dev_mode: bool) -> bool {
    !dev_mode && (msg is Attach || msg is Input || msg is Resize)
}

/// The token a request carries (empty where it has none).
pub open spec fn token_of(msg: ClientMessage) -> Seq<char> {
    match msg {
        ClientMessage::Attach { auth_token, .. } => auth_token@,
        ClientMessage::Input { auth_token, .. } => auth_token@,
        ClientMessage::Resize { auth_token, .. } => auth_token@,
        _ => Seq::<char>::empty(),
    }
}

/// `r` is an invalid-message error with text `text`.
pub open spec fn invalid<T>(r: Result<T, ServerError>, text: Seq<char>) -> bool {
    r matches Err(ServerError::InvalidMessage(m)) && m@ == text
}

/// The project directory of a request: the one it names, else the
/// attached session's.
pub open spec fn project_dir_of(dir: String, attached: Option<u128>) -> ProjectDir {
    if dir@.len() > 0 {
        ProjectDir::Given(dir)
    } else {
        ProjectDir::SessionDefault(attached)
    }
}

/// A dashboard command by its name.
pub open spec fn dashboard_command_of(command: String, params: Vec<(String, String)>) -> DashboardCommand {
    if command@ == "account_pairing_code"@ {
        DashboardCommand::PairingCode
    } else if command@ == "account_peer_id"@ {
        DashboardCommand::PeerId
    } else {
        DashboardCommand::Monomind { command, params }
    }
}

/// A pane id that names a pane (present and not empty).
pub open spec fn names_pane(pane_id: Option<String>) -> bool {
    pane_id matches Some(p) && p@.len() > 0
}

/// What a request asks for, once its user (if any) is known, given the
/// session the connection is attached to.
pub open spec fn plan_relation(
    msg: ClientMessage,
    dev_mode: bool,
    attached: Option<u128>,
    user: Option<String>,
    r: Result<Plan, ServerError>,
) -> bool {
    match msg {
        ClientMessage::Attach { session_id, session_name, rows, cols, .. } => if session_id@.len()
            > 0 {
            match uuid_parse(session_id@) {
                Some(id) => r == Ok::<Plan, ServerError>(
                    Plan::Attach { target: AttachTarget::Existing(id), user },
                ),
                None => r matches Err(ServerError::InvalidMessage(m)) && has_prefix(
                    m@,
                    "Invalid session_id UUID: "@,
                ),
            }
        } else if session_name@.len() > 0 {
            r == Ok::<Plan, ServerError>(
                Plan::Attach {
                    target: AttachTarget::Named {
                        name: session_name,
                        rows: rows as u16,
                        cols: cols as u16,
                    },
                    user,
                },
            )
        } else {
            r == Ok::<Plan, ServerError>(
                Plan::Attach {
                    target: AttachTarget::New { rows: rows as u16, cols: cols as u16 },
                    user,
                },
            )
        },
        ClientMessage::Input { data, pane_id, .. } => match attached {
            None => invalid(r, "Not attached to session"@),
            Some(root) => if names_pane(pane_id) {
                r == Ok::<Plan, ServerError>(
                    Plan::SendInputToPane { root, pane_id: pane_id->0, data, user },
                )
            } else {
                r == Ok::<Plan, ServerError>(Plan::SendInput { session: root, data, user })
            },
        },
        ClientMessage::Resize { rows, cols, pane_id, .. } => match attached {
            None => invalid(r, "Not attached to session"@),
            Some(root) => if names_pane(pane_id) {
                r == Ok::<Plan, ServerError>(
                    Plan::ResizePane {
                        root,
                        pane_id: pane_id->0,
                        rows: rows as u16,
                        cols: cols as u16,
                        user,
                    },
                )
            } else {
                r == Ok::<Plan, ServerError>(
                    Plan::ResizeSession { session: root, rows: rows as u16, cols: cols as u16, user },
                )
            },
        },
        ClientMessage::Detach => match attached {
            None => invalid(r, "Not attached to session"@),
            Some(s) => r == Ok::<Plan, ServerError>(Plan::Detach { session: s }),
        },
        ClientMessage::Dashboard { command, params } => r == Ok::<Plan, ServerError>(
            Plan::Dashboard(dashboard_command_of(command, params)),
        ),
        ClientMessage::HealthCheck { project_dir } => r == Ok::<Plan, ServerError>(
            Plan::HealthCheck(project_dir_of(project_dir, attached)),
        ),
        ClientMessage::Upgrade { project_dir, confirmed } => if !confirmed {
            invalid(r, "Upgrade requires user confirmation"@)
        } else {
            r == Ok::<Plan, ServerError>(Plan::Upgrade(project_dir_of(project_dir, attached)))
        },
        ClientMessage::Detection { project_dir } => r == Ok::<Plan, ServerError>(
            Plan::Detection(project_dir_of(project_dir, attached)),
        ),
        ClientMessage::Search => invalid(r, "Search feature not yet implemented"@),
        ClientMessage::SplitPane { pane_id, direction, new_session_shell } => if !dev_mode
            && pane_id@.len() == 0 {
            invalid(r, "SplitPaneCommand missing pane_id"@)
        } else {
            match attached {
                None => invalid(r, "Not attached to session"@),
                Some(root) => r == Ok::<Plan, ServerError>(
                    Plan::SplitPane { root, pane_id, direction, shell: new_session_shell },
                ),
            }
        },
        ClientMessage::ClosePane { pane_id } => if !dev_mode && pane_id@.len() == 0 {
            invalid(r, "ClosePaneCommand missing pane_id"@)
        } else {
            match attached {
                None => invalid(r, "Not attached to session"@),
                Some(root) => r == Ok::<Plan, ServerError>(Plan::ClosePane { root, pane_id }),
            }
        },
        ClientMessage::FocusPane { pane_id } => if pane_id@.len() == 0 {
            invalid(r, "FocusPaneCommand missing pane_id"@)
        } else {
            match attached {
                None => invalid(r, "Not attached to session"@),
                Some(root) => r == Ok::<Plan, ServerError>(Plan::FocusPane { root, pane_id }),
            }
        },
        ClientMessage::ClipboardGet { request_id } => match attached {
            None => invalid(r, "Client not attached to session"@),
            Some(s) => r == Ok::<Plan, ServerError>(Plan::ClipboardGet { session: s, request_id }),
        },
        ClientMessage::ClipboardSet { content } => match attached {
            None => invalid(r, "Client not attached to session"@),
            Some(s) => r == Ok::<Plan, ServerError>(Plan::ClipboardSet { session: s, content }),
        },
        ClientMessage::ClipboardGetResponse => invalid(r, "Client sent server→client message type"@),
        ClientMessage::ServerToClient => invalid(r, "Client sent server/P2P message type"@),
        ClientMessage::Empty => invalid(r, "Empty envelope"@),
    }
}

fn not_attached() -> (r: ServerError)
    ensures
        r matches ServerError::InvalidMessage(m) && m@ == "Not attached to session"@,
{
    ServerError::InvalidMessage(string_of("Not attached to session"))
}

fn clipboard_not_attached() -> (r: ServerError)
    ensures
        r matches ServerError::InvalidMessage(m) && m@ == "Client not attached to session"@,
{
    ServerError::InvalidMessage(string_of("Client not attached to session"))
}

fn dir_of(dir: String, attached: Option<u128>) -> (d: ProjectDir)
    ensures
        d == project_dir_of(dir, attached),
{
    if !dir.as_str().is_empty() {
        ProjectDir::Given(dir)
    } else {
        proof {
            assert(dir@.len() == 0);
        }
        ProjectDir::SessionDefault(attached)
    }
}

fn pane_named(pane_id: &Option<String>) -> (b: bool)
    ensures
        b == names_pane(*pane_id),
{
    match pane_id {
        Some(p) => !p.as_str().is_empty(),
        None => false,
    }
}

/// What a request asks for, once its user (if any) is known.
pub fn plan_request(msg: ClientMessage, dev_mode: bool, attached: Option<u128>, user: Option<String>) -> (r:
    Result<Plan, ServerError>)
    ensures
        plan_relation(msg, dev_mode, attached, user, r),
{
    match msg {
        ClientMessage::Attach { session_id, session_name, rows, cols, .. } => {
            if !session_id.as_str().is_empty() {
                match parse_uuid(session_id.as_str()) {
                    Ok(id) => Ok(Plan::Attach { target: AttachTarget::Existing(id), user }),
                    Err(e) => {
                        let m = prefixed("Invalid session_id UUID: ", &e);
                        proof {
                            reveal_strlit("Invalid session_id UUID: ");
                            assert(m@.subrange(0, 25) =~= "Invalid session_id UUID: "@);
                        }
                        Err(ServerError::InvalidMessage(m))
                    },
                }
            } else if !session_name.as_str().is_empty() {
                Ok(
                    Plan::Attach {
                        target: AttachTarget::Named {
                            name: session_name,
                            rows: rows as u16,
                            cols: cols as u16,
                        },
                        user,
                    },
                )
            } else {
                Ok(
                    Plan::Attach {
                        target: AttachTarget::New { rows: rows as u16, cols: cols as u16 },
                        user,
                    },
                )
            }
        },
        ClientMessage::Input { data, pane_id, .. } => match attached {
            None => Err(not_attached()),
            Some(root) => {
                if pane_named(&pane_id) {
                    match pane_id {
                        Some(p) => Ok(Plan::SendInputToPane { root, pane_id: p, data, user }),
                        None => Ok(Plan::SendInput { session: root, data, user }),
                    }
                } else {
                    Ok(Plan::SendInput { session: root, data, user })
                }
            },
        },
        ClientMessage::Resize { rows, cols, pane_id, .. } => match attached {
            None => Err(not_attached()),
            Some(root) => {
                if pane_named(&pane_id) {
                    match pane_id {
                        Some(p) => Ok(
                            Plan::ResizePane {
                                root,
                                pane_id: p,
                                rows: rows as u16,
                                cols: cols as u16,
                                user,
                            },
                        ),
                        None => Ok(
                            Plan::ResizeSession {
                                session: root,
                                rows: rows as u16,
                                cols: cols as u16,
                                user,
                            },
                        ),
                    }
                } else {
                    Ok(
                        Plan::ResizeSession {
                            session: root,
                            rows: rows as u16,
                            cols: cols as u16,
                            user,
                        },
                    )
                }
            },
        },
        ClientMessage::Detach => match attached {
            None => Err(not_attached()),
            Some(s) => Ok(Plan::Detach { session: s }),
        },
        ClientMessage::Dashboard { command, params } => {
            if str_eq(command.as_str(), "account_pairing_code") {
                Ok(Plan::Dashboard(DashboardCommand::PairingCode))
            } else if str_eq(command.as_str(), "account_peer_id") {
                Ok(Plan::Dashboard(DashboardCommand::PeerId))
            } else {
                Ok(Plan::Dashboard(DashboardCommand::Monomind { command, params }))
            }
        },
        ClientMessage::HealthCheck { project_dir } => Ok(
            Plan::HealthCheck(dir_of(project_dir, attached)),
        ),
        ClientMessage::Upgrade { project_dir, confirmed } => {
            if !confirmed {
                Err(ServerError::InvalidMessage(string_of("Upgrade requires user confirmation")))
            } else {
                Ok(Plan::Upgrade(dir_of(project_dir, attached)))
            }
        },
        ClientMessage::Detection { project_dir } => Ok(
            Plan::Detection(dir_of(project_dir, attached)),
        ),
        ClientMessage::Search => Err(
            ServerError::InvalidMessage(string_of("Search feature not yet implemented")),
        ),
        ClientMessage::SplitPane { pane_id, direction, new_session_shell } => {
            if !dev_mode && pane_id.as_str().is_empty() {
                return Err(
                    ServerError::InvalidMessage(string_of("SplitPaneCommand missing pane_id")),
                );
            }
            match attached {
                None => Err(not_attached()),
                Some(root) => Ok(
                    Plan::SplitPane { root, pane_id, direction, shell: new_session_shell },
                ),
            }
        },
        ClientMessage::ClosePane { pane_id } => {
            if !dev_mode && pane_id.as_str().is_empty() {
                return Err(
                    ServerError::InvalidMessage(string_of("ClosePaneCommand missing pane_id")),
                );
            }
            match attached {
                None => Err(not_attached()),
                Some(root) => Ok(Plan::ClosePane { root, pane_id }),
            }
        },
        ClientMessage::FocusPane { pane_id } => {
            if pane_id.as_str().is_empty() {
                return Err(
                    ServerError::InvalidMessage(string_of("FocusPaneCommand missing pane_id")),
                );
            }
            match attached {
                None => Err(not_attached()),
                Some(root) => Ok(Plan::FocusPane { root, pane_id }),
            }
        },
        ClientMessage::ClipboardGet { request_id } => match attached {
            None => Err(clipboard_not_attached()),
            Some(s) => Ok(Plan::ClipboardGet { session: s, request_id }),
        },
        ClientMessage::ClipboardSet { content } => match attached {
            None => Err(clipboard_not_attached()),
            Some(s) => Ok(Plan::ClipboardSet { session: s, content }),
        },
        ClientMessage::ClipboardGetResponse => Err(
            ServerError::InvalidMessage(string_of("Client sent server→client message type")),
        ),
        ClientMessage::ServerToClient => Err(
            ServerError::InvalidMessage(string_of("Client sent server/P2P message type")),
        ),
        ClientMessage::Empty => Err(ServerError::InvalidMessage(string_of("Empty envelope"))),
    }
}

fn token_of_msg(msg: &ClientMessage) -> (t: Option<&String>)
    ensures
        t is Some <==> (msg is Attach || msg is Input || msg is Resize),
        t matches Some(s) ==> s@ == token_of(*msg),
{
    match msg {
        ClientMessage::Attach { auth_token, .. } => Some(auth_token),
        ClientMessage::Input { auth_token, .. } => Some(auth_token),
        ClientMessage::Resize { auth_token, .. } => Some(auth_token),
        _ => None,
    }
}

/// A planned resize, input or attach carries the message's own values: a
/// resize of an attached client resizes the named pane (or, naming none,
/// the attached session) to the message's rows and columns, in that order;
/// input goes there with the message's bytes; a new or named attach uses
/// the message's rows and columns. Without an attached session, input and
/// resize are refused.
pub proof fn lemma_plan_carries_message_values(
    msg: ClientMessage,
    dev_mode: bool,
    attached: Option<u128>,
    user: Option<String>,
    r: Result<Plan, ServerError>,
)
    requires
        plan_relation(msg, dev_mode, attached, user, r),
    ensures
        msg matches ClientMessage::Resize { rows, cols, pane_id, .. } ==> match attached {
            None => r is Err,
            Some(root) => match pane_id {
                Some(p) if p@.len() > 0 => r matches Ok(
                    Plan::ResizePane { root: pr, pane_id: pp, rows: prows, cols: pcols, .. },
                ) && pr == root && pp == p && prows as int == rows % 65536 && pcols as int
                    == cols % 65536,
                _ => r matches Ok(
                    Plan::ResizeSession { session, rows: prows, cols: pcols, .. },
                ) && session == root && prows as int == rows % 65536 && pcols as int == cols
                    % 65536,
            },
        },
        msg matches ClientMessage::Input { data, pane_id, .. } ==> match attached {
            None => r is Err,
            Some(root) => match pane_id {
                Some(p) if p@.len() > 0 => r matches Ok(
                    Plan::SendInputToPane { root: pr, pane_id: pp, data: d, .. },
                ) && pr == root && pp == p && d == data,
                _ => r matches Ok(Plan::SendInput { session, data: d, .. }) && session == root
                    && d == data,
            },
        },
        msg matches ClientMessage::Attach { session_id, rows, cols, .. } ==> (session_id@.len()
            == 0 ==> (r matches Ok(Plan::Attach { target, .. }) && match target {
            AttachTarget::Named { rows: trows, cols: tcols, .. } => trows as int == rows % 65536
                && tcols as int == cols % 65536,
            AttachTarget::New { rows: trows, cols: tcols } => trows as int == rows % 65536
                && tcols as int == cols % 65536,
            AttachTarget::Existing(_) => false,
        })),
{
    match msg {
        ClientMessage::Resize { rows, cols, .. } => {
            assert((rows as u16) as int == rows % 65536) by (bit_vector);
            assert((cols as u16) as int == cols % 65536) by (bit_vector);
        },
        ClientMessage::Attach { rows, cols, .. } => {
            assert((rows as u16) as int == rows % 65536) by (bit_vector);
            assert((cols as u16) as int == cols % 65536) by (bit_vector);
        },
        _ => {},
    }
}

/// Whether `r` is how a request that needs a token is decided once the
/// verifier answered `answer`: planned for the token's subject, or refused
/// with the verifier's message.
pub open spec fn authorised_outcome(
    msg: ClientMessage,
    dev_mode: bool,
    attached: Option<u128>,
    answer: Result<Claims, String>,
    r: Result<Plan, ServerError>,
) -> bool {
    match answer {
        Ok(c) => plan_relation(msg, dev_mode, attached, Some(c.sub), r),
        Err(m) => r matches Err(ServerError::AuthFailed(x)) && x@ == "JWT verification failed: "@
            + m@,
    }
}

/// Decide a request: authenticate it where a token is required (a missing
/// token is refused before the verifier is asked; otherwise the message's
/// own token is handed to the verifier), then plan it.
pub fn process_request<A: AuthService>(
    msg: ClientMessage,
    dev_mode: bool,
    attached: Option<u128>,
    auth_service: &A,
) -> (r: Result<Plan, ServerError>)
    ensures
        !token_required(msg, dev_mode) ==> plan_relation(msg, dev_mode, attached, None, r),
        token_required(msg, dev_mode) && token_of(msg).len() == 0 ==> (r matches Err(
            ServerError::AuthFailed(m),
        ) && m@ == "Missing authentication token"@),
        token_required(msg, dev_mode) && token_of(msg).len() > 0 ==> (r matches Err(e)
            && is_jwt_failure(e)) || exists|sub: String|
            plan_relation(msg, dev_mode, attached, Some(sub), r),
        token_required(msg, dev_mode) && token_of(msg).len() > 0 ==> exists|
            t: &str,
            answer: Result<Claims, String>,
        |
            #![trigger call_ensures(A::verify_access, (auth_service, t), answer)]
            t@ == token_of(msg) && call_ensures(A::verify_access, (auth_service, t), answer)
                && authorised_outcome(msg, dev_mode, attached, answer, r),
{
    match token_of_msg(&msg) {
        Some(token) if !dev_mode => {
            if token.as_str().is_empty() {
                return Err(ServerError::AuthFailed(string_of("Missing authentication token")));
            }
            let t = token.as_str();
            let verified = verify_auth_token(auth_service, t);
            let ghost answer = choose|a: Result<Claims, String>|
                call_ensures(A::verify_access, (auth_service, t), a) && is_auth_outcome(
                    a,
                    verified,
                );
            match verified {
                Ok(c) => {
                    let ghost m = msg;
                    let ghost sub = c.sub;
                    let r = plan_request(msg, dev_mode, attached, Some(c.sub));
                    proof {
                        assert(plan_relation(m, dev_mode, attached, Some(sub), r));
                        assert(authorised_outcome(m, dev_mode, attached, answer, r));
                        assert(call_ensures(A::verify_access, (auth_service, t), answer));
                    }
                    r
                },
                Err(e) => {
                    let r: Result<Plan, ServerError> = Err(e);
                    proof {
                        assert(authorised_outcome(msg, dev_mode, attached, answer, r));
                        assert(call_ensures(A::verify_access, (auth_service, t), answer));
                    }
                    r
                },
            }
        },
        _ => plan_request(msg, dev_mode, attached, None),
    }
}

// ---------------------------------------------------------------------------
// Outcomes and responses
// ---------------------------------------------------------------------------

/// A scrollback line as sent to a client, numbered from 0.
#[derive(Debug, Clone)]
pub struct NumberedLine {
    pub data: Vec<u8>,
    pub line_number: u64,
}

/// Session metadata sent with an attach response.
#[derive(Debug, Clone)]
pub struct SessionMetadata {
    pub rows: u32,
    pub cols: u32,
    pub shell_type: String,
    pub working_dir: String,
    pub created_at: i64,
    pub last_activity: i64,
}

/// The answer to an attach: the session id, its metadata and its
/// scrollback for late-joiner sync.
#[derive(Debug, Clone)]
pub struct AttachResponse {
    pub sequence_number: u64,
    pub session_id: String,
    pub metadata: Option<SessionMetadata>,
    pub scrollback: Vec<NumberedLine>,
}

/// Scrollback lines numbered by their position.
pub fn number_lines(lines: &Vec<Line>) -> (v: Vec<NumberedLine>)
    ensures
        v@.len() == lines@.len(),
        forall|i: int|
            0 <= i < v@.len() ==> (#[trigger] v@[i]).data@ == lines@[i].data@ && v@[i].line_number
                == i,
{
    let mut v: Vec<NumberedLine> = Vec::new();
    let mut i: usize = 0;
    while i < lines.len()
        invariant
            i <= lines@.len(),
            v@.len() == i,
            forall|j: int|
                0 <= j < i ==> (#[trigger] v@[j]).data@ == lines@[j].data@ && v@[j].line_number == j,
        decreases lines@.len() - i,
    {
        v.push(NumberedLine { data: lines[i].data.clone(), line_number: i as u64 });
        i = i + 1;
    }
    v
}

/// Whether `r` answers the attach request numbered `sequence_number` to
/// session `session_id`, whose state is `snapshot`, at `now`.
pub open spec fn is_attach_response(
    sequence_number: u64,
    session_id: u128,
    snapshot: SessionSnapshot,
    now: i64,
    r: AttachResponse,
) -> bool {
    &&& r.sequence_number == sequence_number
    &&& r.session_id@ == uuid_text(session_id)
    &&& r.metadata matches Some(m) && m.rows == snapshot.rows && m.cols == snapshot.cols
        && m.shell_type@ == snapshot.shell_type@ && m.working_dir@ == snapshot.working_dir@
        && m.created_at == now && m.last_activity == now
    &&& r.scrollback@.len() == snapshot.scrollback@.len()
    &&& forall|i: int|
        0 <= i < r.scrollback@.len() ==> (#[trigger] r.scrollback@[i]).data@
            == snapshot.scrollback@[i].data@ && r.scrollback@[i].line_number == i
}

/// The answer to an attach request numbered `sequence_number`, made at
/// `now` (seconds since the UNIX epoch; both timestamps carry it).
pub fn attach_response(sequence_number: u64, session_id: u128, snapshot: &SessionSnapshot, now: i64) -> (r:
    AttachResponse)
    ensures
        is_attach_response(sequence_number, session_id, *snapshot, now, r),
{
    AttachResponse {
        sequence_number,
        session_id: uuid_to_string(session_id),
        metadata: Some(
            SessionMetadata {
                rows: snapshot.rows as u32,
                cols: snapshot.cols as u32,
                shell_type: snapshot.shell_type.clone(),
                working_dir: snapshot.working_dir.clone(),
                created_at: now,
                last_activity: now,
            },
        ),
        scrollback: number_lines(&snapshot.scrollback),
    }
}

/// The error an attach failure is reported as: a missing session names
/// the session id the client asked for; anything else is an invalid
/// message "Attach failed: ...".
pub fn attach_error(e: SessionError, requested_session_id: String) -> (r: ServerError)
    ensures
        e is NotFound ==> r == ServerError::SessionNotFound(requested_session_id),
        !(e is NotFound) ==> (r matches ServerError::InvalidMessage(m) && m@ == "Attach failed: "@
            + session_error_text(e)),
{
    match e {
        SessionError::NotFound(_) => ServerError::SessionNotFound(requested_session_id),
        _ => {
            let t = e.message();
            ServerError::InvalidMessage(prefixed("Attach failed: ", &t))
        },
    }
}

/// A session-layer failure reported as an invalid message: `context`
/// (e.g. "Send input failed: ") followed by the error's message.
pub fn operation_error(context: &str, e: &SessionError) -> (r: ServerError)
    ensures
        r matches ServerError::InvalidMessage(m) && m@ == context@ + session_error_text(*e),
{
    let t = e.message();
    ServerError::InvalidMessage(prefixed(context, &t))
}

/// Clipboard failures.
#[derive(Debug, Clone)]
pub enum ClipboardError {
    RateLimitExceeded { retry_after: u64 },
    AuthorizationRequired,
    SizeLimitExceeded,
    /// Any other failure, with its message
    Other(String),
}

/// The answer to a clipboard read.
#[derive(Debug, Clone)]
pub struct ClipboardGetResponse {
    pub sequence_number: u64,
    pub request_id: String,
    pub content: String,
    pub mime_type: String,
    pub authorized: bool,
    pub error: String,
}

/// The text a clipboard failure is reported with. `size_message` is what a
/// size-limit failure says in this context.
pub open spec fn clipboard_error_text(e: ClipboardError, for_read: bool, other: Seq<char>) -> Seq<char> {
    match e {
        ClipboardError::RateLimitExceeded { retry_after } => "Rate limit exceeded. Retry after "@
            + decimal(retry_after as nat) + " seconds"@,
        ClipboardError::AuthorizationRequired => if for_read {
            "Authorization required for clipboard access"@
        } else {
            "Clipboard error: "@ + other
        },
        ClipboardError::SizeLimitExceeded => if for_read {
            "Clipboard error: "@ + other
        } else {
            "Clipboard size exceeds 1MB limit"@
        },
        ClipboardError::Other(m) => "Clipboard error: "@ + m@,
    }
}

fn clipboard_text(e: &ClipboardError, for_read: bool, display: &String) -> (t: String)
    ensures
        t@ == clipboard_error_text(*e, for_read, display@),
{
    match e {
        ClipboardError::RateLimitExceeded { retry_after } => {
            let mut m = string_of("Rate limit exceeded. Retry after ");
            push_decimal(&mut m, *retry_after);
            m.append(" seconds");
            m
        },
        ClipboardError::AuthorizationRequired => {
            if for_read {
                string_of("Authorization required for clipboard access")
            } else {
                prefixed("Clipboard error: ", display)
            }
        },
        ClipboardError::SizeLimitExceeded => {
            if for_read {
                prefixed("Clipboard error: ", display)
            } else {
                string_of("Clipboard size exceeds 1MB limit")
            }
        },
        ClipboardError::Other(m) => prefixed("Clipboard error: ", m),
    }
}

/// The answer to a clipboard read: the content as plain text, or an
/// unauthorized answer carrying the failure's text (`display` is the
/// failure's own message).
pub fn clipboard_get_response(
    sequence_number: u64,
    request_id: String,
    result: Result<String, ClipboardError>,
    display: &String,
) -> (r: ClipboardGetResponse)
    ensures
        r.sequence_number == sequence_number,
        r.request_id == request_id,
        match result {
            Ok(c) => r.content == c && r.mime_type@ == "text/plain"@ && r.authorized
                && r.error@.len() == 0,
            Err(e) => r.content@.len() == 0 && r.mime_type@.len() == 0 && !r.authorized
                && r.error@ == clipboard_error_text(e, true, display@),
        },
{
    match result {
        Ok(content) => ClipboardGetResponse {
            sequence_number,
            request_id,
            content,
            mime_type: string_of("text/plain"),
            authorized: true,
            error: String::new(),
        },
        Err(e) => ClipboardGetResponse {
            sequence_number,
            request_id,
            content: String::new(),
            mime_type: String::new(),
            authorized: false,
            error: clipboard_text(&e, true, display),
        },
    }
}

/// The error a failed clipboard write is reported as.
pub fn clipboard_set_error(e: &ClipboardError, display: &String) -> (r: ServerError)
    ensures
        r matches ServerError::InvalidMessage(m) && m@ == clipboard_error_text(*e, false, display@),
{
    ServerError::InvalidMessage(clipboard_text(e, false, display))
}

// ---------------------------------------------------------------------------
// Dashboard
// ---------------------------------------------------------------------------

/// The JSON string literal serde_json writes for a text.
pub uninterp spec fn json_quoted(s: Seq<char>) -> Seq<char>;

/// `serde_json::to_string` of a string.
#[verifier::external_body]
fn json_string(s: &str) -> (j: String)
    ensures
        j@ == json_quoted(s@),
{
    serde_json::to_string(s).unwrap_or_default()
}

/// The answer to a dashboard command: JSON and an error code (`Unknown`
/// means no error).
#[derive(Debug, Clone)]
pub struct DashboardResponse {
    pub sequence_number: u64,
    pub json_data: String,
    pub error: ErrorCode,
}

/// The message given when no relay is configured.
pub open spec fn p2p_disabled_text() -> Seq<char> {
    "P2P is not enabled on this daemon (no --relay-url configured)"@
}

/// `{"error":<text>}`.
pub open spec fn error_json(text: Seq<char>) -> Seq<char> {
    "{\"error\":"@ + json_quoted(text) + "}"@
}

fn error_json_of(text: &str) -> (j: String)
    ensures
        j@ == error_json(text@),
{
    let mut j = string_of("{\"error\":");
    let q = json_string(text);
    j.append(q.as_str());
    j.append("}");
    j
}

/// The answer to `account_peer_id`: the peer id, or an error without a
/// Whether `r` answers the peer-id request numbered `sequence_number`
/// with the daemon's peer id (`None`: P2P is not enabled).
pub open spec fn is_peer_id_response(
    sequence_number: u64,
    peer_id: Option<Seq<char>>,
    r: DashboardResponse,
) -> bool {
    &&& r.sequence_number == sequence_number
    &&& match peer_id {
        None => r.json_data@ == error_json(p2p_disabled_text()) && r.error == ErrorCode::ServerError,
        Some(p) => r.json_data@ == "{\"peer_id\":"@ + json_quoted(p) + "}"@ && r.error
            == ErrorCode::Unknown,
    }
}

/// pairing cache.
pub fn peer_id_response(sequence_number: u64, peer_id: Option<&str>) -> (r: DashboardResponse)
    ensures
        is_peer_id_response(
            sequence_number,
            match peer_id {
                Some(p) => Some(p@),
                None => None,
            },
            r,
        ),
{
    match peer_id {
        None => DashboardResponse {
            sequence_number,
            json_data: error_json_of("P2P is not enabled on this daemon (no --relay-url configured)"),
            error: ErrorCode::ServerError,
        },
        Some(p) => {
            let mut j = string_of("{\"peer_id\":");
            let q = json_string(p);
            j.append(q.as_str());
            j.append("}");
            DashboardResponse { sequence_number, json_data: j, error: ErrorCode::Unknown }
        },
    }
}

/// The answer to `account_pairing_code`: without a pairing cache an error;
/// otherwise the code and its expiry, or the failure's message.
pub fn pairing_code_response(
    sequence_number: u64,
    outcome: Option<Result<PairingCode, WebRtcError>>,
) -> (r: DashboardResponse)
    ensures
        r.sequence_number == sequence_number,
        match outcome {
            None => r.json_data@ == error_json(p2p_disabled_text()) && r.error == ErrorCode::ServerError,
            Some(Ok(c)) => r.json_data@ == "{\"code\":"@ + json_quoted(c.code@) + ",\"expires_at\":"@
                + signed_decimal(c.expires_at as int) + "}"@ && r.error == ErrorCode::Unknown,
            Some(Err(e)) => r.json_data@ == error_json(webrtc_error_text(e)) && r.error
                == ErrorCode::ServerError,
        },
{
    match outcome {
        None => DashboardResponse {
            sequence_number,
            json_data: error_json_of("P2P is not enabled on this daemon (no --relay-url configured)"),
            error: ErrorCode::ServerError,
        },
        Some(Ok(c)) => {
            let mut j = string_of("{\"code\":");
            let q = json_string(c.code.as_str());
            j.append(q.as_str());
            j.append(",\"expires_at\":");
            push_signed_decimal(&mut j, c.expires_at);
            j.append("}");
            DashboardResponse { sequence_number, json_data: j, error: ErrorCode::Unknown }
        },
        Some(Err(e)) => {
            let t = e.message();
            DashboardResponse {
                sequence_number,
                json_data: error_json_of(t.as_str()),
                error: ErrorCode::ServerError,
            }
        },
    }
}

/// The command line of a monomind command: `monomind@latest <command>
/// --json`, then `--<key> <value>` for each parameter in order.
pub open spec fn monomind_args_of(command: Seq<char>, params: Seq<(Seq<char>, Seq<char>)>) -> Seq<
    Seq<char>,
>
    decreases params.len(),
{
    if params.len() == 0 {
        seq!["monomind@latest"@, command, "--json"@]
    } else {
        let last = params.last();
        monomind_args_of(command, params.drop_last()).push("--"@ + last.0).push(last.1)
    }
}

/// The texts of parameter pairs.
pub open spec fn param_texts(params: Seq<(String, String)>) -> Seq<(Seq<char>, Seq<char>)> {
    params.map_values(|p: (String, String)| (p.0@, p.1@))
}

/// The arguments `npx` is run with for a monomind command.
pub fn monomind_args(command: &str, params: &Vec<(String, String)>) -> (args: Vec<String>)
    ensures
        args@.map_values(|a: String| a@) == monomind_args_of(command@, param_texts(params@)),
{
    let mut args: Vec<String> = Vec::new();
    args.push(string_of("monomind@latest"));
    args.push(string_of(command));
    args.push(string_of("--json"));
    let mut i: usize = 0;
    proof {
        assert(param_texts(params@.take(0)) =~= Seq::<(Seq<char>, Seq<char>)>::empty());
        assert(args@.map_values(|a: String| a@) =~= monomind_args_of(
            command@,
            param_texts(params@.take(0)),
        ));
    }
    while i < params.len()
        invariant
            i <= params@.len(),
            args@.map_values(|a: String| a@) == monomind_args_of(
                command@,
                param_texts(params@.take(i as int)),
            ),
        decreases params@.len() - i,
    {
        let ghost before = args@.map_values(|a: String| a@);
        let key = prefixed("--", &params[i].0);
        args.push(key);
        args.push(params[i].1.clone());
        proof {
            let t = param_texts(params@.take(i + 1));
            assert(t.drop_last() =~= param_texts(params@.take(i as int)));
            assert(t.last() == (params@[i as int].0@, params@[i as int].1@));
            assert(args@.map_values(|a: String| a@) =~= before.push("--"@ + params@[i as int].0@).push(
                params@[i as int].1@,
            ));
        }
        i = i + 1;
    }
    proof {
        assert(params@.take(params@.len() as int) =~= params@);
    }
    args
}

/// How running a monomind command went.
#[derive(Debug, Clone)]
pub enum MonomindRun {
    /// It exited successfully with this output.
    Succeeded(String),
    /// It exited unsuccessfully with this error output and exit code (none
    /// when killed by a signal).
    Failed { stderr: String, exit_code: Option<i32> },
    /// It could not be started.
    SpawnFailed(String),
    /// The task running it failed.
    JoinFailed(String),
}

/// `null` or the decimal of an exit code.
pub open spec fn exit_code_json(code: Option<i32>) -> Seq<char> {
    match code {
        None => "null"@,
        Some(c) => signed_decimal(c as int),
    }
}

/// The answer to a monomind command: its output on success, else a JSON
/// error with code `ServerError`.
pub fn monomind_response(sequence_number: u64, run: MonomindRun) -> (r: DashboardResponse)
    ensures
        r.sequence_number == sequence_number,
        match run {
            MonomindRun::Succeeded(out) => r.json_data == out && r.error == ErrorCode::Unknown,
            MonomindRun::Failed { stderr, exit_code } => r.json_data@ == "{\"error\":"@
                + json_quoted(stderr@) + ",\"exitCode\":"@ + exit_code_json(exit_code) + "}"@
                && r.error == ErrorCode::ServerError,
            MonomindRun::SpawnFailed(e) => r.json_data@ == error_json(
                "Command execution failed: "@ + e@,
            ) && r.error == ErrorCode::ServerError,
            MonomindRun::JoinFailed(e) => r.json_data@ == error_json("Task join failed: "@ + e@)
                && r.error == ErrorCode::ServerError,
        },
{
    match run {
        MonomindRun::Succeeded(out) => DashboardResponse {
            sequence_number,
            json_data: out,
            error: ErrorCode::Unknown,
        },
        MonomindRun::Failed { stderr, exit_code } => {
            let mut j = string_of("{\"error\":");
            let q = json_string(stderr.as_str());
            j.append(q.as_str());
            j.append(",\"exitCode\":");
            match exit_code {
                None => {
                    j.append("null");
                },
                Some(c) => {
                    push_signed_decimal(&mut j, c as i64);
                },
            }
            j.append("}");
            DashboardResponse { sequence_number, json_data: j, error: ErrorCode::ServerError }
        },
        MonomindRun::SpawnFailed(e) => {
            let t = prefixed("Command execution failed: ", &e);
            DashboardResponse {
                sequence_number,
                json_data: error_json_of(t.as_str()),
                error: ErrorCode::ServerError,
            }
        },
        MonomindRun::JoinFailed(e) => {
            let t = prefixed("Task join failed: ", &e);
            DashboardResponse {
                sequence_number,
                json_data: error_json_of(t.as_str()),
                error: ErrorCode::ServerError,
            }
        },
    }
}

// ---------------------------------------------------------------------------
// Monomind health, upgrade and detection
// ---------------------------------------------------------------------------

/// Severity of a monomind health issue.
#[derive(Debug, Clone, Copy, PartialEq, Eq, Structural)]
pub enum IssueSeverity {
    Info,
    Warning,
    Error,
}

/// A health issue as the monomind doctor reports it.
#[derive(Debug, Clone)]
pub struct DoctorIssue {
    pub severity: IssueSeverity,
    pub message: String,
    pub resolution: Option<String>,
}

/// What the monomind doctor reports.
#[derive(Debug, Clone)]
pub struct DoctorReport {
    pub installed: bool,
    pub version: Option<String>,
    pub control_server_reachable: bool,
    pub broker_registered: bool,
    /// Last check, seconds since the UNIX epoch
    pub last_check: i64,
    pub issues: Vec<DoctorIssue>,
}

/// A health issue as sent to the client (no resolution is sent as "").
#[derive(Debug, Clone)]
pub struct HealthIssue {
    pub severity: IssueSeverity,
    pub message: String,
    pub resolution: String,
}

/// The answer to a health-check request.
#[derive(Debug, Clone)]
pub struct HealthCheckResponse {
    pub sequence_number: u64,
    pub installed: bool,
    pub version: String,
    pub control_server_reachable: bool,
    pub broker_registered: bool,
    pub last_check_timestamp: i64,
    pub issues: Vec<HealthIssue>,
}

/// The text of an optional string ("" when absent).
pub open spec fn text_or_empty(s: Option<String>) -> Seq<char> {
    match s {
        Some(t) => t@,
        None => Seq::<char>::empty(),
    }
}

fn string_or_empty(s: Option<String>) -> (r: String)
    ensures
        r@ == text_or_empty(s),
{
    match s {
        Some(t) => t,
        None => String::new(),
    }
}

/// The issue as sent to the client.
pub open spec fn issue_sent(i: DoctorIssue, h: HealthIssue) -> bool {
    h.severity == i.severity && h.message == i.message && h.resolution@ == text_or_empty(
        i.resolution,
    )
}

/// The answer to a health-check request from the doctor's report.
pub fn health_check_response(sequence_number: u64, report: DoctorReport) -> (r: HealthCheckResponse)
    ensures
        r.sequence_number == sequence_number,
        r.installed == report.installed,
        r.version@ == text_or_empty(report.version),
        r.control_server_reachable == report.control_server_reachable,
        r.broker_registered == report.broker_registered,
        r.last_check_timestamp == report.last_check,
        r.issues@.len() == report.issues@.len(),
        forall|i: int|
            0 <= i < r.issues@.len() ==> issue_sent(report.issues@[i], #[trigger] r.issues@[i]),
{
    let mut issues: Vec<HealthIssue> = Vec::new();
    let mut i: usize = 0;
    while i < report.issues.len()
        invariant
            i <= report.issues@.len(),
            issues@.len() == i,
            forall|j: int| 0 <= j < i ==> issue_sent(report.issues@[j], #[trigger] issues@[j]),
        decreases report.issues@.len() - i,
    {
        let issue = &report.issues[i];
        issues.push(
            HealthIssue {
                severity: issue.severity,
                message: issue.message.clone(),
                resolution: string_or_empty(issue.resolution.clone()),
            },
        );
        i = i + 1;
    }
    HealthCheckResponse {
        sequence_number,
        installed: report.installed,
        version: string_or_empty(report.version),
        control_server_reachable: report.control_server_reachable,
        broker_registered: report.broker_registered,
        last_check_timestamp: report.last_check,
        issues,
    }
}

/// What a monomind upgrade reports.
#[derive(Debug, Clone)]
pub struct UpgradeOutcome {
    pub success: bool,
    pub old_version: Option<String>,
    pub new_version: Option<String>,
    pub output: String,
}

/// The outcome recorded when the upgrade could not run.
pub fn upgrade_failed(detail: &String) -> (o: UpgradeOutcome)
    ensures
        !o.success,
        o.old_version is None,
        o.new_version is None,
        o.output@ == "Upgrade failed: "@ + detail@,
{
    UpgradeOutcome {
        success: false,
        old_version: None,
        new_version: None,
        output: prefixed("Upgrade failed: ", detail),
    }
}

/// The answer to an upgrade request.
#[derive(Debug, Clone)]
pub struct UpgradeResponse {
    pub sequence_number: u64,
    pub success: bool,
    pub old_version: String,
    pub new_version: String,
    pub output: String,
}

/// The answer to an upgrade request from its outcome.
pub fn upgrade_response(sequence_number: u64, outcome: UpgradeOutcome) -> (r: UpgradeResponse)
    ensures
        r.sequence_number == sequence_number,
        r.success == outcome.success,
        r.old_version@ == text_or_empty(outcome.old_version),
        r.new_version@ == text_or_empty(outcome.new_version),
        r.output == outcome.output,
{
    UpgradeResponse {
        sequence_number,
        success: outcome.success,
        old_version: string_or_empty(outcome.old_version),
        new_version: string_or_empty(outcome.new_version),
        output: outcome.output,
    }
}

/// What monomind detection found.
#[derive(Debug, Clone)]
pub struct Detection {
    pub found: bool,
    pub monomind_root: Option<String>,
    pub suggest_install: bool,
    pub dismiss_file_exists: bool,
}

/// The answer to a detection request.
#[derive(Debug, Clone)]
pub struct DetectionResponse {
    pub sequence_number: u64,
    pub found: bool,
    pub monomind_root: String,
    pub suggest_install: bool,
    pub dismiss_file_exists: bool,
    pub banner_text: String,
}

/// The answer to a detection request: the install banner is shown only
/// Whether `r` answers the detection request numbered `sequence_number`
/// whose detection found `d`; `install_banner` is shown where monomind is
/// missing.
pub open spec fn is_detection_response(
    sequence_number: u64,
    d: Detection,
    install_banner: Seq<char>,
    r: DetectionResponse,
) -> bool {
    &&& r.sequence_number == sequence_number
    &&& r.found == d.found
    &&& r.monomind_root@ == text_or_empty(d.monomind_root)
    &&& r.suggest_install == d.suggest_install
    &&& r.dismiss_file_exists == d.dismiss_file_exists
    &&& r.banner_text@ == (if d.suggest_install { install_banner } else { Seq::<char>::empty() })
}

/// when installing is suggested.
pub fn detection_response(sequence_number: u64, d: Detection, install_banner: &str) -> (r:
    DetectionResponse)
    ensures
        is_detection_response(sequence_number, d, install_banner@, r),
{
    let banner_text = if d.suggest_install {
        string_of(install_banner)
    } else {
        String::new()
    };
    DetectionResponse {
        sequence_number,
        found: d.found,
        monomind_root: string_or_empty(d.monomind_root),
        suggest_install: d.suggest_install,
        dismiss_file_exists: d.dismiss_file_exists,
        banner_text,
    }
}

// ---------------------------------------------------------------------------
// Connection loop
// ---------------------------------------------------------------------------

/// A frame received from the client.
#[derive(Debug, Clone)]
pub enum ClientFrame {
    Binary(Vec<u8>),
    Text,
    Ping(Vec<u8>),
    Pong,
    Close,
    /// A raw frame
    Raw,
    /// The transport failed
    Failed,
}

/// What a client frame calls for.
#[derive(Debug, Clone)]
pub enum FrameStep {
    /// Decode this protocol envelope.
    Decode(Vec<u8>),
    /// Answer a ping with the same payload.
    Pong(Vec<u8>),
    /// Nothing (text and raw frames are not part of the protocol).
    Ignore,
    /// End the connection.
    Stop,
}

/// What a client frame calls for.
pub fn frame_step(frame: ClientFrame) -> (s: FrameStep)
    ensures
        match frame {
            ClientFrame::Binary(d) => s == FrameStep::Decode(d),
            ClientFrame::Ping(p) => s == FrameStep::Pong(p),
            ClientFrame::Close => s is Stop,
            ClientFrame::Failed => s is Stop,
            _ => s is Ignore,
        },
{
    match frame {
        ClientFrame::Binary(d) => FrameStep::Decode(d),
        ClientFrame::Ping(p) => FrameStep::Pong(p),
        ClientFrame::Close => FrameStep::Stop,
        ClientFrame::Failed => FrameStep::Stop,
        ClientFrame::Text => FrameStep::Ignore,
        ClientFrame::Pong => FrameStep::Ignore,
        ClientFrame::Raw => FrameStep::Ignore,
    }
}

/// The count of replies a connection sent, which numbers its error
/// envelopes.
pub struct ReplyCounter {
    sent: u64,
}

impl ReplyCounter {
    /// Replies sent so far (wrapping at 2^64).
    pub closed spec fn count(&self) -> u64 {
        self.sent
    }

    /// No reply sent yet.
    pub fn new() -> (c: Self)
        ensures
            c.count() == 0,
    {
        ReplyCounter { sent: 0 }
    }

    /// The outcome of processing a request: `Ok(true)` when a response was
    /// sent, `Ok(false)` when none is due, or the error. An error is
    /// answered with an envelope numbered by the count; every reply counts.
    pub fn on_outcome(&mut self, outcome: Result<bool, ServerError>) -> (e: Option<ErrorEnvelope>)
        ensures
            match outcome {
                Ok(true) => e is None && final(self).count() == old(self).count().wrapping_add(1),
                Ok(false) => e is None && final(self).count() == old(self).count(),
                Err(err) => (e matches Some(env) && env.sequence_number == old(self).count() && (
                env.code, env.message@) == error_report(err)) && final(self).count() == old(
                    self,
                ).count().wrapping_add(1),
            },
    {
        match outcome {
            Ok(true) => {
                self.sent = self.sent.wrapping_add(1);
                None
            },
            Ok(false) => None,
            Err(err) => {
                let env = create_error_envelope(self.sent, err);
                self.sent = self.sent.wrapping_add(1);
                Some(env)
            },
        }
    }

    /// A frame that is not a protocol envelope: answered with a decode
    /// error numbered by the count, which counts as a reply.
    pub fn on_decode_error(&mut self, detail: &str) -> (e: ErrorEnvelope)
        ensures
            e.sequence_number == old(self).count(),
            e.code == ErrorCode::InvalidRequest,
            e.message@ == "Protocol decode error: "@ + detail@,
            final(self).count() == old(self).count().wrapping_add(1),
    {
        let env = decode_error_envelope(self.sent, detail);
        self.sent = self.sent.wrapping_add(1);
        env
    }
}

// ---------------------------------------------------------------------------
// Responses
// ---------------------------------------------------------------------------

/// What carrying out a planned request produced, as far as its response
/// reads it.
pub enum Served {
    /// The client attached to a session; `now` is the time in seconds.
    Attached { session_id: u128, snapshot: SessionSnapshot, now: i64 },
    /// The daemon's peer id (`None`: P2P is not enabled).
    PeerId(Option<String>),
    /// The pairing code lookup (`None`: P2P is not enabled).
    PairingCode(Option<Result<PairingCode, WebRtcError>>),
    /// A monomind command ran.
    Monomind(MonomindRun),
    /// A monomind health check ran.
    Doctor(DoctorReport),
    /// A monomind upgrade ran.
    Upgraded(UpgradeOutcome),
    /// Monomind detection ran; the banner to show where it is missing.
    Detected { detection: Detection, install_banner: String },
    /// A pane layout changed; its encoded update.
    Layout(Vec<u8>),
    /// A clipboard read, with the failure's own message.
    Clipboard { request_id: String, result: Result<String, ClipboardError>, display: String },
    /// The request was carried out and no response is due.
    Done,
}

/// A response to a request.
pub enum Response {
    Attach(AttachResponse),
    Dashboard(DashboardResponse),
    HealthCheck(HealthCheckResponse),
    Upgrade(UpgradeResponse),
    Detection(DetectionResponse),
    Layout { sequence_number: u64, update: Vec<u8> },
    ClipboardGet(ClipboardGetResponse),
}

/// The sequence number a response carries.
pub open spec fn response_sequence(r: Response) -> u64 {
    match r {
        Response::Attach(a) => a.sequence_number,
        Response::Dashboard(d) => d.sequence_number,
        Response::HealthCheck(h) => h.sequence_number,
        Response::Upgrade(u) => u.sequence_number,
        Response::Detection(d) => d.sequence_number,
        Response::Layout { sequence_number, .. } => sequence_number,
        Response::ClipboardGet(c) => c.sequence_number,
    }
}

/// Whether `r` is the response to the request numbered `seq` that was
/// served as `served`: the response its builder makes.
pub open spec fn responds(seq: u64, served: Served, r: Option<Response>) -> bool {
    match served {
        Served::Attached { session_id, snapshot, now } => r matches Some(Response::Attach(a))
            && is_attach_response(seq, session_id, snapshot, now, a),
        Served::PeerId(id) => r matches Some(Response::Dashboard(d)) && is_peer_id_response(
            seq,
            match id {
                Some(p) => Some(p@),
                None => None,
            },
            d,
        ),
        Served::PairingCode(o) => r matches Some(Response::Dashboard(d)) && call_ensures(
            pairing_code_response,
            (seq, o),
            d,
        ),
        Served::Monomind(run) => r matches Some(Response::Dashboard(d)) && call_ensures(
            monomind_response,
            (seq, run),
            d,
        ),
        Served::Doctor(rep) => r matches Some(Response::HealthCheck(h)) && call_ensures(
            health_check_response,
            (seq, rep),
            h,
        ),
        Served::Upgraded(o) => r matches Some(Response::Upgrade(u)) && call_ensures(
            upgrade_response,
            (seq, o),
            u,
        ),
        Served::Detected { detection, install_banner } => r matches Some(Response::Detection(d))
            && is_detection_response(seq, detection, install_banner@, d),
        Served::Layout(update) => r == Some(Response::Layout { sequence_number: seq, update }),
        Served::Clipboard { request_id, result, display } => r matches Some(
            Response::ClipboardGet(c),
        ) && call_ensures(clipboard_get_response, (seq, request_id, result, &display), c),
        Served::Done => r is None,
    }
}

/// The response to the request numbered `sequence_number`, once it was
/// served: every response carries the request's own sequence number, and
/// none is due when the request needed no answer.
pub fn respond(sequence_number: u64, served: Served) -> (r: Option<Response>)
    ensures
        responds(sequence_number, served, r),
        r matches Some(x) ==> response_sequence(x) == sequence_number,
        r is None <==> served is Done,
{
    match served {
        Served::Attached { session_id, snapshot, now } => {
            Some(Response::Attach(attach_response(sequence_number, session_id, &snapshot, now)))
        },
        Served::PeerId(id) => {
            let t: Option<&str> = match &id {
                Some(s) => Some(s.as_str()),
                None => None,
            };
            Some(Response::Dashboard(peer_id_response(sequence_number, t)))
        },
        Served::PairingCode(o) => {
            let ghost go = o;
            let d = pairing_code_response(sequence_number, o);
            proof {
                assert(call_ensures(pairing_code_response, (sequence_number, go), d));
            }
            Some(Response::Dashboard(d))
        },
        Served::Monomind(run) => {
            let ghost gr = run;
            let d = monomind_response(sequence_number, run);
            proof {
                assert(call_ensures(monomind_response, (sequence_number, gr), d));
            }
            Some(Response::Dashboard(d))
        },
        Served::Doctor(rep) => {
            let ghost gr = rep;
            let h = health_check_response(sequence_number, rep);
            proof {
                assert(call_ensures(health_check_response, (sequence_number, gr), h));
            }
            Some(Response::HealthCheck(h))
        },
        Served::Upgraded(o) => {
            let ghost go = o;
            let u = upgrade_response(sequence_number, o);
            proof {
                assert(call_ensures(upgrade_response, (sequence_number, go), u));
            }
            Some(Response::Upgrade(u))
        },
        Served::Detected { detection, install_banner } => {
            Some(
                Response::Detection(
                    detection_response(sequence_number, detection, install_banner.as_str()),
                ),
            )
        },
        Served::Layout(update) => Some(Response::Layout { sequence_number, update }),
        Served::Clipboard { request_id, result, display } => {
            let ghost gi = request_id;
            let ghost gr = result;
            let c = clipboard_get_response(sequence_number, request_id, result, &display);
            proof {
                assert(call_ensures(clipboard_get_response, (sequence_number, gi, gr, &display), c));
            }
            Some(Response::ClipboardGet(c))
        },
        Served::Done => None,
    }
}

} // verus!
