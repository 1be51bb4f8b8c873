//! Health checks of the daemon's components and the overall status.

use crate::errors::{webrtc_error_text, WebRtcError};
use crate::text::{str_eq, string_of};
use vstd::prelude::*;

verus! {

/// `chrono::Utc::now().to_rfc3339()`: the current time in RFC 3339. It
/// depends on the clock: nothing is promised of it.
#[verifier::external_body]
fn now_rfc3339() -> String {
    chrono::Utc::now().to_rfc3339()
}

/// Health of one component.
#[derive(Debug, Clone)]
pub struct ComponentHealth {
    /// "healthy", "unhealthy" or "unknown"
    pub status: String,
    /// What went wrong
    pub message: Option<String>,
    /// When it was checked (RFC 3339)
    pub last_checked: String,
}

impl ComponentHealth {
    /// A healthy component, checked now.
    pub fn healthy() -> (h: Self)
        ensures
            h.status@ == "healthy"@,
            h.message is None,
    {
        ComponentHealth { status: string_of("healthy"), message: None, last_checked: now_rfc3339() }
    }

    /// An unhealthy component and why, checked now.
    pub fn unhealthy(message: String) -> (h: Self)
        ensures
            h.status@ == "unhealthy"@,
            h.message == Some(message),
    {
        ComponentHealth {
            status: string_of("unhealthy"),
            message: Some(message),
            last_checked: now_rfc3339(),
        }
    }

    /// A component whose health is unknown, checked now.
    pub fn unknown() -> (h: Self)
        ensures
            h.status@ == "unknown"@,
            h.message is None,
    {
        ComponentHealth { status: string_of("unknown"), message: None, last_checked: now_rfc3339() }
    }
}

/// Health of each component.
#[derive(Debug, Clone)]
pub struct HealthChecks {
    pub websocket: ComponentHealth,
    pub stun: ComponentHealth,
    pub turn: Option<ComponentHealth>,
    pub directory: Option<ComponentHealth>,
}

/// The health report.
#[derive(Debug, Clone)]
pub struct HealthResponse {
    /// "healthy" or "degraded"
    pub status: String,
    pub checks: HealthChecks,
    /// When the report was made (RFC 3339)
    pub timestamp: String,
}

/// The overall status for a STUN health: an unreachable STUN server
/// degrades P2P while the WebSocket keeps working.
pub open spec fn overall_status(stun_status: Seq<char>) -> Seq<char> {
    if stun_status == "unhealthy"@ {
        "degraded"@
    } else {
        "healthy"@
    }
}

/// The health report for a STUN health: the WebSocket is healthy (it
/// answers), TURN and directory are not checked.
pub fn health_report(stun: ComponentHealth) -> (r: HealthResponse)
    ensures
        r.status@ == overall_status(stun.status@),
        r.checks.websocket.status@ == "healthy"@,
        r.checks.stun == stun,
        r.checks.turn is None,
        r.checks.directory is None,
{
    let status = if str_eq(stun.status.as_str(), "unhealthy") {
        string_of("degraded")
    } else {
        string_of("healthy")
    };
    HealthResponse {
        status,
        checks: HealthChecks {
            websocket: ComponentHealth::healthy(),
            stun,
            turn: None,
            directory: None,
        },
        timestamp: now_rfc3339(),
    }
}

/// The STUN health: unhealthy without configured servers, else what
/// probing the first server gave (`probe`, absent only without servers).
pub fn stun_health(has_servers: bool, probe: Option<Result<bool, WebRtcError>>) -> (h:
    ComponentHealth)
    ensures
        !has_servers ==> (h.status@ == "unhealthy"@ && (h.message matches Some(m) && m@
            == "No STUN servers configured"@)),
        has_servers ==> match probe {
            Some(Ok(_)) => h.status@ == "healthy"@ && h.message is None,
            Some(Err(e)) => h.status@ == "unhealthy"@ && (h.message matches Some(m) && m@
                == "STUN server unreachable: "@ + webrtc_error_text(e)),
            None => h.status@ == "unknown"@ && h.message is None,
        },
{
    if !has_servers {
        return ComponentHealth::unhealthy(string_of("No STUN servers configured"));
    }
    match probe {
        Some(Ok(_)) => ComponentHealth::healthy(),
        Some(Err(e)) => {
            let t = e.message();
            ComponentHealth::unhealthy(crate::errors::prefixed("STUN server unreachable: ", &t))
        },
        None => ComponentHealth::unknown(),
    }
}

} // verus!
