//! Per-endpoint decisions built on the risk classifier: the bait file only
//! observes, the trap endpoint checks a credential and contains failures.

use vstd::prelude::*;
use vstd::string::*;

use crate::risk::{calculate_risk, risk_reasons, risk_score, texts, MAX_SCORE};
use crate::text::same_text;

verus! {

/// Points added to a trap request's score when the credential is missing or wrong.
pub const AUTH_PENALTY: u8 = 20;

/// How long, in milliseconds, a contained request is held before it is answered.
pub const CONTAINMENT_DELAY_MS: u64 = 2000;

/// Which canned response the collaborator renders.
#[derive(PartialEq, Eq, Structural, Clone, Copy, Debug)]
pub enum ResponseVariant {
    Public,
    AdminDashboard,
    AccessDenied,
}

/// The outcome of the trap endpoint for one request.
pub struct AccessDecision {
    pub authorized: bool,
    pub final_score: u8,
    pub response_variant: ResponseVariant,
    pub delay_ms: u64,
    pub reasons: Vec<String>,
}

/// The one credential that opens the dashboard.
pub open spec fn admin_key() -> Seq<char> {
    "MorandaBoss"@
}

/// Whether a supplied credential (possibly absent) is the admin credential.
pub open spec fn is_admin_key(key: Option<Seq<char>>) -> bool {
    key == Some(admin_key())
}

/// The text of an optional credential.
pub open spec fn key_text(key: Option<&str>) -> Option<Seq<char>> {
    match key {
        Some(k) => Some(k@),
        None => None,
    }
}

/// A score raised by the authorization penalty, saturated at the maximum.
pub open spec fn escalated(score: nat) -> nat {
    if score + AUTH_PENALTY as nat > MAX_SCORE as nat {
        MAX_SCORE as nat
    } else {
        score + AUTH_PENALTY as nat
    }
}

/// Whether the supplied credential equals the admin credential exactly.
/// An absent credential is never authorized.
pub fn is_authorized(key: Option<&str>) -> (r: bool)
    ensures
        r == is_admin_key(key_text(key)),
{
    match key {
        Some(k) => same_text(k, "MorandaBoss"),
        None => false,
    }
}

/// The score the bait file records for a visitor with this user-agent.
pub fn bait_score(user_agent: &str) -> (r: u8)
    ensures
        r as nat == risk_score(user_agent@, "/robots.txt"@),
{
    let (score, _reasons) = calculate_risk(user_agent, "/robots.txt");
    score
}

/// Decides the trap endpoint's response.
///
/// The credential alone gates access. With the admin credential the
/// dashboard is served at once, whatever the user-agent. Otherwise the
/// reason `"Auth missing"` is appended, the score rises by 20 (saturating
/// at 100), and the denial page is served after a fixed delay.
pub fn trap_decision(user_agent: &str, key: Option<&str>) -> (d: AccessDecision)
    ensures
        d.authorized == is_admin_key(key_text(key)),
        d.authorized ==> {
            &&& d.final_score as nat == risk_score(user_agent@, "/admin"@)
            &&& d.response_variant == ResponseVariant::AdminDashboard
            &&& d.delay_ms == 0
            &&& texts(d.reasons@) == risk_reasons(user_agent@, "/admin"@)
        },
        !d.authorized ==> {
            &&& d.final_score as nat == escalated(risk_score(user_agent@, "/admin"@))
            &&& d.response_variant == ResponseVariant::AccessDenied
            &&& d.delay_ms == CONTAINMENT_DELAY_MS
            &&& texts(d.reasons@) == risk_reasons(user_agent@, "/admin"@).push("Auth missing"@)
        },
{
    let (score, mut reasons) = calculate_risk(user_agent, "/admin");
    if is_authorized(key) {
        return AccessDecision {
            authorized: true,
            final_score: score,
            response_variant: ResponseVariant::AdminDashboard,
            delay_ms: 0,
            reasons,
        };
    }
    let ghost before = reasons@;
    reasons.push(String::from_str("Auth missing"));
    assert(texts(reasons@) =~= texts(before).push("Auth missing"@));
    let final_score: u8 = if score > MAX_SCORE - AUTH_PENALTY {
        MAX_SCORE
    } else {
        score + AUTH_PENALTY
    };
    AccessDecision {
        authorized: false,
        final_score,
        response_variant: ResponseVariant::AccessDenied,
        delay_ms: CONTAINMENT_DELAY_MS,
        reasons,
    }
}

} // verus!
