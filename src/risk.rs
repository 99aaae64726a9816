//! The risk classifier: a bounded score and an ordered list of reasons for a
//! request's user-agent and path.

use vstd::prelude::*;
use vstd::string::*;

use crate::text::{contains_text, has_substring, same_text};

verus! {

/// Points added for each automation indicator found in the user-agent.
pub const INDICATOR_POINTS: u32 = 30;

/// Points added when the privileged endpoint is requested.
pub const PRIVILEGED_PATH_POINTS: u32 = 50;

/// Points added when the crawler bait file is requested.
pub const BAIT_PATH_POINTS: u32 = 10;

/// The highest score a request can receive.
pub const MAX_SCORE: u8 = 100;

/// Substrings of user-agents that identify automated tools, in matching order.
pub open spec fn automation_indicators() -> Seq<Seq<char>> {
    seq!["WebZip"@, "Nutch"@, "Jetbot"@, "BecomeBot"@, "CheeseBot"@]
}

/// The entries of `inds` that occur in the user-agent `ua`, in their order.
pub open spec fn matches_in(ua: Seq<char>, inds: Seq<Seq<char>>) -> Seq<Seq<char>> {
    inds.filter(|ind: Seq<char>| has_substring(ua, ind))
}

/// The automation indicators that occur in the user-agent `ua`, in list order.
pub open spec fn matched_indicators(ua: Seq<char>) -> Seq<Seq<char>> {
    matches_in(ua, automation_indicators())
}

/// The reason recorded for a matched indicator.
pub open spec fn indicator_reason(ind: Seq<char>) -> Seq<char> {
    "Automation indicator: "@ + ind
}

/// Whether `path` is the privileged (trap) endpoint.
pub open spec fn is_privileged_path(path: Seq<char>) -> bool {
    path == "/admin"@
}

/// Whether `path` is the crawler bait file.
pub open spec fn is_bait_path(path: Seq<char>) -> bool {
    path == "/robots.txt"@
}

/// Points contributed by the requested path.
pub open spec fn path_points(path: Seq<char>) -> nat {
    (if is_privileged_path(path) { PRIVILEGED_PATH_POINTS as nat } else { 0 }) + (if is_bait_path(
        path,
    ) {
        BAIT_PATH_POINTS as nat
    } else {
        0
    })
}

/// Reasons contributed by the requested path, in evaluation order.
pub open spec fn path_reasons(path: Seq<char>) -> Seq<Seq<char>> {
    (if is_privileged_path(path) {
        seq!["Privileged endpoint probe"@]
    } else {
        Seq::empty()
    }) + (if is_bait_path(path) {
        seq!["Reconnaissance pattern"@]
    } else {
        Seq::empty()
    })
}

/// The uncapped sum of all signal weights that fire for a request.
pub open spec fn raw_risk(ua: Seq<char>, path: Seq<char>) -> nat {
    INDICATOR_POINTS as nat * matched_indicators(ua).len() + path_points(path)
}

/// The risk score of a request: the signal sum, saturated at the maximum.
pub open spec fn risk_score(ua: Seq<char>, path: Seq<char>) -> nat {
    if raw_risk(ua, path) > MAX_SCORE as nat {
        MAX_SCORE as nat
    } else {
        raw_risk(ua, path)
    }
}

/// One reason per fired signal: indicators in list order, then the path.
pub open spec fn risk_reasons(ua: Seq<char>, path: Seq<char>) -> Seq<Seq<char>> {
    matched_indicators(ua).map_values(|ind: Seq<char>| indicator_reason(ind)) + path_reasons(path)
}

/// The text of each string in `v`.
pub open spec fn texts(v: Seq<String>) -> Seq<Seq<char>> {
    v.map_values(|s: String| s@)
}

proof fn lemma_matches_step(ua: Seq<char>, inds: Seq<Seq<char>>, i: int)
    requires
        0 <= i < inds.len(),
    ensures
        matches_in(ua, inds.take(i + 1)) == (if has_substring(ua, inds[i]) {
            matches_in(ua, inds.take(i)).push(inds[i])
        } else {
            matches_in(ua, inds.take(i))
        }),
{
    reveal(Seq::filter);
    assert(inds.take(i + 1).drop_last() =~= inds.take(i));
    assert(inds.take(i + 1).last() == inds[i]);
}

/// The automation indicators as executable strings.
fn indicator_list() -> (r: Vec<&'static str>)
    ensures
        r@.len() == automation_indicators().len(),
        forall|i: int| 0 <= i < r@.len() ==> (#[trigger] r@[i])@ == automation_indicators()[i],
{
    let r: Vec<&'static str> = vec!["WebZip", "Nutch", "Jetbot", "BecomeBot", "CheeseBot"];
    r
}

/// Scores a request by its user-agent and path.
///
/// Each automation indicator found in `agent` (case-sensitive substring)
/// adds 30 points and the reason `"Automation indicator: <indicator>"`, in
/// list order; the privileged path adds 50 and `"Privileged endpoint probe"`;
/// the bait path adds 10 and `"Reconnaissance pattern"`. The total saturates
/// at 100.
pub fn calculate_risk(agent: &str, path: &str) -> (r: (u8, Vec<String>))
    ensures
        r.0 as nat == risk_score(agent@, path@),
        r.0 <= MAX_SCORE,
        texts(r.1@) == risk_reasons(agent@, path@),
{
    let indicators = indicator_list();
    let ghost inds = automation_indicators();
    let mut score: u32 = 0;
    let mut reasons: Vec<String> = Vec::new();
    let mut i: usize = 0;
    while i < indicators.len()
        invariant
            indicators@.len() == inds.len(),
            inds == automation_indicators(),
            forall|k: int|
                0 <= k < indicators@.len() ==> (#[trigger] indicators@[k])@ == inds[k],
            0 <= i <= inds.len(),
            score as nat == INDICATOR_POINTS as nat * matches_in(agent@, inds.take(i as int)).len(),
            texts(reasons@) == matches_in(agent@, inds.take(i as int)).map_values(
                |ind: Seq<char>| indicator_reason(ind),
            ),
        decreases indicators.len() - i,
    {
        let ind: &str = indicators[i];
        proof {
            lemma_matches_step(agent@, inds, i as int);
        }
        if contains_text(agent, ind) {
            let mut reason = String::from_str("Automation indicator: ");
            reason.append(ind);
            let ghost before = reasons@;
            reasons.push(reason);
            assert(texts(reasons@) =~= texts(before).push(indicator_reason(inds[i as int])));
            assert(matches_in(agent@, inds.take(i as int + 1)).map_values(
                |ind: Seq<char>| indicator_reason(ind),
            ) =~= matches_in(agent@, inds.take(i as int)).map_values(
                |ind: Seq<char>| indicator_reason(ind),
            ).push(indicator_reason(inds[i as int])));
            score = score + INDICATOR_POINTS;
        }
        i = i + 1;
    }
    assert(inds.take(inds.len() as int) =~= inds);
    if same_text(path, "/admin") {
        score = score + PRIVILEGED_PATH_POINTS;
        reasons.push(String::from_str("Privileged endpoint probe"));
    }
    if same_text(path, "/robots.txt") {
        score = score + BAIT_PATH_POINTS;
        reasons.push(String::from_str("Reconnaissance pattern"));
    }
    assert(texts(reasons@) =~= risk_reasons(agent@, path@));
    let capped: u8 = if score > MAX_SCORE as u32 {
        MAX_SCORE
    } else {
        score as u8
    };
    (capped, reasons)
}

/// Whatever the user-agent and path, the score lies between 0 and 100,
/// even when every indicator and both path signals fire.
pub proof fn lemma_score_bounded(ua: Seq<char>, path: Seq<char>)
    ensures
        0 <= risk_score(ua, path) <= MAX_SCORE as nat,
{
}

/// Classification is a pure function of its inputs: two results that both
/// meet the classifier's contract for the same user-agent and path are equal.
pub proof fn lemma_classify_deterministic(
    ua: Seq<char>,
    path: Seq<char>,
    first: (u8, Seq<Seq<char>>),
    second: (u8, Seq<Seq<char>>),
)
    requires
        first.0 as nat == risk_score(ua, path),
        first.1 == risk_reasons(ua, path),
        second.0 as nat == risk_score(ua, path),
        second.1 == risk_reasons(ua, path),
    ensures
        first == second,
{
}

} // verus!
