//! The resistance check: a pure classification of two integers into an
//! automatic success, an automatic failure, or a numeric result.

use vstd::prelude::*;
use vstd::string::StringExecFns;
use crate::numbers::dec_str;
use crate::numbers::i64_to_string;

verus! {

/// The margin an active value scores against a passive one.
pub open spec fn resist_margin(active: int, passive: int) -> int {
    (active - passive) * 5 + 50
}

/// The part of every resistance reply that echoes the two inputs.
pub open spec fn resist_header(active: int, passive: int) -> Seq<char> {
    "Let's see...\nActive: **"@ + dec_str(active) + "**\nPassive: **"@ + dec_str(passive)
        + "**\n"@
}

pub open spec fn resist_success_tail() -> Seq<char> {
    "The result is an **Automatic Success**!!\\(^o^)/"@
}

pub open spec fn resist_failure_tail() -> Seq<char> {
    "The result is an **Automatic Failure**!! (´・ω・`)"@
}

pub open spec fn resist_numeric_tail(margin: int) -> Seq<char> {
    "The result is **"@ + dec_str(margin) + "**!! （｀・ω・´）"@
}

/// The reply to a well-formed resistance check.
pub open spec fn resist_reply_spec(active: int, passive: int) -> Seq<char> {
    if resist_margin(active, passive) > 95 {
        resist_header(active, passive) + resist_success_tail()
    } else if resist_margin(active, passive) < 5 {
        resist_header(active, passive) + resist_failure_tail()
    } else {
        resist_header(active, passive) + resist_numeric_tail(resist_margin(active, passive))
    }
}

/// Computes the resistance reply; total and crash-free for every pair.
pub fn resist_reply(active: i32, passive: i32) -> (r: String)
    ensures
        r@ == resist_reply_spec(active as int, passive as int),
{
    let margin: i64 = (active as i64 - passive as i64) * 5 + 50;
    let mut r = String::from_str("Let's see...\nActive: **");
    let a = i64_to_string(active as i64);
    r.append(a.as_str());
    r.append("**\nPassive: **");
    let p = i64_to_string(passive as i64);
    r.append(p.as_str());
    r.append("**\n");
    if margin > 95 {
        r.append("The result is an **Automatic Success**!!\\(^o^)/");
    } else if margin < 5 {
        r.append("The result is an **Automatic Failure**!! (´・ω・`)");
    } else {
        r.append("The result is **");
        let m = i64_to_string(margin);
        r.append(m.as_str());
        r.append("**!! （｀・ω・´）");
    }
    proof {
        assert(r@ =~= resist_reply_spec(active as int, passive as int));
    }
    r
}

/// Re-invoking the check on identical inputs yields the identical reply:
/// the outcome is a pure function of the two integers and of nothing else.
pub proof fn lemma_resist_deterministic(a1: int, p1: int, a2: int, p2: int)
    requires
        a1 == a2,
        p1 == p2,
    ensures
        resist_reply_spec(a1, p1) == resist_reply_spec(a2, p2),
{
}

/// The three outcome bands with their exact boundaries: a margin above 95
/// is an automatic success, one below 5 an automatic failure, and every
/// margin from 5 through 95 is echoed numerically.
pub proof fn lemma_resist_bands(active: int, passive: int)
    ensures
        resist_margin(active, passive) > 95 ==> resist_reply_spec(active, passive)
            == resist_header(active, passive) + resist_success_tail(),
        resist_margin(active, passive) < 5 ==> resist_reply_spec(active, passive)
            == resist_header(active, passive) + resist_failure_tail(),
        5 <= resist_margin(active, passive) <= 95 ==> resist_reply_spec(active, passive)
            == resist_header(active, passive) + resist_numeric_tail(
            resist_margin(active, passive),
        ),
{
}

} // verus!
