//! The client-held sample-count preference: a set-defaults request either
//! stores a value (the `n` cookie) or clears it, whatever was held before.

use vstd::prelude::*;

use crate::digits::{decimal_digits_of, lemma_parse_round_trip, u64_to_decimal};
use crate::resolver::{query_or_default, resolved_total};

verus! {

/// The preference a client holds between requests: no cookie, or a stored
/// sample count.
#[derive(PartialEq, Eq, Structural, Clone, Copy, Debug)]
pub enum Preference {
    /// No cookie is held.
    Absent,
    /// The cookie holds this sample count.
    Chosen(u64),
}

/// The state after a set-defaults request carrying `n`: a given value is
/// stored, a missing one clears the preference. The prior state never matters.
pub open spec fn applied(p: Preference, n: Option<u64>) -> Preference {
    match n {
        Some(v) => Preference::Chosen(v),
        None => Preference::Absent,
    }
}

/// Perform one set-defaults transition on the held preference.
pub fn apply_preference(p: Preference, n: Option<u64>) -> (r: Preference)
    ensures
        r == applied(p, n),
{
    match n {
        Some(v) => Preference::Chosen(v),
        None => Preference::Absent,
    }
}

/// The cookie text a preference stands for, seen by later requests.
pub open spec fn preference_cookie(p: Preference) -> Option<Seq<char>> {
    match p {
        Preference::Absent => None,
        Preference::Chosen(v) => Some(decimal_digits_of(v as nat)),
    }
}

/// The cookie value to persist for a preference: the stored count in decimal,
/// or nothing when the preference is clear.
pub fn preference_cookie_value(p: Preference) -> (r: Option<String>)
    ensures
        r is Some <==> preference_cookie(p) is Some,
        r is Some ==> r->0@ == preference_cookie(p)->0,
{
    match p {
        Preference::Absent => None,
        Preference::Chosen(v) => Some(u64_to_decimal(v)),
    }
}

/// Repeating a set-defaults request changes nothing: the transition is
/// idempotent from every state.
pub proof fn lemma_apply_idempotent(p: Preference, n: Option<u64>)
    ensures
        applied(applied(p, n), n) == applied(p, n),
{
}

/// A stored preference always wins: after setting `v`, every later request
/// resolves to `v`, whatever query parameter it carries and whatever the
/// preference held before.
pub proof fn lemma_set_then_resolve(p: Preference, v: u64, query: Option<u64>)
    ensures
        resolved_total(preference_cookie(applied(p, Some(v))), query) == v,
{
    lemma_parse_round_trip(v);
}

/// Clearing the preference restores the query-or-default rule: after a
/// set-defaults request with no value, a request resolves to its query
/// parameter, or to `DEFAULT_TOTAL` without one.
pub proof fn lemma_clear_then_resolve(p: Preference, query: Option<u64>)
    ensures
        resolved_total(preference_cookie(applied(p, None)), query) == query_or_default(query),
{
}

} // verus!
