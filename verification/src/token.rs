//! The opaque decision token carried by the approve/deny buttons.
//!
//! A token encodes the decision kind and the request identifier. It is
//! parsed once, at the transport boundary, into a tagged value; nothing
//! downstream inspects the token text again.

use vstd::prelude::*;

use crate::coordinator::Decision;
use crate::text::{spec_starts_with, str_starts_with};

verus! {

/// The token announcing an approval of the given request.
pub open spec fn spec_encode_token(decision: Decision, id: Seq<char>) -> Seq<char> {
    if decision is Approve {
        "wlreq-approve-"@ + id
    } else {
        "wlreq-deny-"@ + id
    }
}

/// The decision and request identifier a token stands for, if it is one.
pub open spec fn spec_parse_token(token: Seq<char>) -> Option<(Decision, Seq<char>)> {
    if spec_starts_with(token, "wlreq-approve-"@) {
        Some((Decision::Approve, token.skip("wlreq-approve-"@.len() as int)))
    } else if spec_starts_with(token, "wlreq-deny-"@) {
        Some((Decision::Deny, token.skip("wlreq-deny-"@.len() as int)))
    } else {
        None
    }
}

/// Builds the button token for one decision kind on one request.
pub fn encode_decision_token(decision: Decision, id: &str) -> (r: String)
    ensures
        r@ == spec_encode_token(decision, id@),
{
    let mut s = if decision == Decision::Approve {
        String::from_str("wlreq-approve-")
    } else {
        String::from_str("wlreq-deny-")
    };
    s.append(id);
    s
}

/// Recognizes a decision token among arbitrary interaction identifiers,
/// yielding the decision kind and the request identifier it carries.
pub fn parse_decision_token(token: &str) -> (r: Option<(Decision, String)>)
    ensures
        match r {
            Some(p) => spec_parse_token(token@) == Some((p.0, p.1@)),
            None => spec_parse_token(token@) is None,
        },
{
    let approve_prefix = "wlreq-approve-";
    let deny_prefix = "wlreq-deny-";
    if str_starts_with(token, approve_prefix) {
        let rest = token.substring_char(approve_prefix.unicode_len(), token.unicode_len());
        proof {
            assert(rest@ =~= token@.skip(approve_prefix@.len() as int));
        }
        Some((Decision::Approve, String::from_str(rest)))
    } else if str_starts_with(token, deny_prefix) {
        let rest = token.substring_char(deny_prefix.unicode_len(), token.unicode_len());
        proof {
            assert(rest@ =~= token@.skip(deny_prefix@.len() as int));
        }
        Some((Decision::Deny, String::from_str(rest)))
    } else {
        None
    }
}

/// Round trip: parsing an encoded token gives back exactly the decision and
/// the request identifier that were encoded, whatever the identifier.
pub proof fn lemma_token_round_trip(decision: Decision, id: Seq<char>)
    ensures
        spec_parse_token(spec_encode_token(decision, id)) == Some((decision, id)),
{
    reveal_strlit("wlreq-approve-");
    reveal_strlit("wlreq-deny-");
    let ap = "wlreq-approve-"@;
    let dp = "wlreq-deny-"@;
    let token = spec_encode_token(decision, id);
    if decision is Approve {
        assert(token.subrange(0, ap.len() as int) =~= ap);
        assert(token.skip(ap.len() as int) =~= id);
    } else {
        assert(token.subrange(0, dp.len() as int) =~= dp);
        assert(token.skip(dp.len() as int) =~= id);
        assert(!spec_starts_with(token, ap)) by {
            if spec_starts_with(token, ap) {
                assert(token.subrange(0, ap.len() as int)[6] == token[6]);
                assert(token[6] == dp[6]);
            }
        }
    }
}

} // verus!
