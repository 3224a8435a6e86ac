//! Boundary to the overlay network's key expression language.

use vstd::prelude::*;

verus! {

/// Whether `text` is a key expression in canonical form, as decided by
/// zenoh's `KeyExpr::try_from(&str)`.
pub uninterp spec fn is_key_expr(text: Seq<char>) -> bool;

/// Asks zenoh whether `text` is a canonical key expression.
///
/// Trusted: the body calls `zenoh::key_expr::KeyExpr::try_from(&str)`, which
/// only inspects the characters of `text` and either borrows it unchanged or
/// fails. The contract claims nothing beyond naming that verdict.
#[verifier::external_body]
pub(crate) fn key_expr_accepts(text: &str) -> (ok: bool)
    ensures
        ok == is_key_expr(text@),
{
    zenoh::key_expr::KeyExpr::try_from(text).is_ok()
}

} // verus!
