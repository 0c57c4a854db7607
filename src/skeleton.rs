use vstd::prelude::*;

verus! {

/// The acknowledgement token that the bootstrap service answers with.
pub open spec fn ack_token() -> Seq<char> {
    "ok"@
}

/// Handler of `GET /`: always the fixed acknowledgement token.
pub fn root() -> (r: &'static str)
    ensures
        r@ == ack_token(),
{
    "ok"
}

} // verus!
