use vstd::prelude::*;
use crate::dispatch::BadOrigin;

verus! {

/// Where a call comes from.
#[derive(Clone, Copy, PartialEq, Eq, Debug)]
pub enum Origin<A> {
    /// The system itself: the highest privilege level.
    Root,
    /// An extrinsic signed by the account `A`.
    Signed(A),
    /// Signed by nobody (an unsigned extrinsic, or an inherent).
    Unsigned,
    /// Signed by nobody, authorized by the runtime.
    Authorized,
    /// An origin that is none of the system's own, such as a collective's.
    Other,
}

/// The signer of a signed origin; any other origin is refused.
pub fn ensure_signed<A>(o: Origin<A>) -> (r: Result<A, BadOrigin>)
    ensures
        r == match o {
            Origin::Signed(who) => Ok(who),
            _ => Err::<A, BadOrigin>(BadOrigin),
        },
{
    match o {
        Origin::Signed(who) => Ok(who),
        _ => Err(BadOrigin),
    }
}

/// The administrative check: Root always passes; any other origin passes
/// exactly when the configured administrative origin accepts it, which
/// `admin_accepts` reports.
pub fn ensure_origin_or_root<A>(o: &Origin<A>, admin_accepts: bool) -> (r: Result<(), BadOrigin>)
    ensures
        r is Ok <==> (*o is Root || admin_accepts),
        r is Err ==> r == Err::<(), BadOrigin>(BadOrigin),
{
    match o {
        Origin::Root => Ok(()),
        _ => if admin_accepts { Ok(()) } else { Err(BadOrigin) },
    }
}

} // verus!
