use vstd::prelude::*;

verus! {

/// Computational effort: reference time and proof size.
#[derive(Clone, Copy, PartialEq, Eq, Debug)]
pub struct Weight {
    pub ref_time: u64,
    pub proof_size: u64,
}

impl Weight {
    /// The weight of nothing.
    pub fn zero() -> (w: Weight)
        ensures
            w == (Weight { ref_time: 0, proof_size: 0 }),
    {
        Weight { ref_time: 0, proof_size: 0 }
    }
}

/// Whether the transactor pays the fee of a call.
#[derive(Clone, Copy, PartialEq, Eq, Debug)]
pub enum Pays {
    /// The transactor pays the fee.
    Yes,
    /// The transactor does not pay the fee.
    No,
}

/// What is known of a call only after it has been dispatched.
#[derive(Clone, Copy, PartialEq, Eq, Debug)]
pub struct PostDispatchInfo {
    /// The weight actually used, or `None` for the call's static worst case.
    pub actual_weight: Option<Weight>,
    /// Whether the transactor pays the fee.
    pub pays_fee: Pays,
}

/// The post-dispatch information of a call that reports nothing of its own:
/// worst-case weight, and the fee is paid.
pub open spec fn default_post_info() -> PostDispatchInfo {
    PostDispatchInfo { actual_weight: None, pays_fee: Pays::Yes }
}

impl PostDispatchInfo {
    /// The post-dispatch information that a fee decision alone gives.
    pub fn from_pays(pays_fee: Pays) -> (r: PostDispatchInfo)
        ensures
            r == (PostDispatchInfo { actual_weight: None, pays_fee }),
    {
        PostDispatchInfo { actual_weight: None, pays_fee }
    }

    /// The post-dispatch information of a call that returned no information
    /// of its own: worst-case weight, and the fee is paid.
    pub fn from_unit() -> (r: PostDispatchInfo)
        ensures
            r == default_post_info(),
    {
        PostDispatchInfo { actual_weight: None, pays_fee: Pays::Yes }
    }
}

/// The origin of a call was not allowed to make it.
#[derive(Clone, Copy, PartialEq, Eq, Debug)]
pub struct BadOrigin;

/// Why a call failed: its origin was refused, or the operation that it
/// handed on failed with an error of type `E`.
#[derive(Clone, Copy, PartialEq, Eq, Debug)]
pub enum CallError<E> {
    BadOrigin,
    Operation(E),
}

/// A failed call, with what is known of it after dispatch.
#[derive(Clone, Copy, PartialEq, Eq, Debug)]
pub struct DispatchErrorWithPostInfo<E> {
    pub post_info: PostDispatchInfo,
    pub error: CallError<E>,
}

impl<E> DispatchErrorWithPostInfo<E> {
    /// A failure that reports nothing beyond its error: worst-case weight,
    /// and the fee is paid.
    pub fn from_error(error: CallError<E>) -> (r: DispatchErrorWithPostInfo<E>)
        ensures
            r == (DispatchErrorWithPostInfo { post_info: default_post_info(), error }),
    {
        DispatchErrorWithPostInfo { post_info: PostDispatchInfo::from_unit(), error }
    }

    /// The failure of a call whose origin was refused.
    pub fn from_bad_origin(_e: BadOrigin) -> (r: DispatchErrorWithPostInfo<E>)
        ensures
            r == rejection::<E>(),
    {
        Self::from_error(CallError::BadOrigin)
    }
}

/// How a call whose origin was refused fails: `BadOrigin`, worst-case
/// weight, and the fee is paid.
pub open spec fn rejection<E>() -> DispatchErrorWithPostInfo<E> {
    DispatchErrorWithPostInfo { post_info: default_post_info(), error: CallError::BadOrigin }
}

/// The result of a dispatched call.
pub type DispatchResultWithPostInfo<E> = Result<PostDispatchInfo, DispatchErrorWithPostInfo<E>>;

} // verus!
