use vstd::prelude::*;
use crate::dispatch::{default_post_info, rejection, CallError, DispatchErrorWithPostInfo, Pays, PostDispatchInfo};
use crate::origin::Origin;
use crate::pallet::{
    authorize, call_index_of, call_weight_of, conclusion, is_admin_call, is_owner_call,
    owner_to_check, Call, CallWeight, Config, Operation,
};
use crate::types::{CoreIndex, CoreMask, Finality, RegionId, TaskId, Timeslice};

verus! {

/// Two calls are of the same kind: the same dispatchable, whatever its
/// parameters.
pub open spec fn same_call_kind<T: Config>(c1: Call<T>, c2: Call<T>) -> bool {
    &&& (c1 is configure <==> c2 is configure)
    &&& (c1 is reserve <==> c2 is reserve)
    &&& (c1 is unreserve <==> c2 is unreserve)
    &&& (c1 is set_lease <==> c2 is set_lease)
    &&& (c1 is start_sales <==> c2 is start_sales)
    &&& (c1 is purchase <==> c2 is purchase)
    &&& (c1 is renew <==> c2 is renew)
    &&& (c1 is transfer <==> c2 is transfer)
    &&& (c1 is partition <==> c2 is partition)
    &&& (c1 is interlace <==> c2 is interlace)
    &&& (c1 is assign <==> c2 is assign)
    &&& (c1 is pool <==> c2 is pool)
    &&& (c1 is claim_revenue <==> c2 is claim_revenue)
    &&& (c1 is purchase_credit <==> c2 is purchase_credit)
    &&& (c1 is drop_region <==> c2 is drop_region)
    &&& (c1 is drop_contribution <==> c2 is drop_contribution)
    &&& (c1 is drop_history <==> c2 is drop_history)
    &&& (c1 is request_core_count <==> c2 is request_core_count)
}

/// An administrative call goes on exactly when its origin is Root or the
/// administrative origin accepts it: Root passes whatever that verdict is.
pub proof fn lemma_admin_call_needs_root_or_admin<T: Config, E>(
    origin: Origin<T::AccountId>,
    admin_accepts: bool,
    call: Call<T>,
)
    requires
        is_admin_call(call),
    ensures
        authorize::<T, E>(origin, admin_accepts, call) is Ok <==> (origin is Root || admin_accepts),
        origin is Root ==> authorize::<T, E>(origin, admin_accepts, call) == authorize::<T, E>(
            origin,
            !admin_accepts,
            call,
        ),
{
}

/// Every other call goes on exactly when its origin is a signed one, and the
/// administrative origin's verdict plays no part in it.
pub proof fn lemma_user_call_needs_signer<T: Config, E>(
    origin: Origin<T::AccountId>,
    admin_accepts: bool,
    call: Call<T>,
)
    requires
        !is_admin_call(call),
    ensures
        authorize::<T, E>(origin, admin_accepts, call) is Ok <==> origin is Signed,
        authorize::<T, E>(origin, admin_accepts, call) == authorize::<T, E>(origin, !admin_accepts, call),
{
}

/// A refused call always fails the same way: `BadOrigin`, worst-case weight,
/// and the fee is paid.
pub proof fn lemma_refusal_is_bad_origin<T: Config, E>(
    origin: Origin<T::AccountId>,
    admin_accepts: bool,
    call: Call<T>,
)
    ensures
        authorize::<T, E>(origin, admin_accepts, call) is Err ==> authorize::<T, E>(
            origin,
            admin_accepts,
            call,
        ) == Err::<Operation<T>, DispatchErrorWithPostInfo<E>>(rejection::<E>()),
        rejection::<E>().error == CallError::<E>::BadOrigin,
        rejection::<E>().post_info == (PostDispatchInfo { actual_weight: None, pays_fee: Pays::Yes }),
{
}

/// The calls that act on a Region for its owner (`transfer`, `partition`,
/// `interlace`, `assign`, `pool`, `claim_revenue`, `drop_region`,
/// `drop_contribution`) hand the signer on as the account that must own the
/// Region; the other calls check no owner.
pub proof fn lemma_owner_is_the_signer<T: Config, E>(
    who: T::AccountId,
    admin_accepts: bool,
    call: Call<T>,
)
    requires
        authorize::<T, E>(Origin::Signed(who), admin_accepts, call) is Ok,
    ensures
        is_owner_call(call) ==> owner_to_check(
            authorize::<T, E>(Origin::Signed(who), admin_accepts, call)->Ok_0,
        ) == Some(who),
        !is_owner_call(call) ==> owner_to_check(
            authorize::<T, E>(Origin::Signed(who), admin_accepts, call)->Ok_0,
        ) is None,
{
}

/// A signed origin may always make a call that is not administrative.
pub proof fn lemma_signed_user_call_goes_on<T: Config, E>(
    who: T::AccountId,
    admin_accepts: bool,
    call: Call<T>,
)
    requires
        !is_admin_call(call),
    ensures
        authorize::<T, E>(Origin::Signed(who), admin_accepts, call) is Ok,
{
}

/// Where the administrative origin's verdict is not needed, it does not
/// change what a call is decided to do.
pub proof fn lemma_verdict_needed_only_for_admin_calls<T: Config, E>(
    origin: Origin<T::AccountId>,
    admin_accepts: bool,
    call: Call<T>,
)
    requires
        !(is_admin_call(call) && !(origin is Root)),
    ensures
        authorize::<T, E>(origin, admin_accepts, call) == authorize::<T, E>(origin, !admin_accepts, call),
{
}

/// When the operation fails, the call fails with that error unchanged,
/// worst-case weight, and the fee is paid.
pub proof fn lemma_failure_is_passed_on<T: Config, E>(op: Operation<T>, e: E)
    ensures
        conclusion::<T, E>(op, Err(e)) == Err::<PostDispatchInfo, DispatchErrorWithPostInfo<E>>(
            DispatchErrorWithPostInfo { post_info: default_post_info(), error: CallError::Operation(e) },
        ),
{
}

/// When the operation succeeds, the call reports worst-case weight, and the
/// fee is waived exactly for the administrative calls but
/// `request_core_count`, for `purchase`, `renew`, `claim_revenue` and the
/// three drops, and for `assign` and `pool` when they are final.
pub proof fn lemma_fee_on_success<T: Config, E>(op: Operation<T>)
    requires
        !(op is Tick),
    ensures
        conclusion::<T, E>(op, Ok(())) is Ok,
        conclusion::<T, E>(op, Ok(()))->Ok_0.actual_weight is None,
        conclusion::<T, E>(op, Ok(()))->Ok_0.pays_fee == Pays::No <==> {
            ||| op is Configure
            ||| op is Reserve
            ||| op is Unreserve
            ||| op is SetLease
            ||| op is StartSales
            ||| op is Purchase
            ||| op is Renew
            ||| op is ClaimRevenue
            ||| op is DropRegion
            ||| op is DropContribution
            ||| op is DropHistory
            ||| (op matches Operation::Assign { finality, .. } && finality == Finality::Final)
            ||| (op matches Operation::Pool { finality, .. } && finality == Finality::Final)
        },
{
}

/// Each call has its own index, from 0 to 17.
pub proof fn lemma_call_indices_distinct<T: Config>(c1: Call<T>, c2: Call<T>)
    ensures
        call_index_of(c1) < 18,
        call_index_of(c1) == call_index_of(c2) <==> same_call_kind(c1, c2),
{
}

/// An administrative call from Root, or from an origin that the
/// administrative origin accepts, hands on its own operation with the call's
/// arguments exactly as given; from any other origin it is refused.
pub proof fn lemma_admin_calls_hand_on_their_arguments<T: Config, E>(
    origin: Origin<T::AccountId>,
    admin_accepts: bool,
    config: T::ConfigRecord,
    workload: T::Schedule,
    item_index: u32,
    task: TaskId,
    until: Timeslice,
    initial_price: T::Balance,
    core_count: CoreIndex,
)
    ensures
        (origin is Root || admin_accepts) ==> {
            &&& authorize::<T, E>(origin, admin_accepts, Call::<T>::configure { config })
                == Ok::<Operation<T>, DispatchErrorWithPostInfo<E>>(Operation::<T>::Configure { config })
            &&& authorize::<T, E>(origin, admin_accepts, Call::<T>::reserve { workload })
                == Ok::<Operation<T>, DispatchErrorWithPostInfo<E>>(Operation::<T>::Reserve { workload })
            &&& authorize::<T, E>(origin, admin_accepts, Call::<T>::unreserve { item_index })
                == Ok::<Operation<T>, DispatchErrorWithPostInfo<E>>(Operation::<T>::Unreserve { item_index })
            &&& authorize::<T, E>(origin, admin_accepts, Call::<T>::set_lease { task, until })
                == Ok::<Operation<T>, DispatchErrorWithPostInfo<E>>(Operation::<T>::SetLease { task, until })
            &&& authorize::<T, E>(origin, admin_accepts, Call::<T>::start_sales { initial_price, core_count })
                == Ok::<Operation<T>, DispatchErrorWithPostInfo<E>>(
                Operation::<T>::StartSales { initial_price, core_count },
            )
            &&& authorize::<T, E>(origin, admin_accepts, Call::<T>::request_core_count { core_count })
                == Ok::<Operation<T>, DispatchErrorWithPostInfo<E>>(
                Operation::<T>::RequestCoreCount { core_count },
            )
        },
        !(origin is Root || admin_accepts) ==> {
            &&& authorize::<T, E>(origin, admin_accepts, Call::<T>::configure { config }) == Err::<
                Operation<T>,
                DispatchErrorWithPostInfo<E>,
            >(rejection::<E>())
            &&& authorize::<T, E>(origin, admin_accepts, Call::<T>::reserve { workload }) == Err::<
                Operation<T>,
                DispatchErrorWithPostInfo<E>,
            >(rejection::<E>())
            &&& authorize::<T, E>(origin, admin_accepts, Call::<T>::unreserve { item_index }) == Err::<
                Operation<T>,
                DispatchErrorWithPostInfo<E>,
            >(rejection::<E>())
            &&& authorize::<T, E>(origin, admin_accepts, Call::<T>::set_lease { task, until }) == Err::<
                Operation<T>,
                DispatchErrorWithPostInfo<E>,
            >(rejection::<E>())
            &&& authorize::<T, E>(origin, admin_accepts, Call::<T>::start_sales { initial_price, core_count })
                == Err::<Operation<T>, DispatchErrorWithPostInfo<E>>(rejection::<E>())
            &&& authorize::<T, E>(origin, admin_accepts, Call::<T>::request_core_count { core_count })
                == Err::<Operation<T>, DispatchErrorWithPostInfo<E>>(rejection::<E>())
        },
{
}

/// A call that needs a signed origin, made by the signer `who`, hands on its
/// own operation with the call's arguments exactly as given; the calls on a
/// Region name `who` as the account that must own it, and `purchase`,
/// `renew` and `purchase_credit` act for `who`.
pub proof fn lemma_signed_calls_hand_on_their_arguments<T: Config, E>(
    who: T::AccountId,
    admin_accepts: bool,
    region_id: RegionId,
    price_limit: T::Balance,
    core: CoreIndex,
    new_owner: T::AccountId,
    offset: Timeslice,
    mask: CoreMask,
    task: TaskId,
    payee: T::AccountId,
    finality: Finality,
    max_timeslices: Timeslice,
    amount: T::Balance,
    beneficiary: T::RelayAccountId,
    when: Timeslice,
)
    ensures
        authorize::<T, E>(Origin::Signed(who), admin_accepts, Call::<T>::purchase { price_limit })
            == Ok::<Operation<T>, DispatchErrorWithPostInfo<E>>(Operation::<T>::Purchase { who, price_limit }),
        authorize::<T, E>(Origin::Signed(who), admin_accepts, Call::<T>::renew { core })
            == Ok::<Operation<T>, DispatchErrorWithPostInfo<E>>(Operation::<T>::Renew { who, core }),
        authorize::<T, E>(Origin::Signed(who), admin_accepts, Call::<T>::transfer { region_id, new_owner })
            == Ok::<Operation<T>, DispatchErrorWithPostInfo<E>>(
            Operation::<T>::Transfer { region_id, maybe_check_owner: Some(who), new_owner },
        ),
        authorize::<T, E>(Origin::Signed(who), admin_accepts, Call::<T>::partition { region_id, pivot: offset })
            == Ok::<Operation<T>, DispatchErrorWithPostInfo<E>>(
            Operation::<T>::Partition { region_id, maybe_check_owner: Some(who), pivot: offset },
        ),
        authorize::<T, E>(Origin::Signed(who), admin_accepts, Call::<T>::interlace { region_id, pivot: mask })
            == Ok::<Operation<T>, DispatchErrorWithPostInfo<E>>(
            Operation::<T>::Interlace { region_id, maybe_check_owner: Some(who), pivot: mask },
        ),
        authorize::<T, E>(Origin::Signed(who), admin_accepts, Call::<T>::assign { region_id, task, finality })
            == Ok::<Operation<T>, DispatchErrorWithPostInfo<E>>(
            Operation::<T>::Assign { region_id, maybe_check_owner: Some(who), task, finality },
        ),
        authorize::<T, E>(Origin::Signed(who), admin_accepts, Call::<T>::pool { region_id, payee, finality })
            == Ok::<Operation<T>, DispatchErrorWithPostInfo<E>>(
            Operation::<T>::Pool { region_id, maybe_check_owner: Some(who), payee, finality },
        ),
        authorize::<T, E>(
            Origin::Signed(who),
            admin_accepts,
            Call::<T>::claim_revenue { region_id, max_timeslices },
        ) == Ok::<Operation<T>, DispatchErrorWithPostInfo<E>>(
            Operation::<T>::ClaimRevenue { region_id, maybe_check_owner: Some(who), max_timeslices },
        ),
        authorize::<T, E>(Origin::Signed(who), admin_accepts, Call::<T>::purchase_credit { amount, beneficiary })
            == Ok::<Operation<T>, DispatchErrorWithPostInfo<E>>(
            Operation::<T>::PurchaseCredit { who, amount, beneficiary },
        ),
        authorize::<T, E>(Origin::Signed(who), admin_accepts, Call::<T>::drop_region { region_id })
            == Ok::<Operation<T>, DispatchErrorWithPostInfo<E>>(
            Operation::<T>::DropRegion { region_id, maybe_check_owner: Some(who) },
        ),
        authorize::<T, E>(Origin::Signed(who), admin_accepts, Call::<T>::drop_contribution { region_id })
            == Ok::<Operation<T>, DispatchErrorWithPostInfo<E>>(
            Operation::<T>::DropContribution { region_id, maybe_check_owner: Some(who) },
        ),
        authorize::<T, E>(Origin::Signed(who), admin_accepts, Call::<T>::drop_history { when })
            == Ok::<Operation<T>, DispatchErrorWithPostInfo<E>>(Operation::<T>::DropHistory { when }),
{
}

/// An administrative call from an origin other than Root goes on when the
/// administrative origin accepts that origin and is refused when it does
/// not: the verdict decides.
pub proof fn lemma_verdict_decides_admin_calls<T: Config, E>(origin: Origin<T::AccountId>, call: Call<T>)
    requires
        is_admin_call(call),
        !(origin is Root),
    ensures
        authorize::<T, E>(origin, true, call) is Ok,
        authorize::<T, E>(origin, false, call) is Err,
{
}

/// The index of each call, as the broker declares it.
pub proof fn lemma_call_index_of_each_call<T: Config>(c: Call<T>)
    ensures
        c is configure ==> call_index_of(c) == 0,
        c is reserve ==> call_index_of(c) == 1,
        c is unreserve ==> call_index_of(c) == 2,
        c is set_lease ==> call_index_of(c) == 3,
        c is start_sales ==> call_index_of(c) == 4,
        c is purchase ==> call_index_of(c) == 5,
        c is renew ==> call_index_of(c) == 6,
        c is transfer ==> call_index_of(c) == 7,
        c is partition ==> call_index_of(c) == 8,
        c is interlace ==> call_index_of(c) == 9,
        c is assign ==> call_index_of(c) == 10,
        c is pool ==> call_index_of(c) == 11,
        c is claim_revenue ==> call_index_of(c) == 12,
        c is purchase_credit ==> call_index_of(c) == 13,
        c is drop_region ==> call_index_of(c) == 14,
        c is drop_contribution ==> call_index_of(c) == 15,
        c is drop_history ==> call_index_of(c) == 16,
        c is request_core_count ==> call_index_of(c) == 17,
{
}

/// Each call is weighed by the weight function of its own name;
/// `claim_revenue` is weighed for the `max_timeslices` that it is given, and
/// no other call's weight depends on its arguments.
pub proof fn lemma_weight_function_of_each_call<T: Config>(c: Call<T>, d: Call<T>)
    ensures
        c is configure ==> call_weight_of(c) == CallWeight::configure,
        c is reserve ==> call_weight_of(c) == CallWeight::reserve,
        c is unreserve ==> call_weight_of(c) == CallWeight::unreserve,
        c is set_lease ==> call_weight_of(c) == CallWeight::set_lease,
        c is start_sales ==> call_weight_of(c) == CallWeight::start_sales,
        c is purchase ==> call_weight_of(c) == CallWeight::purchase,
        c is renew ==> call_weight_of(c) == CallWeight::renew,
        c is transfer ==> call_weight_of(c) == CallWeight::transfer,
        c is partition ==> call_weight_of(c) == CallWeight::partition,
        c is interlace ==> call_weight_of(c) == CallWeight::interlace,
        c is assign ==> call_weight_of(c) == CallWeight::assign,
        c is pool ==> call_weight_of(c) == CallWeight::pool,
        c matches Call::claim_revenue { max_timeslices, .. } ==> call_weight_of(c)
            == CallWeight::claim_revenue(max_timeslices),
        c is purchase_credit ==> call_weight_of(c) == CallWeight::purchase_credit,
        c is drop_region ==> call_weight_of(c) == CallWeight::drop_region,
        c is drop_contribution ==> call_weight_of(c) == CallWeight::drop_contribution,
        c is drop_history ==> call_weight_of(c) == CallWeight::drop_history,
        c is request_core_count ==> call_weight_of(c) == CallWeight::request_core_count,
        same_call_kind(c, d) && !(c is claim_revenue) ==> call_weight_of(c) == call_weight_of(d),
{
}

} // verus!
