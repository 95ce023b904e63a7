use vstd::prelude::*;
use crate::dispatch::{
    default_post_info, rejection, CallError, DispatchErrorWithPostInfo,
    DispatchResultWithPostInfo, Pays, PostDispatchInfo, Weight,
};
use crate::origin::{ensure_origin_or_root, ensure_signed, Origin};
use crate::types::{CoreIndex, CoreMask, Finality, RegionId, TaskId, Timeslice};

verus! {

/// The types that a runtime chooses for the broker.
pub trait Config {
    /// The identity of an account of this chain.
    type AccountId;
    /// The balance in which Coretime is paid.
    type Balance;
    /// The identity of an account on the Relay-chain.
    type RelayAccountId;
    /// The configuration record of the broker.
    type ConfigRecord;
    /// The workload of a core.
    type Schedule;
    /// The block number of this chain.
    type BlockNumber;
}

/// The broker.
pub struct Pallet<T: Config> {
    marker: core::marker::PhantomData<T>,
}

/// A call to the broker, with its parameters.
#[allow(non_camel_case_types)]
#[derive(Clone, PartialEq, Eq, Debug)]
pub enum Call<T: Config> {
    configure { config: T::ConfigRecord },
    reserve { workload: T::Schedule },
    unreserve { item_index: u32 },
    set_lease { task: TaskId, until: Timeslice },
    start_sales { initial_price: T::Balance, core_count: CoreIndex },
    purchase { price_limit: T::Balance },
    renew { core: CoreIndex },
    transfer { region_id: RegionId, new_owner: T::AccountId },
    partition { region_id: RegionId, pivot: Timeslice },
    interlace { region_id: RegionId, pivot: CoreMask },
    assign { region_id: RegionId, task: TaskId, finality: Finality },
    pool { region_id: RegionId, payee: T::AccountId, finality: Finality },
    claim_revenue { region_id: RegionId, max_timeslices: Timeslice },
    purchase_credit { amount: T::Balance, beneficiary: T::RelayAccountId },
    drop_region { region_id: RegionId },
    drop_contribution { region_id: RegionId },
    drop_history { when: Timeslice },
    request_core_count { core_count: CoreIndex },
}

/// The operation on the broker's state that an admitted call hands on,
/// with its arguments. `maybe_check_owner`, where present, is the account
/// that must own the Region for the operation to proceed.
#[derive(Clone, PartialEq, Eq, Debug)]
pub enum Operation<T: Config> {
    Configure { config: T::ConfigRecord },
    Reserve { workload: T::Schedule },
    Unreserve { item_index: u32 },
    SetLease { task: TaskId, until: Timeslice },
    StartSales { initial_price: T::Balance, core_count: CoreIndex },
    Purchase { who: T::AccountId, price_limit: T::Balance },
    Renew { who: T::AccountId, core: CoreIndex },
    Transfer { region_id: RegionId, maybe_check_owner: Option<T::AccountId>, new_owner: T::AccountId },
    Partition { region_id: RegionId, maybe_check_owner: Option<T::AccountId>, pivot: Timeslice },
    Interlace { region_id: RegionId, maybe_check_owner: Option<T::AccountId>, pivot: CoreMask },
    Assign {
        region_id: RegionId,
        maybe_check_owner: Option<T::AccountId>,
        task: TaskId,
        finality: Finality,
    },
    Pool {
        region_id: RegionId,
        maybe_check_owner: Option<T::AccountId>,
        payee: T::AccountId,
        finality: Finality,
    },
    ClaimRevenue { region_id: RegionId, maybe_check_owner: Option<T::AccountId>, max_timeslices: Timeslice },
    PurchaseCredit { who: T::AccountId, amount: T::Balance, beneficiary: T::RelayAccountId },
    DropRegion { region_id: RegionId, maybe_check_owner: Option<T::AccountId> },
    DropContribution { region_id: RegionId, maybe_check_owner: Option<T::AccountId> },
    DropHistory { when: Timeslice },
    RequestCoreCount { core_count: CoreIndex },
    /// The broker's per-block housekeeping.
    Tick,
}

/// An administrative call goes on with `op` when its origin is Root or the
/// configured administrative origin accepts it; otherwise it is refused.
pub open spec fn admin_gate<T: Config, E>(
    origin: Origin<T::AccountId>,
    admin_accepts: bool,
    op: Operation<T>,
) -> Result<Operation<T>, DispatchErrorWithPostInfo<E>> {
    if origin is Root || admin_accepts {
        Ok(op)
    } else {
        Err(rejection::<E>())
    }
}

/// The calls that only Root or the administrative origin may make.
pub open spec fn is_admin_call<T: Config>(call: Call<T>) -> bool {
    ||| call is configure
    ||| call is reserve
    ||| call is unreserve
    ||| call is set_lease
    ||| call is start_sales
    ||| call is request_core_count
}

/// The calls that act on a Region on behalf of its owner.
pub open spec fn is_owner_call<T: Config>(call: Call<T>) -> bool {
    ||| call is transfer
    ||| call is partition
    ||| call is interlace
    ||| call is assign
    ||| call is pool
    ||| call is claim_revenue
    ||| call is drop_region
    ||| call is drop_contribution
}

/// What a call from `origin` is decided to do: the operation it hands on,
/// or its refusal. `admin_accepts` is the administrative origin's verdict on
/// `origin`; only administrative calls consult it.
pub open spec fn authorize<T: Config, E>(
    origin: Origin<T::AccountId>,
    admin_accepts: bool,
    call: Call<T>,
) -> Result<Operation<T>, DispatchErrorWithPostInfo<E>> {
    match call {
        Call::configure { config } =>
            admin_gate(origin, admin_accepts, Operation::<T>::Configure { config }),
        Call::reserve { workload } =>
            admin_gate(origin, admin_accepts, Operation::<T>::Reserve { workload }),
        Call::unreserve { item_index } =>
            admin_gate(origin, admin_accepts, Operation::<T>::Unreserve { item_index }),
        Call::set_lease { task, until } =>
            admin_gate(origin, admin_accepts, Operation::<T>::SetLease { task, until }),
        Call::start_sales { initial_price, core_count } =>
            admin_gate(origin, admin_accepts, Operation::<T>::StartSales { initial_price, core_count }),
        Call::request_core_count { core_count } =>
            admin_gate(origin, admin_accepts, Operation::<T>::RequestCoreCount { core_count }),
        Call::purchase { price_limit } => match origin {
            Origin::Signed(who) => Ok(Operation::<T>::Purchase { who, price_limit }),
            _ => Err(rejection::<E>()),
        },
        Call::renew { core } => match origin {
            Origin::Signed(who) => Ok(Operation::<T>::Renew { who, core }),
            _ => Err(rejection::<E>()),
        },
        Call::transfer { region_id, new_owner } => match origin {
            Origin::Signed(who) => Ok(
                Operation::<T>::Transfer { region_id, maybe_check_owner: Some(who), new_owner },
            ),
            _ => Err(rejection::<E>()),
        },
        Call::partition { region_id, pivot } => match origin {
            Origin::Signed(who) => Ok(
                Operation::<T>::Partition { region_id, maybe_check_owner: Some(who), pivot },
            ),
            _ => Err(rejection::<E>()),
        },
        Call::interlace { region_id, pivot } => match origin {
            Origin::Signed(who) => Ok(
                Operation::<T>::Interlace { region_id, maybe_check_owner: Some(who), pivot },
            ),
            _ => Err(rejection::<E>()),
        },
        Call::assign { region_id, task, finality } => match origin {
            Origin::Signed(who) => Ok(
                Operation::<T>::Assign { region_id, maybe_check_owner: Some(who), task, finality },
            ),
            _ => Err(rejection::<E>()),
        },
        Call::pool { region_id, payee, finality } => match origin {
            Origin::Signed(who) => Ok(
                Operation::<T>::Pool { region_id, maybe_check_owner: Some(who), payee, finality },
            ),
            _ => Err(rejection::<E>()),
        },
        Call::claim_revenue { region_id, max_timeslices } => match origin {
            Origin::Signed(who) => Ok(
                Operation::<T>::ClaimRevenue { region_id, maybe_check_owner: Some(who), max_timeslices },
            ),
            _ => Err(rejection::<E>()),
        },
        Call::purchase_credit { amount, beneficiary } => match origin {
            Origin::Signed(who) => Ok(Operation::<T>::PurchaseCredit { who, amount, beneficiary }),
            _ => Err(rejection::<E>()),
        },
        Call::drop_region { region_id } => match origin {
            Origin::Signed(who) => Ok(Operation::<T>::DropRegion { region_id, maybe_check_owner: Some(who) }),
            _ => Err(rejection::<E>()),
        },
        Call::drop_contribution { region_id } => match origin {
            Origin::Signed(who) => Ok(
                Operation::<T>::DropContribution { region_id, maybe_check_owner: Some(who) },
            ),
            _ => Err(rejection::<E>()),
        },
        Call::drop_history { when } => match origin {
            Origin::Signed(_) => Ok(Operation::<T>::DropHistory { when }),
            _ => Err(rejection::<E>()),
        },
    }
}

/// Whether the transactor pays the fee of a call whose operation `op`
/// succeeded: the administrative calls, `purchase`, `renew`,
/// `claim_revenue` and the three drops are free; `assign` and `pool` are
/// free when final; `transfer`, `partition`, `interlace`, `purchase_credit`
/// and `request_core_count` report nothing of their own, so the fee is paid.
pub open spec fn fee_on_success<T: Config>(op: Operation<T>) -> Pays {
    match op {
        Operation::Assign { finality, .. } => if finality == Finality::Final { Pays::No } else { Pays::Yes },
        Operation::Pool { finality, .. } => if finality == Finality::Final { Pays::No } else { Pays::Yes },
        Operation::Transfer { .. } => Pays::Yes,
        Operation::Partition { .. } => Pays::Yes,
        Operation::Interlace { .. } => Pays::Yes,
        Operation::PurchaseCredit { .. } => Pays::Yes,
        Operation::RequestCoreCount { .. } => Pays::Yes,
        _ => Pays::No,
    }
}

/// What a call reports once its operation `op` has ended with `outcome`:
/// on success, the worst-case weight and the fee decision of the call; on
/// failure, the operation's error unchanged, the worst-case weight, and the
/// fee is paid.
pub open spec fn conclusion<T: Config, E>(op: Operation<T>, outcome: Result<(), E>) -> DispatchResultWithPostInfo<E> {
    match outcome {
        Ok(_) => Ok(PostDispatchInfo { actual_weight: None, pays_fee: fee_on_success(op) }),
        Err(e) => Err(DispatchErrorWithPostInfo { post_info: default_post_info(), error: CallError::Operation(e) }),
    }
}

/// The index under which each call is encoded.
pub open spec fn call_index_of<T: Config>(call: Call<T>) -> u8 {
    match call {
        Call::configure { .. } => 0,
        Call::reserve { .. } => 1,
        Call::unreserve { .. } => 2,
        Call::set_lease { .. } => 3,
        Call::start_sales { .. } => 4,
        Call::purchase { .. } => 5,
        Call::renew { .. } => 6,
        Call::transfer { .. } => 7,
        Call::partition { .. } => 8,
        Call::interlace { .. } => 9,
        Call::assign { .. } => 10,
        Call::pool { .. } => 11,
        Call::claim_revenue { .. } => 12,
        Call::purchase_credit { .. } => 13,
        Call::drop_region { .. } => 14,
        Call::drop_contribution { .. } => 15,
        Call::drop_history { .. } => 16,
        Call::request_core_count { .. } => 17,
    }
}

impl<T: Config> Call<T> {
    /// The index under which this call is encoded.
    pub fn call_index(&self) -> (r: u8)
        ensures
            r == call_index_of(*self),
    {
        match self {
            Call::configure { .. } => 0,
            Call::reserve { .. } => 1,
            Call::unreserve { .. } => 2,
            Call::set_lease { .. } => 3,
            Call::start_sales { .. } => 4,
            Call::purchase { .. } => 5,
            Call::renew { .. } => 6,
            Call::transfer { .. } => 7,
            Call::partition { .. } => 8,
            Call::interlace { .. } => 9,
            Call::assign { .. } => 10,
            Call::pool { .. } => 11,
            Call::claim_revenue { .. } => 12,
            Call::purchase_credit { .. } => 13,
            Call::drop_region { .. } => 14,
            Call::drop_contribution { .. } => 15,
            Call::drop_history { .. } => 16,
            Call::request_core_count { .. } => 17,
        }
    }
}

impl<T: Config> Pallet<T> {
    /// Configure the pallet.
    ///
    /// - `origin`: Must be Root or pass `AdminOrigin`; `admin_accepts` is the verdict of
    ///   `AdminOrigin` on `origin`, which only a non-Root origin needs.
    /// - `config`: The configuration for this pallet.
    ///
    /// Returns the operation to perform, or the refusal of the call; `conclude`
    /// gives what the call reports once that operation has ended.
    pub fn configure<E>(
        origin: Origin<T::AccountId>,
        admin_accepts: bool,
        config: T::ConfigRecord,
    ) -> (r: Result<Operation<T>, DispatchErrorWithPostInfo<E>>)
        ensures
            r == admin_gate::<T, E>(origin, admin_accepts, Operation::<T>::Configure { config }),
    {
        match ensure_origin_or_root(&origin, admin_accepts) {
            Ok(()) => Ok(Operation::Configure { config }),
            Err(e) => Err(DispatchErrorWithPostInfo::from_bad_origin(e)),
        }
    }

    /// Reserve a core for a workload.
    ///
    /// - `origin`: Must be Root or pass `AdminOrigin`; `admin_accepts` is the verdict of
    ///   `AdminOrigin` on `origin`, which only a non-Root origin needs.
    /// - `workload`: The workload which should be permanently placed on a core.
    ///
    /// Returns the operation to perform, or the refusal of the call; `conclude`
    /// gives what the call reports once that operation has ended.
    pub fn reserve<E>(
        origin: Origin<T::AccountId>,
        admin_accepts: bool,
        workload: T::Schedule,
    ) -> (r: Result<Operation<T>, DispatchErrorWithPostInfo<E>>)
        ensures
            r == admin_gate::<T, E>(origin, admin_accepts, Operation::<T>::Reserve { workload }),
    {
        match ensure_origin_or_root(&origin, admin_accepts) {
            Ok(()) => Ok(Operation::Reserve { workload }),
            Err(e) => Err(DispatchErrorWithPostInfo::from_bad_origin(e)),
        }
    }

    /// Cancel a reservation for a workload.
    ///
    /// - `origin`: Must be Root or pass `AdminOrigin`; `admin_accepts` is the verdict of
    ///   `AdminOrigin` on `origin`, which only a non-Root origin needs.
    /// - `item_index`: The index of the reservation. Usually this will also be the index of the
    ///   core on which the reservation has been scheduled. However, it is possible that if
    ///   other cores are reserved or unreserved in the same sale rotation that they won't
    ///   correspond, so it's better to look up the core properly in the `Reservations` storage.
    ///
    /// Returns the operation to perform, or the refusal of the call; `conclude`
    /// gives what the call reports once that operation has ended.
    pub fn unreserve<E>(
        origin: Origin<T::AccountId>,
        admin_accepts: bool,
        item_index: u32,
    ) -> (r: Result<Operation<T>, DispatchErrorWithPostInfo<E>>)
        ensures
            r == admin_gate::<T, E>(origin, admin_accepts, Operation::<T>::Unreserve { item_index }),
    {
        match ensure_origin_or_root(&origin, admin_accepts) {
            Ok(()) => Ok(Operation::Unreserve { item_index }),
            Err(e) => Err(DispatchErrorWithPostInfo::from_bad_origin(e)),
        }
    }

    /// Reserve a core for a single task workload for a limited period.
    ///
    /// In the interlude and sale period where Bulk Coretime is sold for the period immediately
    /// after `until`, then the same workload may be renewed.
    ///
    /// - `origin`: Must be Root or pass `AdminOrigin`; `admin_accepts` is the verdict of
    ///   `AdminOrigin` on `origin`, which only a non-Root origin needs.
    /// - `task`: The workload which should be placed on a core.
    /// - `until`: The timeslice now earlier than which `task` should be placed as a workload on
    ///   a core.
    ///
    /// Returns the operation to perform, or the refusal of the call; `conclude`
    /// gives what the call reports once that operation has ended.
    pub fn set_lease<E>(
        origin: Origin<T::AccountId>,
        admin_accepts: bool,
        task: TaskId,
        until: Timeslice,
    ) -> (r: Result<Operation<T>, DispatchErrorWithPostInfo<E>>)
        ensures
            r == admin_gate::<T, E>(origin, admin_accepts, Operation::<T>::SetLease { task, until }),
    {
        match ensure_origin_or_root(&origin, admin_accepts) {
            Ok(()) => Ok(Operation::SetLease { task, until }),
            Err(e) => Err(DispatchErrorWithPostInfo::from_bad_origin(e)),
        }
    }

    /// Begin the Bulk Coretime sales rotation.
    ///
    /// - `origin`: Must be Root or pass `AdminOrigin`; `admin_accepts` is the verdict of
    ///   `AdminOrigin` on `origin`, which only a non-Root origin needs.
    /// - `initial_price`: The price of Bulk Coretime in the first sale.
    /// - `core_count`: The number of cores which can be allocated.
    ///
    /// Returns the operation to perform, or the refusal of the call; `conclude`
    /// gives what the call reports once that operation has ended.
    pub fn start_sales<E>(
        origin: Origin<T::AccountId>,
        admin_accepts: bool,
        initial_price: T::Balance,
        core_count: CoreIndex,
    ) -> (r: Result<Operation<T>, DispatchErrorWithPostInfo<E>>)
        ensures
            r == admin_gate::<T, E>(origin, admin_accepts, Operation::<T>::StartSales { initial_price, core_count }),
    {
        match ensure_origin_or_root(&origin, admin_accepts) {
            Ok(()) => Ok(Operation::StartSales { initial_price, core_count }),
            Err(e) => Err(DispatchErrorWithPostInfo::from_bad_origin(e)),
        }
    }

    /// Request a change to the number of cores available for scheduling work.
    ///
    /// - `origin`: Must be Root or pass `AdminOrigin`; `admin_accepts` is the verdict of
    ///   `AdminOrigin` on `origin`, which only a non-Root origin needs.
    /// - `core_count`: The desired number of cores to be made available.
    ///
    /// Returns the operation to perform, or the refusal of the call; `conclude`
    /// gives what the call reports once that operation has ended.
    pub fn request_core_count<E>(
        origin: Origin<T::AccountId>,
        admin_accepts: bool,
        core_count: CoreIndex,
    ) -> (r: Result<Operation<T>, DispatchErrorWithPostInfo<E>>)
        ensures
            r == admin_gate::<T, E>(origin, admin_accepts, Operation::<T>::RequestCoreCount { core_count }),
    {
        match ensure_origin_or_root(&origin, admin_accepts) {
            Ok(()) => Ok(Operation::RequestCoreCount { core_count }),
            Err(e) => Err(DispatchErrorWithPostInfo::from_bad_origin(e)),
        }
    }

    /// Purchase Bulk Coretime in the ongoing Sale.
    ///
    /// - `origin`: Must be a Signed origin with at least enough funds to pay the current price
    ///   of Bulk Coretime.
    /// - `price_limit`: An amount no more than which should be paid.
    ///
    /// Returns the operation to perform, or the refusal of the call; `conclude`
    /// gives what the call reports once that operation has ended.
    pub fn purchase<E>(
        origin: Origin<T::AccountId>,
        price_limit: T::Balance,
    ) -> (r: Result<Operation<T>, DispatchErrorWithPostInfo<E>>)
        ensures
            r == match origin {
                Origin::Signed(who) => Ok(Operation::<T>::Purchase { who, price_limit }),
                _ => Err(rejection::<E>()),
            },
    {
        let who = match ensure_signed(origin) {
            Ok(who) => who,
            Err(e) => {
                return Err(DispatchErrorWithPostInfo::from_bad_origin(e));
            },
        };
        Ok(Operation::Purchase { who, price_limit })
    }

    /// Renew Bulk Coretime in the ongoing Sale or its prior Interlude Period.
    ///
    /// - `origin`: Must be a Signed origin with at least enough funds to pay the renewal price
    ///   of the core.
    /// - `core`: The core which should be renewed.
    ///
    /// Returns the operation to perform, or the refusal of the call; `conclude`
    /// gives what the call reports once that operation has ended.
    pub fn renew<E>(
        origin: Origin<T::AccountId>,
        core: CoreIndex,
    ) -> (r: Result<Operation<T>, DispatchErrorWithPostInfo<E>>)
        ensures
            r == match origin {
                Origin::Signed(who) => Ok(Operation::<T>::Renew { who, core }),
                _ => Err(rejection::<E>()),
            },
    {
        let who = match ensure_signed(origin) {
            Ok(who) => who,
            Err(e) => {
                return Err(DispatchErrorWithPostInfo::from_bad_origin(e));
            },
        };
        Ok(Operation::Renew { who, core })
    }

    /// Transfer a Bulk Coretime Region to a new owner.
    ///
    /// - `origin`: Must be a Signed origin of the account which owns the Region `region_id`.
    /// - `region_id`: The Region whose ownership should change.
    /// - `new_owner`: The new owner for the Region.
    ///
    /// Returns the operation to perform, or the refusal of the call; `conclude`
    /// gives what the call reports once that operation has ended.
    pub fn transfer<E>(
        origin: Origin<T::AccountId>,
        region_id: RegionId,
        new_owner: T::AccountId,
    ) -> (r: Result<Operation<T>, DispatchErrorWithPostInfo<E>>)
        ensures
            r == match origin {
                Origin::Signed(who) => Ok(Operation::<T>::Transfer { region_id, maybe_check_owner: Some(who), new_owner }),
                _ => Err(rejection::<E>()),
            },
    {
        let who = match ensure_signed(origin) {
            Ok(who) => who,
            Err(e) => {
                return Err(DispatchErrorWithPostInfo::from_bad_origin(e));
            },
        };
        Ok(Operation::Transfer { region_id, maybe_check_owner: Some(who), new_owner })
    }

    /// Split a Bulk Coretime Region into two non-overlapping Regions at a particular time into
    /// the region.
    ///
    /// - `origin`: Must be a Signed origin of the account which owns the Region `region_id`.
    /// - `region_id`: The Region which should be partitioned into two non-overlapping Regions.
    /// - `pivot`: The offset in time into the Region at which to make the split.
    ///
    /// Returns the operation to perform, or the refusal of the call; `conclude`
    /// gives what the call reports once that operation has ended.
    pub fn partition<E>(
        origin: Origin<T::AccountId>,
        region_id: RegionId,
        pivot: Timeslice,
    ) -> (r: Result<Operation<T>, DispatchErrorWithPostInfo<E>>)
        ensures
            r == match origin {
                Origin::Signed(who) => Ok(Operation::<T>::Partition { region_id, maybe_check_owner: Some(who), pivot }),
                _ => Err(rejection::<E>()),
            },
    {
        let who = match ensure_signed(origin) {
            Ok(who) => who,
            Err(e) => {
                return Err(DispatchErrorWithPostInfo::from_bad_origin(e));
            },
        };
        Ok(Operation::Partition { region_id, maybe_check_owner: Some(who), pivot })
    }

    /// Split a Bulk Coretime Region into two wholly-overlapping Regions with complementary
    /// interlace masks which together make up the original Region's interlace mask.
    ///
    /// - `origin`: Must be a Signed origin of the account which owns the Region `region_id`.
    /// - `region_id`: The Region which should become two interlaced Regions of incomplete
    ///   regularity.
    /// - `pivot`: The interlace mask of on of the two new regions (the other it its partial
    ///   complement).
    ///
    /// Returns the operation to perform, or the refusal of the call; `conclude`
    /// gives what the call reports once that operation has ended.
    pub fn interlace<E>(
        origin: Origin<T::AccountId>,
        region_id: RegionId,
        pivot: CoreMask,
    ) -> (r: Result<Operation<T>, DispatchErrorWithPostInfo<E>>)
        ensures
            r == match origin {
                Origin::Signed(who) => Ok(Operation::<T>::Interlace { region_id, maybe_check_owner: Some(who), pivot }),
                _ => Err(rejection::<E>()),
            },
    {
        let who = match ensure_signed(origin) {
            Ok(who) => who,
            Err(e) => {
                return Err(DispatchErrorWithPostInfo::from_bad_origin(e));
            },
        };
        Ok(Operation::Interlace { region_id, maybe_check_owner: Some(who), pivot })
    }

    /// Assign a Bulk Coretime Region to a task.
    ///
    /// - `origin`: Must be a Signed origin of the account which owns the Region `region_id`.
    /// - `region_id`: The Region which should be assigned to the task.
    /// - `task`: The task to assign.
    /// - `finality`: Indication of whether this assignment is final (in which case it may be
    ///   eligible for renewal) or provisional (in which case it may be manipulated and/or
    ///   reassigned at a later stage).
    ///
    /// Returns the operation to perform, or the refusal of the call; `conclude`
    /// gives what the call reports once that operation has ended.
    pub fn assign<E>(
        origin: Origin<T::AccountId>,
        region_id: RegionId,
        task: TaskId,
        finality: Finality,
    ) -> (r: Result<Operation<T>, DispatchErrorWithPostInfo<E>>)
        ensures
            r == match origin {
                Origin::Signed(who) => Ok(Operation::<T>::Assign { region_id, maybe_check_owner: Some(who), task, finality }),
                _ => Err(rejection::<E>()),
            },
    {
        let who = match ensure_signed(origin) {
            Ok(who) => who,
            Err(e) => {
                return Err(DispatchErrorWithPostInfo::from_bad_origin(e));
            },
        };
        Ok(Operation::Assign { region_id, maybe_check_owner: Some(who), task, finality })
    }

    /// Place a Bulk Coretime Region into the Instantaneous Coretime Pool.
    ///
    /// - `origin`: Must be a Signed origin of the account which owns the Region `region_id`.
    /// - `region_id`: The Region which should be assigned to the Pool.
    /// - `payee`: The account which is able to collect any revenue due for the usage of this
    ///   Coretime.
    /// - `finality`: Whether this placement is final or provisional.
    ///
    /// Returns the operation to perform, or the refusal of the call; `conclude`
    /// gives what the call reports once that operation has ended.
    pub fn pool<E>(
        origin: Origin<T::AccountId>,
        region_id: RegionId,
        payee: T::AccountId,
        finality: Finality,
    ) -> (r: Result<Operation<T>, DispatchErrorWithPostInfo<E>>)
        ensures
            r == match origin {
                Origin::Signed(who) => Ok(Operation::<T>::Pool { region_id, maybe_check_owner: Some(who), payee, finality }),
                _ => Err(rejection::<E>()),
            },
    {
        let who = match ensure_signed(origin) {
            Ok(who) => who,
            Err(e) => {
                return Err(DispatchErrorWithPostInfo::from_bad_origin(e));
            },
        };
        Ok(Operation::Pool { region_id, maybe_check_owner: Some(who), payee, finality })
    }

    /// Claim the revenue owed from inclusion in the Instantaneous Coretime Pool.
    ///
    /// - `origin`: Must be a Signed origin of the account which owns the Region `region_id`.
    /// - `region_id`: The Region which was assigned to the Pool.
    /// - `max_timeslices`: The maximum number of timeslices which should be processed. This may
    ///   effect the weight of the call but should be ideally made equivalant to the length of
    ///   the Region `region_id`. If it is less than this, then further dispatches will be
    ///   required with the `region_id` which makes up any remainders of the region to be
    ///   collected.
    ///
    /// Returns the operation to perform, or the refusal of the call; `conclude`
    /// gives what the call reports once that operation has ended.
    pub fn claim_revenue<E>(
        origin: Origin<T::AccountId>,
        region_id: RegionId,
        max_timeslices: Timeslice,
    ) -> (r: Result<Operation<T>, DispatchErrorWithPostInfo<E>>)
        ensures
            r == match origin {
                Origin::Signed(who) => Ok(
                    Operation::<T>::ClaimRevenue { region_id, maybe_check_owner: Some(who), max_timeslices },
                ),
                _ => Err(rejection::<E>()),
            },
    {
        let who = match ensure_signed(origin) {
            Ok(who) => who,
            Err(e) => {
                return Err(DispatchErrorWithPostInfo::from_bad_origin(e));
            },
        };
        Ok(Operation::ClaimRevenue { region_id, maybe_check_owner: Some(who), max_timeslices })
    }

    /// Purchase credit for use in the Instantaneous Coretime Pool.
    ///
    /// - `origin`: Must be a Signed origin able to pay at least `amount`.
    /// - `amount`: The amount of credit to purchase.
    /// - `beneficiary`: The account on the Relay-chain which controls the credit (generally
    ///   this will be the collator's hot wallet).
    ///
    /// Returns the operation to perform, or the refusal of the call; `conclude`
    /// gives what the call reports once that operation has ended.
    pub fn purchase_credit<E>(
        origin: Origin<T::AccountId>,
        amount: T::Balance,
        beneficiary: T::RelayAccountId,
    ) -> (r: Result<Operation<T>, DispatchErrorWithPostInfo<E>>)
        ensures
            r == match origin {
                Origin::Signed(who) => Ok(Operation::<T>::PurchaseCredit { who, amount, beneficiary }),
                _ => Err(rejection::<E>()),
            },
    {
        let who = match ensure_signed(origin) {
            Ok(who) => who,
            Err(e) => {
                return Err(DispatchErrorWithPostInfo::from_bad_origin(e));
            },
        };
        Ok(Operation::PurchaseCredit { who, amount, beneficiary })
    }

    /// Drop an expired Region from the chain.
    ///
    /// - `origin`: Must be a Signed origin of the account which owns the Region `region_id`.
    /// - `region_id`: The Region which has expired.
    ///
    /// Returns the operation to perform, or the refusal of the call; `conclude`
    /// gives what the call reports once that operation has ended.
    pub fn drop_region<E>(
        origin: Origin<T::AccountId>,
        region_id: RegionId,
    ) -> (r: Result<Operation<T>, DispatchErrorWithPostInfo<E>>)
        ensures
            r == match origin {
                Origin::Signed(who) => Ok(Operation::<T>::DropRegion { region_id, maybe_check_owner: Some(who) }),
                _ => Err(rejection::<E>()),
            },
    {
        let who = match ensure_signed(origin) {
            Ok(who) => who,
            Err(e) => {
                return Err(DispatchErrorWithPostInfo::from_bad_origin(e));
            },
        };
        Ok(Operation::DropRegion { region_id, maybe_check_owner: Some(who) })
    }

    /// Drop an expired Instantaneous Pool Contribution record from the chain.
    ///
    /// - `origin`: Must be a Signed origin of the account which owns the Region `region_id`.
    /// - `region_id`: The Region identifying the Pool Contribution which has expired.
    ///
    /// Returns the operation to perform, or the refusal of the call; `conclude`
    /// gives what the call reports once that operation has ended.
    pub fn drop_contribution<E>(
        origin: Origin<T::AccountId>,
        region_id: RegionId,
    ) -> (r: Result<Operation<T>, DispatchErrorWithPostInfo<E>>)
        ensures
            r == match origin {
                Origin::Signed(who) => Ok(
                    Operation::<T>::DropContribution { region_id, maybe_check_owner: Some(who) },
                ),
                _ => Err(rejection::<E>()),
            },
    {
        let who = match ensure_signed(origin) {
            Ok(who) => who,
            Err(e) => {
                return Err(DispatchErrorWithPostInfo::from_bad_origin(e));
            },
        };
        Ok(Operation::DropContribution { region_id, maybe_check_owner: Some(who) })
    }

    /// Drop an expired Instantaneous Pool History record from the chain.
    ///
    /// - `origin`: Must be a Signed origin; the record names no Region, so no owner is
    ///   checked.
    /// - `when`: The time of the Pool History record which has expired.
    ///
    /// Returns the operation to perform, or the refusal of the call; `conclude`
    /// gives what the call reports once that operation has ended.
    pub fn drop_history<E>(
        origin: Origin<T::AccountId>,
        when: Timeslice,
    ) -> (r: Result<Operation<T>, DispatchErrorWithPostInfo<E>>)
        ensures
            r == match origin {
                Origin::Signed(_) => Ok(Operation::<T>::DropHistory { when }),
                _ => Err(rejection::<E>()),
            },
    {
        let _ = match ensure_signed(origin) {
            Ok(who) => who,
            Err(e) => {
                return Err(DispatchErrorWithPostInfo::from_bad_origin(e));
            },
        };
        Ok(Operation::DropHistory { when })
    }

}

impl<T: Config> Pallet<T> {
    /// Decide what `call` from `origin` does: the operation it hands on, or
    /// its refusal. `admin_accepts` is the verdict of `AdminOrigin` on a
    /// non-Root `origin`; only the administrative calls consult it.
    pub fn dispatch<E>(origin: Origin<T::AccountId>, admin_accepts: bool, call: Call<T>) -> (r: Result<
        Operation<T>,
        DispatchErrorWithPostInfo<E>,
    >)
        ensures
            r == authorize::<T, E>(origin, admin_accepts, call),
    {
        match call {
            Call::configure { config } => Self::configure(origin, admin_accepts, config),
            Call::reserve { workload } => Self::reserve(origin, admin_accepts, workload),
            Call::unreserve { item_index } => Self::unreserve(origin, admin_accepts, item_index),
            Call::set_lease { task, until } => Self::set_lease(origin, admin_accepts, task, until),
            Call::start_sales { initial_price, core_count } =>
                Self::start_sales(origin, admin_accepts, initial_price, core_count),
            Call::request_core_count { core_count } =>
                Self::request_core_count(origin, admin_accepts, core_count),
            Call::purchase { price_limit } => Self::purchase(origin, price_limit),
            Call::renew { core } => Self::renew(origin, core),
            Call::transfer { region_id, new_owner } => Self::transfer(origin, region_id, new_owner),
            Call::partition { region_id, pivot } => Self::partition(origin, region_id, pivot),
            Call::interlace { region_id, pivot } => Self::interlace(origin, region_id, pivot),
            Call::assign { region_id, task, finality } =>
                Self::assign(origin, region_id, task, finality),
            Call::pool { region_id, payee, finality } =>
                Self::pool(origin, region_id, payee, finality),
            Call::claim_revenue { region_id, max_timeslices } =>
                Self::claim_revenue(origin, region_id, max_timeslices),
            Call::purchase_credit { amount, beneficiary } =>
                Self::purchase_credit(origin, amount, beneficiary),
            Call::drop_region { region_id } => Self::drop_region(origin, region_id),
            Call::drop_contribution { region_id } => Self::drop_contribution(origin, region_id),
            Call::drop_history { when } => Self::drop_history(origin, when),
        }
    }

    /// What a call reports once the operation `op` that it handed on has
    /// ended with `outcome`.
    pub fn conclude<E>(op: &Operation<T>, outcome: Result<(), E>) -> (r: DispatchResultWithPostInfo<E>)
        requires
            !(*op is Tick),
        ensures
            r == conclusion::<T, E>(*op, outcome),
    {
        match outcome {
            Err(e) => Err(DispatchErrorWithPostInfo::from_error(CallError::Operation(e))),
            Ok(()) => match op {
                Operation::Assign { finality, .. } => Ok(
                    PostDispatchInfo::from_pays(
                        match finality {
                            Finality::Final => Pays::No,
                            Finality::Provisional => Pays::Yes,
                        },
                    ),
                ),
                Operation::Pool { finality, .. } => Ok(
                    PostDispatchInfo::from_pays(
                        match finality {
                            Finality::Final => Pays::No,
                            Finality::Provisional => Pays::Yes,
                        },
                    ),
                ),
                Operation::Transfer { .. } => Ok(PostDispatchInfo::from_unit()),
                Operation::Partition { .. } => Ok(PostDispatchInfo::from_unit()),
                Operation::Interlace { .. } => Ok(PostDispatchInfo::from_unit()),
                Operation::PurchaseCredit { .. } => Ok(PostDispatchInfo::from_unit()),
                Operation::RequestCoreCount { .. } => Ok(PostDispatchInfo::from_unit()),
                _ => Ok(PostDispatchInfo::from_pays(Pays::No)),
            },
        }
    }

    /// The block hook: the broker's housekeeping runs at every block, its
    /// outcome is not looked at, and the hook reports no weight.
    pub fn on_initialize(_now: T::BlockNumber) -> (r: (Operation<T>, Weight))
        ensures
            r.0 is Tick,
            r.1 == (Weight { ref_time: 0, proof_size: 0 }),
    {
        (Operation::Tick, Weight::zero())
    }
}

/// The account that operation `op` requires to own its Region, if any.
pub open spec fn owner_to_check<T: Config>(op: Operation<T>) -> Option<T::AccountId> {
    match op {
        Operation::Transfer { maybe_check_owner, .. } => maybe_check_owner,
        Operation::Partition { maybe_check_owner, .. } => maybe_check_owner,
        Operation::Interlace { maybe_check_owner, .. } => maybe_check_owner,
        Operation::Assign { maybe_check_owner, .. } => maybe_check_owner,
        Operation::Pool { maybe_check_owner, .. } => maybe_check_owner,
        Operation::ClaimRevenue { maybe_check_owner, .. } => maybe_check_owner,
        Operation::DropRegion { maybe_check_owner, .. } => maybe_check_owner,
        Operation::DropContribution { maybe_check_owner, .. } => maybe_check_owner,
        _ => None,
    }
}


/// The function of the runtime's `WeightInfo` that gives a call's weight,
/// named after the call, with the argument it is given: `claim_revenue` is
/// weighed by `max_timeslices`, every other call by its function alone.
#[allow(non_camel_case_types)]
#[derive(Clone, Copy, PartialEq, Eq, Debug)]
pub enum CallWeight {
    configure,
    reserve,
    unreserve,
    set_lease,
    start_sales,
    purchase,
    renew,
    transfer,
    partition,
    interlace,
    assign,
    pool,
    claim_revenue(Timeslice),
    purchase_credit,
    drop_region,
    drop_contribution,
    drop_history,
    request_core_count,
}

/// The weight function of each call.
pub open spec fn call_weight_of<T: Config>(call: Call<T>) -> CallWeight {
    match call {
        Call::configure { .. } => CallWeight::configure,
        Call::reserve { .. } => CallWeight::reserve,
        Call::unreserve { .. } => CallWeight::unreserve,
        Call::set_lease { .. } => CallWeight::set_lease,
        Call::start_sales { .. } => CallWeight::start_sales,
        Call::purchase { .. } => CallWeight::purchase,
        Call::renew { .. } => CallWeight::renew,
        Call::transfer { .. } => CallWeight::transfer,
        Call::partition { .. } => CallWeight::partition,
        Call::interlace { .. } => CallWeight::interlace,
        Call::assign { .. } => CallWeight::assign,
        Call::pool { .. } => CallWeight::pool,
        Call::claim_revenue { max_timeslices, .. } => CallWeight::claim_revenue(max_timeslices),
        Call::purchase_credit { .. } => CallWeight::purchase_credit,
        Call::drop_region { .. } => CallWeight::drop_region,
        Call::drop_contribution { .. } => CallWeight::drop_contribution,
        Call::drop_history { .. } => CallWeight::drop_history,
        Call::request_core_count { .. } => CallWeight::request_core_count,
    }
}

impl<T: Config> Call<T> {
    /// The weight function of this call, with its argument.
    pub fn weight_function(&self) -> (r: CallWeight)
        ensures
            r == call_weight_of(*self),
    {
        match self {
            Call::configure { .. } => CallWeight::configure,
            Call::reserve { .. } => CallWeight::reserve,
            Call::unreserve { .. } => CallWeight::unreserve,
            Call::set_lease { .. } => CallWeight::set_lease,
            Call::start_sales { .. } => CallWeight::start_sales,
            Call::purchase { .. } => CallWeight::purchase,
            Call::renew { .. } => CallWeight::renew,
            Call::transfer { .. } => CallWeight::transfer,
            Call::partition { .. } => CallWeight::partition,
            Call::interlace { .. } => CallWeight::interlace,
            Call::assign { .. } => CallWeight::assign,
            Call::pool { .. } => CallWeight::pool,
            Call::claim_revenue { max_timeslices, .. } => CallWeight::claim_revenue(*max_timeslices),
            Call::purchase_credit { .. } => CallWeight::purchase_credit,
            Call::drop_region { .. } => CallWeight::drop_region,
            Call::drop_contribution { .. } => CallWeight::drop_contribution,
            Call::drop_history { .. } => CallWeight::drop_history,
            Call::request_core_count { .. } => CallWeight::request_core_count,
        }
    }
}

impl<T: Config> Pallet<T> {
    /// Whether deciding `call` from `origin` needs the verdict of the
    /// administrative origin: only an administrative call from an origin
    /// other than Root does.
    pub fn needs_admin_verdict(origin: &Origin<T::AccountId>, call: &Call<T>) -> (r: bool)
        ensures
            r == (is_admin_call(*call) && !(*origin is Root)),
    {
        match origin {
            Origin::Root => false,
            _ => match call {
                Call::configure { .. } => true,
                Call::reserve { .. } => true,
                Call::unreserve { .. } => true,
                Call::set_lease { .. } => true,
                Call::start_sales { .. } => true,
                Call::request_core_count { .. } => true,
                _ => false,
            },
        }
    }
}

} // verus!
