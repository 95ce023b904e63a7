use vstd::prelude::*;
use crate::pallet::Config;
use crate::types::{CoreIndex, RegionId, TaskId, Timeslice};

verus! {

/// What the broker reports of what it has done.
#[derive(PartialEq, Eq, Debug)]
pub enum Event<T: Config> {
    /// A Region of Bulk Coretime has been purchased.
    Purchased {
        /// The identity of the purchaser.
        who: T::AccountId,
        /// The identity of the Region.
        region_id: RegionId,
        /// The price paid for this Region.
        price: T::Balance,
        /// The duration of the Region.
        duration: Timeslice,
    },
    /// The workload of a core has become renewable.
    Renewable {
        /// The core whose workload can be renewed.
        core: CoreIndex,
        /// The price at which the workload can be renewed.
        price: T::Balance,
        /// The time at which the workload would recommence of this renewal. The call to renew
        /// cannot happen before the beginning of the interlude prior to the sale for regions
        /// which begin at this time.
        begin: Timeslice,
        /// The actual workload which can be renewed.
        workload: T::Schedule,
    },
    /// A workload has been renewed.
    Renewed {
        /// The identity of the renewer.
        who: T::AccountId,
        /// The price paid for this renewal.
        price: T::Balance,
        /// The index of the core on which the `workload` was previously scheduled.
        old_core: CoreIndex,
        /// The index of the core on which the renewed `workload` has been scheduled.
        core: CoreIndex,
        /// The time at which the `workload` will begin on the `core`.
        begin: Timeslice,
        /// The number of timeslices for which this `workload` is newly scheduled.
        duration: Timeslice,
        /// The workload which was renewed.
        workload: T::Schedule,
    },
    /// Ownership of a Region has been transferred.
    Transferred {
        /// The Region which has been transferred.
        region_id: RegionId,
        /// The duration of the Region.
        duration: Timeslice,
        /// The old owner of the Region.
        old_owner: T::AccountId,
        /// The new owner of the Region.
        owner: T::AccountId,
    },
    /// A Region has been split into two non-overlapping Regions.
    Partitioned {
        /// The Region which was split.
        old_region_id: RegionId,
        /// The new Regions into which it became.
        new_region_ids: (RegionId, RegionId),
    },
    /// A Region has been converted into two overlapping Regions each of lesser regularity.
    Interlaced {
        /// The Region which was interlaced.
        old_region_id: RegionId,
        /// The new Regions into which it became.
        new_region_ids: (RegionId, RegionId),
    },
    /// A Region has been assigned to a particular task.
    Assigned {
        /// The Region which was assigned.
        region_id: RegionId,
        /// The duration of the assignment.
        duration: Timeslice,
        /// The task to which the Region was assigned.
        task: TaskId,
    },
    /// A Region has been added to the Instantaneous Coretime Pool.
    Pooled {
        /// The Region which was added to the Instantaneous Coretime Pool.
        region_id: RegionId,
        /// The duration of the Region.
        duration: Timeslice,
    },
    /// A Region has been dropped due to being out of date.
    Dropped {
        /// The Region which no longer exists.
        region_id: RegionId,
        /// The duration of the Region.
        duration: Timeslice,
    },
    /// A new number of cores has been requested.
    CoreCountRequested {
        /// The number of cores requested.
        core_count: CoreIndex,
    },
    /// The number of cores available for scheduling has changed.
    CoreCountChanged {
        /// The new number of cores available for scheduling.
        core_count: CoreIndex,
    },
    /// There is a new reservation for a workload.
    ReservationMade {
        /// The index of the reservation.
        index: u32,
        /// The workload of the reservation.
        workload: T::Schedule,
    },
    /// A reservation for a workload has been cancelled.
    ReservationCancelled {
        /// The index of the reservation which was cancelled.
        index: u32,
        /// The workload of the now cancelled reservation.
        workload: T::Schedule,
    },
}

} // verus!
