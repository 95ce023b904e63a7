use pallet_broker::dispatch::{
    BadOrigin, CallError, DispatchErrorWithPostInfo, Pays, PostDispatchInfo,
};
use pallet_broker::error::Error;
use pallet_broker::pallet::{Config, Operation, Pallet};
use pallet_broker::types::{CoreMask, Finality, RegionId};

#[derive(Clone, PartialEq, Eq, Debug)]
struct Runtime;

impl Config for Runtime {
    type AccountId = u64;
    type Balance = u128;
    type RelayAccountId = u32;
    type ConfigRecord = u32;
    type Schedule = Vec<u8>;
    type BlockNumber = u64;
}

type P = Pallet<Runtime>;

fn region() -> RegionId {
    RegionId { begin: 1, core: 0, mask: CoreMask([0xff; 10]) }
}

fn pays(p: Pays) -> Result<PostDispatchInfo, DispatchErrorWithPostInfo<Error>> {
    Ok(PostDispatchInfo { actual_weight: None, pays_fee: p })
}

#[test]
fn successful_calls_report_their_fee() {
    let free: Vec<Operation<Runtime>> = vec![
        Operation::Configure { config: 1 },
        Operation::Reserve { workload: vec![] },
        Operation::Unreserve { item_index: 1 },
        Operation::SetLease { task: 1, until: 2 },
        Operation::StartSales { initial_price: 5, core_count: 1 },
        Operation::Purchase { who: 1, price_limit: 5 },
        Operation::Renew { who: 1, core: 0 },
        Operation::ClaimRevenue { region_id: region(), maybe_check_owner: Some(1), max_timeslices: 3 },
        Operation::DropRegion { region_id: region(), maybe_check_owner: Some(1) },
        Operation::DropContribution { region_id: region(), maybe_check_owner: Some(1) },
        Operation::DropHistory { when: 3 },
        Operation::Assign { region_id: region(), maybe_check_owner: Some(1), task: 9, finality: Finality::Final },
        Operation::Pool { region_id: region(), maybe_check_owner: Some(1), payee: 2, finality: Finality::Final },
    ];
    for op in free {
        assert_eq!(P::conclude::<Error>(&op, Ok(())), pays(Pays::No));
    }
    let paid: Vec<Operation<Runtime>> = vec![
        Operation::Transfer { region_id: region(), maybe_check_owner: Some(1), new_owner: 2 },
        Operation::Partition { region_id: region(), maybe_check_owner: Some(1), pivot: 1 },
        Operation::Interlace { region_id: region(), maybe_check_owner: Some(1), pivot: CoreMask([1; 10]) },
        Operation::PurchaseCredit { who: 1, amount: 3, beneficiary: 4 },
        Operation::RequestCoreCount { core_count: 3 },
        Operation::Assign {
            region_id: region(),
            maybe_check_owner: Some(1),
            task: 9,
            finality: Finality::Provisional,
        },
        Operation::Pool {
            region_id: region(),
            maybe_check_owner: Some(1),
            payee: 2,
            finality: Finality::Provisional,
        },
    ];
    for op in paid {
        assert_eq!(P::conclude::<Error>(&op, Ok(())), pays(Pays::Yes));
    }
}

#[test]
fn failures_pass_the_error_on_and_pay() {
    let op: Operation<Runtime> = Operation::Purchase { who: 1, price_limit: 5 };
    assert_eq!(
        P::conclude(&op, Err(Error::Overpriced)),
        Err(DispatchErrorWithPostInfo {
            post_info: PostDispatchInfo { actual_weight: None, pays_fee: Pays::Yes },
            error: CallError::Operation(Error::Overpriced),
        })
    );
    let op: Operation<Runtime> =
        Operation::Transfer { region_id: region(), maybe_check_owner: Some(1), new_owner: 2 };
    assert_eq!(
        P::conclude(&op, Err(Error::NotOwner)),
        Err(DispatchErrorWithPostInfo {
            post_info: PostDispatchInfo { actual_weight: None, pays_fee: Pays::Yes },
            error: CallError::Operation(Error::NotOwner),
        })
    );
}

#[test]
fn post_info_constructors() {
    assert_eq!(PostDispatchInfo::from_pays(Pays::No), PostDispatchInfo { actual_weight: None, pays_fee: Pays::No });
    assert_eq!(PostDispatchInfo::from_unit(), PostDispatchInfo { actual_weight: None, pays_fee: Pays::Yes });
    let e: DispatchErrorWithPostInfo<Error> = DispatchErrorWithPostInfo::from_bad_origin(BadOrigin);
    assert_eq!(e.error, CallError::BadOrigin);
    assert_eq!(e.post_info.pays_fee, Pays::Yes);
    let e = DispatchErrorWithPostInfo::from_error(CallError::Operation(Error::SoldOut));
    assert_eq!(e.error, CallError::Operation(Error::SoldOut));
    assert_eq!(e.post_info.actual_weight, None);
}
