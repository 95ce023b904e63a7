use pallet_broker::dispatch::{
    BadOrigin, CallError, DispatchErrorWithPostInfo, Pays, PostDispatchInfo, Weight,
};
use pallet_broker::error::Error;
use pallet_broker::origin::{ensure_origin_or_root, ensure_signed, Origin};
use pallet_broker::pallet::{Call, CallWeight, Config, Operation, Pallet};
use pallet_broker::types::{CoreMask, Finality, RegionId};

#[derive(Clone, PartialEq, Eq, Debug)]
struct Test;

impl Config for Test {
    type AccountId = u64;
    type Balance = u128;
    type RelayAccountId = u32;
    type ConfigRecord = u32;
    type Schedule = Vec<u8>;
    type BlockNumber = u64;
}

type P = Pallet<Test>;
type Decision = Result<Operation<Test>, DispatchErrorWithPostInfo<Error>>;

const ALICE: u64 = 1;
const BOB: u64 = 2;

fn refused() -> Decision {
    Err(DispatchErrorWithPostInfo {
        post_info: PostDispatchInfo { actual_weight: None, pays_fee: Pays::Yes },
        error: CallError::BadOrigin,
    })
}

fn region() -> RegionId {
    RegionId { begin: 4, core: 2, mask: CoreMask([0xff; 10]) }
}

fn non_root_origins() -> Vec<Origin<u64>> {
    vec![Origin::Signed(ALICE), Origin::Unsigned, Origin::Authorized, Origin::Other]
}

fn unsigned_origins() -> Vec<Origin<u64>> {
    vec![Origin::Root, Origin::Unsigned, Origin::Authorized, Origin::Other]
}

#[test]
fn ensure_signed_gives_the_signer() {
    assert_eq!(ensure_signed(Origin::Signed(ALICE)), Ok(ALICE));
    assert_eq!(ensure_signed::<u64>(Origin::Root), Err(BadOrigin));
    assert_eq!(ensure_signed::<u64>(Origin::Unsigned), Err(BadOrigin));
    assert_eq!(ensure_signed::<u64>(Origin::Authorized), Err(BadOrigin));
    assert_eq!(ensure_signed::<u64>(Origin::Other), Err(BadOrigin));
}

#[test]
fn root_passes_the_admin_check_whatever_the_verdict() {
    assert_eq!(ensure_origin_or_root::<u64>(&Origin::Root, false), Ok(()));
    assert_eq!(ensure_origin_or_root::<u64>(&Origin::Root, true), Ok(()));
    for o in non_root_origins() {
        assert_eq!(ensure_origin_or_root(&o, true), Ok(()));
        assert_eq!(ensure_origin_or_root(&o, false), Err(BadOrigin));
    }
}

#[test]
fn configure_admits_root_and_admin() {
    let r: Decision = P::configure(Origin::Root, false, 7);
    assert_eq!(r, Ok(Operation::Configure { config: 7 }));
    let r: Decision = P::configure(Origin::Signed(ALICE), true, 7);
    assert_eq!(r, Ok(Operation::Configure { config: 7 }));
    for o in non_root_origins() {
        let r: Decision = P::configure(o, false, 7);
        assert_eq!(r, refused());
        let r: Decision = P::configure(o, true, 8);
        assert_eq!(r, Ok(Operation::Configure { config: 8 }));
    }
}

#[test]
fn reserve_and_unreserve_are_admin_calls() {
    let r: Decision = P::reserve(Origin::Root, false, vec![1, 2]);
    assert_eq!(r, Ok(Operation::Reserve { workload: vec![1, 2] }));
    let r: Decision = P::reserve(Origin::Signed(BOB), false, vec![1, 2]);
    assert_eq!(r, refused());
    let r: Decision = P::unreserve(Origin::Authorized, true, 3);
    assert_eq!(r, Ok(Operation::Unreserve { item_index: 3 }));
    let r: Decision = P::unreserve(Origin::Unsigned, false, 3);
    assert_eq!(r, refused());
}

#[test]
fn set_lease_start_sales_and_core_count_are_admin_calls() {
    let r: Decision = P::set_lease(Origin::Root, false, 2000, 100);
    assert_eq!(r, Ok(Operation::SetLease { task: 2000, until: 100 }));
    let r: Decision = P::set_lease(Origin::Signed(ALICE), false, 2000, 100);
    assert_eq!(r, refused());
    let r: Decision = P::start_sales(Origin::Signed(ALICE), true, 100, 10);
    assert_eq!(r, Ok(Operation::StartSales { initial_price: 100, core_count: 10 }));
    let r: Decision = P::start_sales(Origin::Signed(ALICE), false, 100, 10);
    assert_eq!(r, refused());
    let r: Decision = P::request_core_count(Origin::Root, false, 5);
    assert_eq!(r, Ok(Operation::RequestCoreCount { core_count: 5 }));
    let r: Decision = P::request_core_count(Origin::Authorized, false, 5);
    assert_eq!(r, refused());
}

#[test]
fn purchase_and_renew_hand_on_the_signer() {
    let r: Decision = P::purchase(Origin::Signed(ALICE), 500);
    assert_eq!(r, Ok(Operation::Purchase { who: ALICE, price_limit: 500 }));
    let r: Decision = P::renew(Origin::Signed(BOB), 3);
    assert_eq!(r, Ok(Operation::Renew { who: BOB, core: 3 }));
    for o in unsigned_origins() {
        let r: Decision = P::purchase(o, 500);
        assert_eq!(r, refused());
        let r: Decision = P::renew(o, 3);
        assert_eq!(r, refused());
    }
}

#[test]
fn region_calls_check_the_signer_as_owner() {
    let r: Decision = P::transfer(Origin::Signed(ALICE), region(), BOB);
    assert_eq!(
        r,
        Ok(Operation::Transfer { region_id: region(), maybe_check_owner: Some(ALICE), new_owner: BOB })
    );
    let r: Decision = P::partition(Origin::Signed(ALICE), region(), 2);
    assert_eq!(r, Ok(Operation::Partition { region_id: region(), maybe_check_owner: Some(ALICE), pivot: 2 }));
    let mask = CoreMask([0xf0, 0, 0, 0, 0, 0, 0, 0, 0, 0]);
    let r: Decision = P::interlace(Origin::Signed(BOB), region(), mask);
    assert_eq!(r, Ok(Operation::Interlace { region_id: region(), maybe_check_owner: Some(BOB), pivot: mask }));
    let r: Decision = P::assign(Origin::Signed(ALICE), region(), 1000, Finality::Final);
    assert_eq!(
        r,
        Ok(Operation::Assign {
            region_id: region(),
            maybe_check_owner: Some(ALICE),
            task: 1000,
            finality: Finality::Final,
        })
    );
    let r: Decision = P::pool(Origin::Signed(ALICE), region(), BOB, Finality::Provisional);
    assert_eq!(
        r,
        Ok(Operation::Pool {
            region_id: region(),
            maybe_check_owner: Some(ALICE),
            payee: BOB,
            finality: Finality::Provisional,
        })
    );
    for o in unsigned_origins() {
        let r: Decision = P::transfer(o, region(), BOB);
        assert_eq!(r, refused());
        let r: Decision = P::partition(o, region(), 2);
        assert_eq!(r, refused());
        let r: Decision = P::interlace(o, region(), mask);
        assert_eq!(r, refused());
        let r: Decision = P::assign(o, region(), 1000, Finality::Final);
        assert_eq!(r, refused());
        let r: Decision = P::pool(o, region(), BOB, Finality::Final);
        assert_eq!(r, refused());
    }
}

#[test]
fn claim_and_drops_check_the_signer_as_owner() {
    let r: Decision = P::claim_revenue(Origin::Signed(BOB), region(), 10);
    assert_eq!(
        r,
        Ok(Operation::ClaimRevenue { region_id: region(), maybe_check_owner: Some(BOB), max_timeslices: 10 })
    );
    let r: Decision = P::drop_region(Origin::Signed(BOB), region());
    assert_eq!(r, Ok(Operation::DropRegion { region_id: region(), maybe_check_owner: Some(BOB) }));
    let r: Decision = P::drop_contribution(Origin::Signed(ALICE), region());
    assert_eq!(r, Ok(Operation::DropContribution { region_id: region(), maybe_check_owner: Some(ALICE) }));
    let r: Decision = P::drop_history(Origin::Signed(BOB), 9);
    assert_eq!(r, Ok(Operation::DropHistory { when: 9 }));
    let r: Decision = P::purchase_credit(Origin::Signed(ALICE), 50, 77);
    assert_eq!(r, Ok(Operation::PurchaseCredit { who: ALICE, amount: 50, beneficiary: 77 }));
    for o in unsigned_origins() {
        let r: Decision = P::claim_revenue(o, region(), 10);
        assert_eq!(r, refused());
        let r: Decision = P::drop_region(o, region());
        assert_eq!(r, refused());
        let r: Decision = P::drop_contribution(o, region());
        assert_eq!(r, refused());
        let r: Decision = P::drop_history(o, 9);
        assert_eq!(r, refused());
        let r: Decision = P::purchase_credit(o, 50, 77);
        assert_eq!(r, refused());
    }
}

fn all_calls() -> Vec<Call<Test>> {
    vec![
        Call::configure { config: 1 },
        Call::reserve { workload: vec![3] },
        Call::unreserve { item_index: 0 },
        Call::set_lease { task: 2000, until: 10 },
        Call::start_sales { initial_price: 100, core_count: 4 },
        Call::purchase { price_limit: 100 },
        Call::renew { core: 1 },
        Call::transfer { region_id: region(), new_owner: BOB },
        Call::partition { region_id: region(), pivot: 1 },
        Call::interlace { region_id: region(), pivot: CoreMask([1; 10]) },
        Call::assign { region_id: region(), task: 2000, finality: Finality::Final },
        Call::pool { region_id: region(), payee: BOB, finality: Finality::Provisional },
        Call::claim_revenue { region_id: region(), max_timeslices: 5 },
        Call::purchase_credit { amount: 10, beneficiary: 3 },
        Call::drop_region { region_id: region() },
        Call::drop_contribution { region_id: region() },
        Call::drop_history { when: 2 },
        Call::request_core_count { core_count: 6 },
    ]
}

#[test]
fn call_indices_are_zero_to_seventeen_in_order() {
    let indices: Vec<u8> = all_calls().iter().map(|c| c.call_index()).collect();
    let expected: Vec<u8> = (0..18).collect();
    assert_eq!(indices, expected);
}

#[test]
fn dispatch_routes_to_the_named_call() {
    let r: Decision = P::dispatch(Origin::Root, false, Call::start_sales { initial_price: 100, core_count: 4 });
    assert_eq!(r, Ok(Operation::StartSales { initial_price: 100, core_count: 4 }));
    let r: Decision = P::dispatch(Origin::Signed(ALICE), false, Call::transfer { region_id: region(), new_owner: BOB });
    assert_eq!(
        r,
        Ok(Operation::Transfer { region_id: region(), maybe_check_owner: Some(ALICE), new_owner: BOB })
    );
    let r: Decision = P::dispatch(Origin::Root, true, Call::purchase { price_limit: 1 });
    assert_eq!(r, refused());
}

#[test]
fn admin_verdict_matters_only_for_admin_calls() {
    for (i, call) in all_calls().into_iter().enumerate() {
        let admin_call = matches!(i, 0..=4 | 17);
        let signed_true: Decision = P::dispatch(Origin::Signed(ALICE), true, call.clone());
        let signed_false: Decision = P::dispatch(Origin::Signed(ALICE), false, call.clone());
        let root: Decision = P::dispatch(Origin::Root, false, call.clone());
        let unsigned: Decision = P::dispatch(Origin::Unsigned, true, call.clone());
        if admin_call {
            assert!(signed_true.is_ok());
            assert_eq!(signed_false, refused());
            assert!(root.is_ok());
            assert!(unsigned.is_ok());
        } else {
            assert_eq!(signed_true, signed_false);
            assert!(signed_true.is_ok());
            assert_eq!(root, refused());
            assert_eq!(unsigned, refused());
        }
    }
}

#[test]
fn on_initialize_ticks_with_zero_weight() {
    let (op, w) = P::on_initialize(42);
    assert_eq!(op, Operation::Tick);
    assert_eq!(w, Weight { ref_time: 0, proof_size: 0 });
    assert_eq!(Weight::zero(), Weight { ref_time: 0, proof_size: 0 });
}

#[test]
fn each_call_names_its_weight_function() {
    let weights: Vec<CallWeight> = all_calls().iter().map(|c| c.weight_function()).collect();
    assert_eq!(
        weights,
        vec![
            CallWeight::configure,
            CallWeight::reserve,
            CallWeight::unreserve,
            CallWeight::set_lease,
            CallWeight::start_sales,
            CallWeight::purchase,
            CallWeight::renew,
            CallWeight::transfer,
            CallWeight::partition,
            CallWeight::interlace,
            CallWeight::assign,
            CallWeight::pool,
            CallWeight::claim_revenue(5),
            CallWeight::purchase_credit,
            CallWeight::drop_region,
            CallWeight::drop_contribution,
            CallWeight::drop_history,
            CallWeight::request_core_count,
        ]
    );
    let c: Call<Test> = Call::claim_revenue { region_id: region(), max_timeslices: 42 };
    assert_eq!(c.weight_function(), CallWeight::claim_revenue(42));
}

#[test]
fn admin_verdict_is_needed_only_for_admin_calls_from_non_root() {
    for (i, call) in all_calls().into_iter().enumerate() {
        let admin_call = matches!(i, 0..=4 | 17);
        assert!(!P::needs_admin_verdict(&Origin::Root, &call));
        assert_eq!(P::needs_admin_verdict(&Origin::Signed(ALICE), &call), admin_call);
        assert_eq!(P::needs_admin_verdict(&Origin::Other, &call), admin_call);
    }
}
