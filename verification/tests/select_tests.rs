use ore_cli::select::{
    bus_has_headroom, selector_decide, selector_query, selector_start, BusState, DynamicConfig,
    SuggestedBus, BUS_COUNT,
};

#[test]
fn advisory_precedence_first_entry_wins() {
    // Advisory lists slot 3 first with fee 500; slot 3's live reward clears
    // the floor, so selection returns (slot 3, fee 500) without any fallback.
    let advisory = DynamicConfig {
        busses: vec![
            SuggestedBus { id: 3, priority_fee: 500 },
            SuggestedBus { id: 1, priority_fee: 900 },
        ],
    };
    let mut st = selector_start(Some(advisory));
    let reward_rate = 10u64;
    assert_eq!(selector_query(&st), 3);
    let live = BusState { id: 3, rewards: 41 }; // 41 > 4 * 10
    let chosen = selector_decide(&mut st, Some(live), reward_rate, 7777).expect("must accept");
    assert_eq!(chosen.0.id, 3);
    assert_eq!(chosen.0.rewards, 41);
    assert_eq!(chosen.1, 500);
}

#[test]
fn advisory_entry_below_floor_is_skipped() {
    let advisory = DynamicConfig {
        busses: vec![
            SuggestedBus { id: 3, priority_fee: 500 },
            SuggestedBus { id: 5, priority_fee: 800 },
        ],
    };
    let mut st = selector_start(Some(advisory));
    let reward_rate = 10u64;
    assert_eq!(selector_query(&st), 3);
    // slot 3 is exhausted: 40 is not strictly above 4 * 10
    let r = selector_decide(&mut st, Some(BusState { id: 3, rewards: 40 }), reward_rate, 7777);
    assert!(r.is_none());
    // the second advisory entry is tried next, with its own fee
    assert_eq!(selector_query(&st), 5);
    let chosen = selector_decide(&mut st, Some(BusState { id: 5, rewards: 100 }), reward_rate, 7777)
        .expect("must accept");
    assert_eq!(chosen.0.id, 5);
    assert_eq!(chosen.1, 800);
}

#[test]
fn advisory_fetch_failure_skips_entry() {
    let advisory = DynamicConfig { busses: vec![SuggestedBus { id: 2, priority_fee: 100 }] };
    let mut st = selector_start(Some(advisory));
    assert!(selector_decide(&mut st, None, 1, 42).is_none());
    // the advisory is used up, so the next probe is a random fallback slot
    let id = selector_query(&st);
    assert!(id < BUS_COUNT);
}

#[test]
fn fallback_keeps_probing_until_a_slot_qualifies() {
    // With no qualifying slot the selector never settles; it settles exactly
    // when a qualifying slot is injected, with the static fee.
    let mut st = selector_start(None);
    let reward_rate = 100u64;
    for _ in 0..100 {
        let id = selector_query(&st);
        assert!(id < BUS_COUNT);
        let starved = BusState { id, rewards: 400 }; // never above 4 * 100
        assert!(selector_decide(&mut st, Some(starved), reward_rate, 55).is_none());
    }
    let id = selector_query(&st);
    let funded = BusState { id, rewards: 401 };
    let chosen = selector_decide(&mut st, Some(funded), reward_rate, 55).expect("must accept");
    assert_eq!(chosen.0.id, id);
    assert_eq!(chosen.1, 55);
}

#[test]
fn headroom_floor_is_strict_and_saturating() {
    assert!(!bus_has_headroom(40, 10)); // equal to the floor: rejected
    assert!(bus_has_headroom(41, 10)); // strictly above: accepted
    assert!(!bus_has_headroom(0, 0) == bus_has_headroom(1, 0)); // floor 0 needs reward >= 1
    // 4 * rate overflows u64: the floor saturates and nothing qualifies
    assert!(!bus_has_headroom(u64::MAX, u64::MAX / 2));
}
