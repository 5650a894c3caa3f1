//! Resource-slot ("bus") and priority-fee selection: advisory entries are
//! tried first, in their given order; when none qualifies the selector keeps
//! probing random slots. A probed slot is accepted only when its available
//! reward clears the policy floor of four times the network reward rate.

use rand::Rng;
use vstd::prelude::*;

verus! {

/// Number of interchangeable reward-bearing slots the ledger offers.
pub const BUS_COUNT: usize = 8;

/// One advisory entry: a slot to try and the fee to attach if it is chosen.
#[derive(Clone, Copy, Debug)]
pub struct SuggestedBus {
    pub id: usize,
    pub priority_fee: u64,
}

/// An externally supplied ranking of slots with suggested fees, tried in the
/// given order before falling back to random probing.
#[derive(Debug)]
pub struct DynamicConfig {
    pub busses: Vec<SuggestedBus>,
}

/// What the selection logic reads of a live slot: its index and the reward
/// currently available on it.
#[derive(Clone, Copy, Debug)]
pub struct BusState {
    pub id: usize,
    pub rewards: u64,
}

/// The policy floor: a slot qualifies iff its available reward strictly
/// exceeds four times the network-wide reward rate (the product saturating
/// at u64::MAX, which no reward can exceed).
pub open spec fn bus_qualifies(rewards: u64, reward_rate: u64) -> bool {
    if reward_rate * 4 <= u64::MAX {
        rewards > reward_rate * 4
    } else {
        false
    }
}

/// Checks the policy floor: whether a slot's reward strictly exceeds four
/// times the reward rate.
pub fn bus_has_headroom(rewards: u64, reward_rate: u64) -> (r: bool)
    ensures
        r == bus_qualifies(rewards, reward_rate),
{
    match reward_rate.checked_mul(4) {
        Some(floor) => rewards > floor,
        None => false,
    }
}

/// Relies on rand::Rng::gen_range: the sample always lies within the given
/// (non-empty) range. Nothing more is assumed of the drawn value.
#[verifier::external_body]
fn random_index_below(n: usize) -> (r: usize)
    requires
        1 <= n,
    ensures
        r < n,
{
    rand::thread_rng().gen_range(0..n)
}

/// Where a selection stands: the advisory (if any) and how many of its
/// entries have already been probed. Once every entry has been probed the
/// selector is in the random-fallback phase for good.
pub struct SelectorState {
    pub advisory: Option<DynamicConfig>,
    pub next_entry: usize,
}

/// The advisory entries a selector walks (empty without an advisory).
pub open spec fn advisory_entries(st: SelectorState) -> Seq<SuggestedBus> {
    match st.advisory {
        Some(cfg) => cfg.busses@,
        None => Seq::empty(),
    }
}

/// Whether the selector still has advisory entries left to probe.
pub open spec fn in_advisory_phase(st: SelectorState) -> bool {
    st.next_entry < advisory_entries(st).len()
}

/// The advisory entry the selector probes next.
pub open spec fn current_entry(st: SelectorState) -> SuggestedBus
    recommends
        in_advisory_phase(st),
{
    advisory_entries(st)[st.next_entry as int]
}

/// A fresh selector that will walk the given advisory from its first entry.
pub fn selector_start(advisory: Option<DynamicConfig>) -> (st: SelectorState)
    ensures
        st.advisory == advisory,
        st.next_entry == 0,
{
    SelectorState { advisory, next_entry: 0 }
}

/// The slot the selector wants probed next: the current advisory entry's
/// slot while advisory entries remain, afterwards a freshly drawn random
/// slot of the fixed pool.
pub fn selector_query(st: &SelectorState) -> (id: usize)
    ensures
        in_advisory_phase(*st) ==> id == current_entry(*st).id,
        !in_advisory_phase(*st) ==> id < BUS_COUNT,
{
    if let Some(cfg) = &st.advisory {
        if st.next_entry < cfg.busses.len() {
            return cfg.busses[st.next_entry].id;
        }
    }
    random_index_below(BUS_COUNT)
}

/// What one probe outcome does to a selector: the state after the probe and
/// the accepted slot with its fee, if the probe cleared the reward floor.
/// A probe is accepted iff it returned a slot whose reward qualifies; an
/// accepted advisory probe carries the advisory entry's suggested fee, an
/// accepted fallback probe the static fee. An advisory probe, accepted or
/// not, consumes its entry; a fallback probe leaves the state unchanged.
pub open spec fn selector_decide_spec(
    st: SelectorState,
    outcome: Option<BusState>,
    reward_rate: u64,
    static_fee: u64,
) -> (SelectorState, Option<(BusState, u64)>) {
    let fee = if in_advisory_phase(st) {
        current_entry(st).priority_fee
    } else {
        static_fee
    };
    let next = if in_advisory_phase(st) {
        SelectorState { advisory: st.advisory, next_entry: (st.next_entry + 1) as usize }
    } else {
        st
    };
    match outcome {
        Some(bus) => if bus_qualifies(bus.rewards, reward_rate) {
            (next, Some((bus, fee)))
        } else {
            (next, None)
        },
        None => (next, None),
    }
}

/// Feeds one probe outcome (the fetched slot state, or `None` when the fetch
/// failed) to the selector; returns the chosen slot and fee, or `None` when
/// the caller must probe again.
pub fn selector_decide(
    st: &mut SelectorState,
    outcome: Option<BusState>,
    reward_rate: u64,
    static_fee: u64,
) -> (r: Option<(BusState, u64)>)
    ensures
        (*final(st), r) == selector_decide_spec(*old(st), outcome, reward_rate, static_fee),
{
    let mut fee = static_fee;
    let mut advance = false;
    if let Some(cfg) = &st.advisory {
        if st.next_entry < cfg.busses.len() {
            fee = cfg.busses[st.next_entry].priority_fee;
            advance = true;
        }
    }
    if advance {
        st.next_entry = st.next_entry + 1;
    }
    match outcome {
        Some(bus) => {
            if bus_has_headroom(bus.rewards, reward_rate) {
                Some((bus, fee))
            } else {
                None
            }
        },
        None => None,
    }
}

/// Advisory precedence: while advisory entries remain, a qualifying probe is
/// returned at once, with the current advisory entry's suggested fee — the
/// static fallback fee is never attached to an advisory slot.
pub proof fn lemma_advisory_precedence(
    st: SelectorState,
    bus: BusState,
    reward_rate: u64,
    static_fee: u64,
)
    requires
        in_advisory_phase(st),
        bus_qualifies(bus.rewards, reward_rate),
    ensures
        selector_decide_spec(st, Some(bus), reward_rate, static_fee).1 == Some(
            (bus, current_entry(st).priority_fee),
        ),
{
}

/// The selector never settles below the floor: a probe that failed, or found
/// a slot whose reward does not clear four times the reward rate, is never
/// accepted — in the fallback phase the selection therefore keeps probing
/// until some slot qualifies.
pub proof fn lemma_no_floor_no_selection(
    st: SelectorState,
    outcome: Option<BusState>,
    reward_rate: u64,
    static_fee: u64,
)
    requires
        match outcome {
            Some(bus) => !bus_qualifies(bus.rewards, reward_rate),
            None => true,
        },
    ensures
        selector_decide_spec(st, outcome, reward_rate, static_fee).1 is None,
{
}

} // verus!
