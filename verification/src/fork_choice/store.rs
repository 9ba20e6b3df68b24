//! Fork-choice store extensions.
//!
//! ePBS introduces three slot states that fork choice must distinguish:
//!
//!   Full    — beacon block + execution payload both canonical.
//!   Skipped — no beacon block for this slot.
//!   Empty   — beacon block canonical, but the builder did NOT reveal the payload.
//!
//! The store tracks these states per slot together with the PTC outcome, so
//! that builder reveal safety (a payload the PTC saw in time is canonical) can
//! be checked.
use std::collections::HashMap;
use vstd::prelude::*;

use crate::beacon_chain::types::{Root, Slot};

verus! {

broadcast use vstd::std_specs::hash::group_hash_axioms;

/// The three possible states of an ePBS slot.
#[derive(Debug, Clone, PartialEq)]
pub enum SlotPayloadStatus {
    /// Both beacon block and execution payload are canonical.
    Full,
    /// No beacon block was seen for this slot.
    Skipped,
    /// Beacon block is canonical but the execution payload was NOT revealed.
    Empty,
}

/// Per-slot ePBS fork-choice data tracked in the store.
#[derive(Debug, Clone)]
pub struct EpbsSlotData {
    pub slot: Slot,
    pub beacon_root: Root,
    pub payload_status: SlotPayloadStatus,
    /// True if the PTC reached the threshold for payload_present.
    pub ptc_full: bool,
    /// True if the PTC reached the threshold for payload absent.
    pub ptc_empty: bool,
}

/// Fork-choice store extension for ePBS.
#[derive(Debug)]
pub struct EpbsStore {
    /// Slot → ePBS slot data.
    slots: HashMap<Slot, EpbsSlotData>,
    /// Latest finalized slot.
    finalized_slot: Slot,
}

impl View for EpbsStore {
    type V = Map<Slot, EpbsSlotData>;

    /// The slot data recorded for each slot that has a beacon block.
    closed spec fn view(&self) -> Map<Slot, EpbsSlotData> {
        self.slots@
    }
}

/// The data recorded for a freshly seen beacon block: Empty, no PTC outcome.
pub open spec fn fresh_slot_data(slot: Slot, beacon_root: Root) -> EpbsSlotData {
    EpbsSlotData {
        slot,
        beacon_root,
        payload_status: SlotPayloadStatus::Empty,
        ptc_full: false,
        ptc_empty: false,
    }
}

/// The store after a beacon block for `slot`: its data is replaced by fresh data.
pub open spec fn after_beacon_block(m: Map<Slot, EpbsSlotData>, slot: Slot, beacon_root: Root) -> Map<
    Slot,
    EpbsSlotData,
> {
    m.insert(slot, fresh_slot_data(slot, beacon_root))
}

/// The store after a revealed payload for `slot`: a recorded slot becomes Full,
/// an unrecorded one is left alone.
pub open spec fn after_execution_payload(m: Map<Slot, EpbsSlotData>, slot: Slot) -> Map<
    Slot,
    EpbsSlotData,
> {
    if m.contains_key(slot) {
        m.insert(slot, EpbsSlotData { payload_status: SlotPayloadStatus::Full, ..m[slot] })
    } else {
        m
    }
}

/// The store after the PTC threshold is reached for `slot`: a recorded slot
/// gets the matching PTC flag set, an unrecorded one is left alone.
pub open spec fn after_ptc_threshold(
    m: Map<Slot, EpbsSlotData>,
    slot: Slot,
    payload_present: bool,
) -> Map<Slot, EpbsSlotData> {
    if m.contains_key(slot) {
        if payload_present {
            m.insert(slot, EpbsSlotData { ptc_full: true, ..m[slot] })
        } else {
            m.insert(slot, EpbsSlotData { ptc_empty: true, ..m[slot] })
        }
    } else {
        m
    }
}

/// The status of a slot: its recorded status, or Skipped when no beacon block was seen.
pub open spec fn status_in(m: Map<Slot, EpbsSlotData>, slot: Slot) -> SlotPayloadStatus {
    if m.contains_key(slot) {
        m[slot].payload_status
    } else {
        SlotPayloadStatus::Skipped
    }
}

/// Builder reveal safety is violated at `slot` when the PTC confirmed the
/// payload present but the slot is not Full.
pub open spec fn reveal_safety_violated(m: Map<Slot, EpbsSlotData>, slot: Slot) -> bool {
    m.contains_key(slot) && m[slot].ptc_full && m[slot].payload_status != SlotPayloadStatus::Full
}

/// Every recorded slot has a beacon block, so its status is Empty or Full,
/// never Skipped.
pub open spec fn recorded_slots_valid(m: Map<Slot, EpbsSlotData>) -> bool {
    forall|s: Slot| #[trigger] m.contains_key(s) ==> m[s].payload_status != SlotPayloadStatus::Skipped
}

impl EpbsStore {
    /// The store's invariant: no recorded slot is Skipped. `new` establishes it
    /// and every event handler keeps it; each operation also states it of the
    /// store it was given.
    #[verifier::type_invariant]
    spec fn recorded_slots_never_skipped(&self) -> bool {
        recorded_slots_valid(self.slots@)
    }

    /// The latest finalized slot.
    pub closed spec fn finalized(&self) -> Slot {
        self.finalized_slot
    }

    /// The latest finalized slot.
    pub fn finalized_slot(&self) -> (r: Slot)
        ensures
            r == self.finalized(),
    {
        self.finalized_slot
    }

    /// Record a new latest finalized slot; the slot data is unchanged.
    pub fn set_finalized_slot(&mut self, slot: Slot)
        ensures
            final(self)@ == old(self)@,
            final(self).finalized() == slot,
    {
        proof {
            use_type_invariant(&*self);
        }
        self.finalized_slot = slot;
    }

    pub fn new() -> (r: Self)
        ensures
            r@ == Map::<Slot, EpbsSlotData>::empty(),
            r.finalized() == 0,
            recorded_slots_valid(r@),
    {
        EpbsStore { slots: HashMap::new(), finalized_slot: 0 }
    }

    /// Record a beacon block for a slot (the slot is Empty until a payload arrives).
    pub fn on_beacon_block(&mut self, slot: Slot, beacon_root: Root)
        ensures
            recorded_slots_valid(old(self)@),
            recorded_slots_valid(final(self)@),
            final(self)@ == after_beacon_block(old(self)@, slot, beacon_root),
            final(self).finalized() == old(self).finalized(),
    {
        proof {
            use_type_invariant(&*self);
        }
        let mut slots: HashMap<Slot, EpbsSlotData> = HashMap::new();
        std::mem::swap(&mut slots, &mut self.slots);
        slots.insert(
            slot,
            EpbsSlotData {
                slot,
                beacon_root,
                payload_status: SlotPayloadStatus::Empty,
                ptc_full: false,
                ptc_empty: false,
            },
        );
        self.slots = slots;
    }

    /// Record a revealed execution payload (Empty → Full).
    pub fn on_execution_payload(&mut self, slot: Slot)
        ensures
            recorded_slots_valid(old(self)@),
            recorded_slots_valid(final(self)@),
            final(self)@ == after_execution_payload(old(self)@, slot),
            final(self).finalized() == old(self).finalized(),
    {
        proof {
            use_type_invariant(&*self);
        }
        let updated = match self.slots.get(&slot) {
            Some(data) => Some(
                EpbsSlotData {
                    slot: data.slot,
                    beacon_root: data.beacon_root,
                    payload_status: SlotPayloadStatus::Full,
                    ptc_full: data.ptc_full,
                    ptc_empty: data.ptc_empty,
                },
            ),
            None => None,
        };
        if let Some(data) = updated {
            let mut slots: HashMap<Slot, EpbsSlotData> = HashMap::new();
            std::mem::swap(&mut slots, &mut self.slots);
            slots.insert(slot, data);
            self.slots = slots;
        }
    }

    /// Record that the PTC vote tally for a slot reached the threshold.
    pub fn on_ptc_threshold_reached(&mut self, slot: Slot, payload_present: bool)
        ensures
            recorded_slots_valid(old(self)@),
            recorded_slots_valid(final(self)@),
            final(self)@ == after_ptc_threshold(old(self)@, slot, payload_present),
            final(self).finalized() == old(self).finalized(),
    {
        proof {
            use_type_invariant(&*self);
        }
        let updated = match self.slots.get(&slot) {
            Some(data) => Some(
                EpbsSlotData {
                    slot: data.slot,
                    beacon_root: data.beacon_root,
                    payload_status: copy_status(&data.payload_status),
                    ptc_full: if payload_present {
                        true
                    } else {
                        data.ptc_full
                    },
                    ptc_empty: if payload_present {
                        data.ptc_empty
                    } else {
                        true
                    },
                },
            ),
            None => None,
        };
        if let Some(data) = updated {
            let mut slots: HashMap<Slot, EpbsSlotData> = HashMap::new();
            std::mem::swap(&mut slots, &mut self.slots);
            slots.insert(slot, data);
            self.slots = slots;
        }
    }

    /// The status of a slot; Skipped when no beacon block was recorded.
    pub fn slot_status(&self, slot: Slot) -> (r: SlotPayloadStatus)
        ensures
            r == status_in(self@, slot),
            recorded_slots_valid(self@),
    {
        proof {
            use_type_invariant(self);
        }
        match self.slots.get(&slot) {
            Some(d) => copy_status(&d.payload_status),
            None => SlotPayloadStatus::Skipped,
        }
    }

    /// Builder reveal safety: if the PTC confirmed payload_present, the payload
    /// must be canonical (Full). Returns true if a violation is detected.
    pub fn check_reveal_safety(&self, slot: Slot) -> (r: bool)
        ensures
            r == reveal_safety_violated(self@, slot),
            recorded_slots_valid(self@),
    {
        proof {
            use_type_invariant(self);
        }
        match self.slots.get(&slot) {
            Some(data) => data.ptc_full && !matches!(data.payload_status, SlotPayloadStatus::Full),
            None => false,
        }
    }
}

impl Default for EpbsStore {
    fn default() -> (r: Self)
        ensures
            r@ == Map::<Slot, EpbsSlotData>::empty(),
            r.finalized() == 0,
            recorded_slots_valid(r@),
    {
        EpbsStore::new()
    }
}

/// The same status.
fn copy_status(s: &SlotPayloadStatus) -> (r: SlotPayloadStatus)
    ensures
        r == *s,
{
    match s {
        SlotPayloadStatus::Full => SlotPayloadStatus::Full,
        SlotPayloadStatus::Skipped => SlotPayloadStatus::Skipped,
        SlotPayloadStatus::Empty => SlotPayloadStatus::Empty,
    }
}

} // verus!

verus! {

// ── Laws ──────────────────────────────────────────────────────────────────────

/// A slot with no beacon block is Skipped; a beacon block makes it Empty; a
/// revealed payload then makes it Full.
pub proof fn lemma_slot_lifecycle(m: Map<Slot, EpbsSlotData>, slot: Slot, beacon_root: Root)
    ensures
        !m.contains_key(slot) ==> status_in(m, slot) == SlotPayloadStatus::Skipped,
        status_in(after_beacon_block(m, slot, beacon_root), slot) == SlotPayloadStatus::Empty,
        status_in(after_execution_payload(after_beacon_block(m, slot, beacon_root), slot), slot)
            == SlotPayloadStatus::Full,
{
}

/// A payload for a slot without a beacon block changes nothing, and neither
/// does a PTC outcome for such a slot.
pub proof fn lemma_events_without_block_are_ignored(
    m: Map<Slot, EpbsSlotData>,
    slot: Slot,
    payload_present: bool,
)
    requires
        !m.contains_key(slot),
    ensures
        after_execution_payload(m, slot) == m,
        after_ptc_threshold(m, slot, payload_present) == m,
{
}

/// In a well-formed store a Skipped slot has no beacon block, so a payload or a
/// PTC outcome for it changes nothing.
pub proof fn lemma_skipped_slot_events_are_ignored(
    m: Map<Slot, EpbsSlotData>,
    slot: Slot,
    payload_present: bool,
)
    requires
        recorded_slots_valid(m),
        status_in(m, slot) == SlotPayloadStatus::Skipped,
    ensures
        !m.contains_key(slot),
        after_execution_payload(m, slot) == m,
        after_ptc_threshold(m, slot, payload_present) == m,
{
}

/// Reveal safety over a slot's history, one event at a time: a beacon block
/// starts the slot unflagged; a revealed payload clears the flag; a
/// `payload_present = false` outcome leaves the flag as it was; a
/// `payload_present = true` outcome flags the slot exactly when it has a beacon
/// block and is not Full. Skipped and Full slots are never flagged.
pub proof fn lemma_reveal_safety_steps(m: Map<Slot, EpbsSlotData>, slot: Slot, beacon_root: Root)
    ensures
        !reveal_safety_violated(after_beacon_block(m, slot, beacon_root), slot),
        !reveal_safety_violated(after_execution_payload(m, slot), slot),
        reveal_safety_violated(after_ptc_threshold(m, slot, false), slot) == reveal_safety_violated(
            m,
            slot,
        ),
        reveal_safety_violated(after_ptc_threshold(m, slot, true), slot) == (m.contains_key(slot)
            && status_in(m, slot) != SlotPayloadStatus::Full),
        status_in(m, slot) == SlotPayloadStatus::Full ==> !reveal_safety_violated(m, slot),
        !m.contains_key(slot) ==> !reveal_safety_violated(m, slot),
{
}

/// Slots are tracked independently: an event for one slot leaves the data of
/// every other slot as it was.
pub proof fn lemma_slots_independent(
    m: Map<Slot, EpbsSlotData>,
    slot: Slot,
    other: Slot,
    beacon_root: Root,
    payload_present: bool,
)
    requires
        slot != other,
    ensures
        after_beacon_block(m, slot, beacon_root).contains_key(other) == m.contains_key(other),
        after_execution_payload(m, slot).contains_key(other) == m.contains_key(other),
        after_ptc_threshold(m, slot, payload_present).contains_key(other) == m.contains_key(other),
        m.contains_key(other) ==> {
            &&& after_beacon_block(m, slot, beacon_root)[other] == m[other]
            &&& after_execution_payload(m, slot)[other] == m[other]
            &&& after_ptc_threshold(m, slot, payload_present)[other] == m[other]
        },
        status_in(after_beacon_block(m, slot, beacon_root), other) == status_in(m, other),
        status_in(after_execution_payload(m, slot), other) == status_in(m, other),
        status_in(after_ptc_threshold(m, slot, payload_present), other) == status_in(m, other),
{
}

/// PTC outcomes never change any slot's payload status.
pub proof fn lemma_ptc_keeps_status(
    m: Map<Slot, EpbsSlotData>,
    slot: Slot,
    other: Slot,
    payload_present: bool,
)
    ensures
        status_in(after_ptc_threshold(m, slot, payload_present), other) == status_in(m, other),
{
}

/// Builder reveal safety: once a payload has been revealed for a slot with a
/// beacon block, no PTC outcome flags that slot, whichever comes first.
pub proof fn lemma_revealed_payload_is_safe(
    m: Map<Slot, EpbsSlotData>,
    slot: Slot,
    beacon_root: Root,
    payload_present: bool,
)
    ensures
        !reveal_safety_violated(after_execution_payload(after_beacon_block(m, slot, beacon_root), slot), slot),
        !reveal_safety_violated(
            after_ptc_threshold(
                after_execution_payload(after_beacon_block(m, slot, beacon_root), slot),
                slot,
                payload_present,
            ),
            slot,
        ),
        !reveal_safety_violated(
            after_execution_payload(
                after_ptc_threshold(after_beacon_block(m, slot, beacon_root), slot, payload_present),
                slot,
            ),
            slot,
        ),
{
}

/// A PTC that saw the payload present for a slot whose payload was never
/// revealed is flagged; a PTC that saw it absent is not.
pub proof fn lemma_unrevealed_payload_flagged(
    m: Map<Slot, EpbsSlotData>,
    slot: Slot,
    beacon_root: Root,
)
    ensures
        reveal_safety_violated(
            after_ptc_threshold(after_beacon_block(m, slot, beacon_root), slot, true),
            slot,
        ),
        !reveal_safety_violated(
            after_ptc_threshold(after_beacon_block(m, slot, beacon_root), slot, false),
            slot,
        ),
{
}

/// An event the store handles.
pub enum StoreEvent {
    BeaconBlock { slot: Slot, beacon_root: Root },
    ExecutionPayload { slot: Slot },
    PtcThreshold { slot: Slot, payload_present: bool },
}

/// The store after one event.
pub open spec fn after_event(m: Map<Slot, EpbsSlotData>, e: StoreEvent) -> Map<Slot, EpbsSlotData> {
    match e {
        StoreEvent::BeaconBlock { slot, beacon_root } => after_beacon_block(m, slot, beacon_root),
        StoreEvent::ExecutionPayload { slot } => after_execution_payload(m, slot),
        StoreEvent::PtcThreshold { slot, payload_present } => after_ptc_threshold(
            m,
            slot,
            payload_present,
        ),
    }
}

/// The store after a history of events, oldest first.
pub open spec fn after_events(m: Map<Slot, EpbsSlotData>, es: Seq<StoreEvent>) -> Map<
    Slot,
    EpbsSlotData,
>
    decreases es.len(),
{
    if es.len() == 0 {
        m
    } else {
        after_event(after_events(m, es.drop_last()), es.last())
    }
}

/// `e` is a beacon block for `slot`.
pub open spec fn is_block_for(e: StoreEvent, slot: Slot) -> bool {
    e matches StoreEvent::BeaconBlock { slot: s, .. } && s == slot
}

/// `e` is a revealed payload for `slot`.
pub open spec fn is_payload_for(e: StoreEvent, slot: Slot) -> bool {
    e matches StoreEvent::ExecutionPayload { slot: s } && s == slot
}

/// `e` is a PTC outcome for `slot` that saw the payload present.
pub open spec fn is_present_vote_for(e: StoreEvent, slot: Slot) -> bool {
    e matches StoreEvent::PtcThreshold { slot: s, payload_present: true } && s == slot
}

/// The position of the latest beacon block for `slot` in the history, or -1.
pub open spec fn latest_block(es: Seq<StoreEvent>, slot: Slot) -> int
    decreases es.len(),
{
    if es.len() == 0 {
        -1
    } else if is_block_for(es.last(), slot) {
        es.len() - 1
    } else {
        latest_block(es.drop_last(), slot)
    }
}

/// The history flags `slot`: it has a beacon block, and after the latest one a
/// PTC outcome saw the payload present while no payload was revealed.
pub open spec fn history_flags_slot(es: Seq<StoreEvent>, slot: Slot) -> bool {
    let b = latest_block(es, slot);
    &&& b >= 0
    &&& exists|j: int| b < j < es.len() && is_present_vote_for(#[trigger] es[j], slot)
    &&& forall|j: int| b < j < es.len() ==> !is_payload_for(#[trigger] es[j], slot)
}

/// What a history makes of one slot, starting from an empty store: the slot is
/// recorded exactly when it had a beacon block; it is then Full exactly when a
/// payload came after the latest block, and its PTC-present flag is set exactly
/// when such an outcome came after the latest block.
proof fn lemma_history_slot_data(es: Seq<StoreEvent>, slot: Slot)
    ensures
        -1 <= latest_block(es, slot) < es.len(),
        after_events(Map::empty(), es).contains_key(slot) == (latest_block(es, slot) >= 0),
        after_events(Map::empty(), es).contains_key(slot) ==> {
            &&& (after_events(Map::empty(), es)[slot].payload_status == SlotPayloadStatus::Full)
                == (exists|j: int|
                latest_block(es, slot) < j < es.len() && is_payload_for(#[trigger] es[j], slot))
            &&& after_events(Map::empty(), es)[slot].ptc_full == (exists|j: int|
                latest_block(es, slot) < j < es.len() && is_present_vote_for(#[trigger] es[j], slot))
            &&& after_events(Map::empty(), es)[slot].payload_status != SlotPayloadStatus::Skipped
        },
    decreases es.len(),
{
    if es.len() > 0 {
        let prev = es.drop_last();
        let e = es.last();
        let n = es.len() - 1;
        lemma_history_slot_data(prev, slot);
        assert(forall|j: int| 0 <= j < n ==> es[j] == #[trigger] prev[j]);
        let b = latest_block(es, slot);
        let m = after_events(Map::empty(), es);
        let pm = after_events(Map::empty(), prev);
        assert(m == after_event(pm, e));
        if !is_block_for(e, slot) {
            assert(b == latest_block(prev, slot));
            if m.contains_key(slot) {
                assert(pm.contains_key(slot));
                if exists|j: int| b < j < es.len() && is_payload_for(#[trigger] es[j], slot) {
                    let j = choose|j: int| b < j < es.len() && is_payload_for(#[trigger] es[j], slot);
                    if j < n {
                        assert(is_payload_for(prev[j], slot));
                    }
                } else {
                    assert(!is_payload_for(e, slot));
                    assert forall|j: int| b < j < prev.len() implies !is_payload_for(
                        #[trigger] prev[j],
                        slot,
                    ) by {
                        assert(es[j] == prev[j]);
                    }
                }
                if exists|j: int| b < j < es.len() && is_present_vote_for(#[trigger] es[j], slot) {
                    let j = choose|j: int|
                        b < j < es.len() && is_present_vote_for(#[trigger] es[j], slot);
                    if j < n {
                        assert(is_present_vote_for(prev[j], slot));
                    }
                } else {
                    assert(!is_present_vote_for(e, slot));
                    assert forall|j: int| b < j < prev.len() implies !is_present_vote_for(
                        #[trigger] prev[j],
                        slot,
                    ) by {
                        assert(es[j] == prev[j]);
                    }
                }
                if exists|j: int| b < j < prev.len() && is_payload_for(#[trigger] prev[j], slot) {
                    let j = choose|j: int| b < j < prev.len() && is_payload_for(#[trigger] prev[j], slot);
                    assert(is_payload_for(es[j], slot));
                }
                if exists|j: int| b < j < prev.len() && is_present_vote_for(#[trigger] prev[j], slot) {
                    let j = choose|j: int|
                        b < j < prev.len() && is_present_vote_for(#[trigger] prev[j], slot);
                    assert(is_present_vote_for(es[j], slot));
                }
                if is_payload_for(e, slot) {
                    assert(is_payload_for(es[n], slot));
                }
                if is_present_vote_for(e, slot) {
                    assert(is_present_vote_for(es[n], slot));
                }
            }
        }
    }
}

/// Reveal safety over a whole history, from an empty store: a slot is flagged
/// exactly when it has a beacon block and, after the latest one, a PTC outcome
/// saw the payload present while no payload was revealed. So Skipped and Full
/// slots are never flagged, and an absent-payload vote never flags a slot.
pub proof fn lemma_reveal_safety_over_history(es: Seq<StoreEvent>, slot: Slot)
    ensures
        reveal_safety_violated(after_events(Map::empty(), es), slot) == history_flags_slot(es, slot),
{
    lemma_history_slot_data(es, slot);
}

} // verus!
