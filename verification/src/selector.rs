//! The slot selector: which candidate slot best matches the requested
//! time, table type and match policy.

use vstd::prelude::*;
use crate::ascii::{eq_ignore_case, lower};
use crate::caltime::{spec_parse_datetime, TimeOfDay};
use crate::resy_data::{ReservationSlot, SlotView};

verus! {

/// How a slot's time must relate to the requested time.
///
/// `Exact` takes only the requested time itself. `Earlier` also takes
/// earlier times, preferring the latest of them; `Later` also takes later
/// times, preferring the earliest.
#[derive(Clone, Copy, Debug, PartialEq, Eq, Structural)]
pub enum ReservationTimeMode {
    Exact,
    Earlier,
    Later,
}

/// Whether a slot's start stamp names a real date and time.
pub open spec fn slot_parses(v: SlotView) -> bool {
    spec_parse_datetime(v.start) is Some
}

/// The seconds-from-midnight of a slot's start time.
pub open spec fn slot_seconds(v: SlotView) -> int {
    match spec_parse_datetime(v.start) {
        Some(dt) => dt.time.seconds as int,
        None => 0,
    }
}

/// The view of an optional table-type filter.
pub open spec fn opt_str_view(o: Option<String>) -> Option<Seq<char>> {
    match o {
        None => None,
        Some(s) => Some(s@),
    }
}

/// Whether a slot's table type passes an optional filter: no filter lets
/// every slot pass, a filter asks for equality with ASCII case ignored.
pub open spec fn spec_type_matches(slot_type: Seq<char>, filter: Option<Seq<char>>) -> bool {
    match filter {
        None => true,
        Some(f) => lower(f) == lower(slot_type),
    }
}

/// Whether a slot's time satisfies the policy against the target time.
pub open spec fn spec_time_matches(
    mode: ReservationTimeMode,
    slot_secs: int,
    target: TimeOfDay,
) -> bool {
    match mode {
        ReservationTimeMode::Exact => slot_secs == target.seconds,
        ReservationTimeMode::Earlier => slot_secs <= target.seconds,
        ReservationTimeMode::Later => slot_secs >= target.seconds,
    }
}

/// Whether a slot is a candidate at all: type filter passed and time
/// within the policy's reach.
pub open spec fn qualifies(
    v: SlotView,
    target: TimeOfDay,
    filter: Option<Seq<char>>,
    mode: ReservationTimeMode,
) -> bool {
    spec_type_matches(v.slot_type, filter) && spec_time_matches(mode, slot_seconds(v), target)
}

/// Whether a later-listed candidate beats an earlier-listed one. Under
/// `Exact` it never does (the first hit wins); under `Earlier` only a
/// strictly later start does; under `Later` only a strictly earlier one.
pub open spec fn strictly_prefers(
    mode: ReservationTimeMode,
    challenger_secs: int,
    incumbent_secs: int,
) -> bool {
    match mode {
        ReservationTimeMode::Exact => false,
        ReservationTimeMode::Earlier => challenger_secs > incumbent_secs,
        ReservationTimeMode::Later => challenger_secs < incumbent_secs,
    }
}

/// The slot the selector picks from a candidate list: among the qualifying
/// slots the one with the best time under the policy, ties going to the
/// earliest-listed.
pub open spec fn spec_select(
    slots: Seq<SlotView>,
    target: TimeOfDay,
    filter: Option<Seq<char>>,
    mode: ReservationTimeMode,
) -> Option<SlotView>
    decreases slots.len(),
{
    if slots.len() == 0 {
        None
    } else {
        let head = slots[0];
        let rest = spec_select(slots.drop_first(), target, filter, mode);
        if !qualifies(head, target, filter, mode) {
            rest
        } else {
            match rest {
                None => Some(head),
                Some(b) => if strictly_prefers(mode, slot_seconds(b), slot_seconds(head)) {
                    Some(b)
                } else {
                    Some(head)
                },
            }
        }
    }
}

/// What the selector's choice means: the chosen slot is listed, qualifies,
/// and no listed qualifying slot has a strictly better time; and nothing
/// is chosen only when nothing qualifies.
pub proof fn lemma_select_characterizes(
    slots: Seq<SlotView>,
    target: TimeOfDay,
    filter: Option<Seq<char>>,
    mode: ReservationTimeMode,
)
    ensures
        match spec_select(slots, target, filter, mode) {
            Some(s) => (exists|i: int| 0 <= i < slots.len() && slots[i] == s) && qualifies(
                s,
                target,
                filter,
                mode,
            ) && forall|j: int|
                0 <= j < slots.len() && qualifies(#[trigger] slots[j], target, filter, mode)
                    ==> !strictly_prefers(mode, slot_seconds(slots[j]), slot_seconds(s)),
            None => forall|j: int|
                0 <= j < slots.len() ==> !qualifies(#[trigger] slots[j], target, filter, mode),
        },
    decreases slots.len(),
{
    if slots.len() == 0 {
    } else {
        let rest = slots.drop_first();
        lemma_select_characterizes(rest, target, filter, mode);
        assert(forall|j: int| 1 <= j < slots.len() ==> #[trigger] slots[j] == rest[j - 1]);
        match spec_select(rest, target, filter, mode) {
            Some(b) => {
                let bi = choose|i: int| 0 <= i < rest.len() && rest[i] == b;
                assert(slots[bi + 1] == b);
            },
            None => {},
        }
    }
}

/// Under the exact policy something is chosen iff some listed slot passes
/// the type filter and starts at the target time, and any chosen slot is
/// such a listed slot.
pub proof fn lemma_select_exact(slots: Seq<SlotView>, target: TimeOfDay, filter: Option<Seq<char>>)
    ensures
        (spec_select(slots, target, filter, ReservationTimeMode::Exact) is Some) <==> exists|i: int|
            0 <= i < slots.len() && qualifies(
                #[trigger] slots[i],
                target,
                filter,
                ReservationTimeMode::Exact,
            ),
        match spec_select(slots, target, filter, ReservationTimeMode::Exact) {
            Some(s) => (exists|i: int| 0 <= i < slots.len() && slots[i] == s) && spec_type_matches(
                s.slot_type,
                filter,
            ) && slot_seconds(s) == target.seconds,
            None => true,
        },
{
    lemma_select_characterizes(slots, target, filter, ReservationTimeMode::Exact);
    match spec_select(slots, target, filter, ReservationTimeMode::Exact) {
        Some(s) => {
            let i = choose|i: int| 0 <= i < slots.len() && slots[i] == s;
            assert(qualifies(slots[i], target, filter, ReservationTimeMode::Exact));
        },
        None => {},
    }
}

/// Under the earlier policy something is chosen iff some listed slot
/// passes the filter and starts at or before the target, and any chosen
/// slot is such a slot with the greatest start time among them.
pub proof fn lemma_select_earlier(
    slots: Seq<SlotView>,
    target: TimeOfDay,
    filter: Option<Seq<char>>,
)
    ensures
        (spec_select(slots, target, filter, ReservationTimeMode::Earlier) is Some) <==> exists|
            i: int,
        |
            0 <= i < slots.len() && qualifies(
                #[trigger] slots[i],
                target,
                filter,
                ReservationTimeMode::Earlier,
            ),
        match spec_select(slots, target, filter, ReservationTimeMode::Earlier) {
            Some(s) => (exists|i: int| 0 <= i < slots.len() && slots[i] == s) && qualifies(
                s,
                target,
                filter,
                ReservationTimeMode::Earlier,
            ) && forall|j: int|
                0 <= j < slots.len() && qualifies(
                    #[trigger] slots[j],
                    target,
                    filter,
                    ReservationTimeMode::Earlier,
                ) ==> slot_seconds(slots[j]) <= slot_seconds(s),
            None => true,
        },
{
    lemma_select_characterizes(slots, target, filter, ReservationTimeMode::Earlier);
    match spec_select(slots, target, filter, ReservationTimeMode::Earlier) {
        Some(s) => {
            let i = choose|i: int| 0 <= i < slots.len() && slots[i] == s;
            assert(qualifies(slots[i], target, filter, ReservationTimeMode::Earlier));
        },
        None => {},
    }
}

/// Under the later policy something is chosen iff some listed slot passes
/// the filter and starts at or after the target, and any chosen slot is
/// such a slot with the least start time among them.
pub proof fn lemma_select_later(slots: Seq<SlotView>, target: TimeOfDay, filter: Option<Seq<char>>)
    ensures
        (spec_select(slots, target, filter, ReservationTimeMode::Later) is Some) <==> exists|i: int|
            0 <= i < slots.len() && qualifies(
                #[trigger] slots[i],
                target,
                filter,
                ReservationTimeMode::Later,
            ),
        match spec_select(slots, target, filter, ReservationTimeMode::Later) {
            Some(s) => (exists|i: int| 0 <= i < slots.len() && slots[i] == s) && qualifies(
                s,
                target,
                filter,
                ReservationTimeMode::Later,
            ) && forall|j: int|
                0 <= j < slots.len() && qualifies(
                    #[trigger] slots[j],
                    target,
                    filter,
                    ReservationTimeMode::Later,
                ) ==> slot_seconds(slots[j]) >= slot_seconds(s),
            None => true,
        },
{
    lemma_select_characterizes(slots, target, filter, ReservationTimeMode::Later);
    match spec_select(slots, target, filter, ReservationTimeMode::Later) {
        Some(s) => {
            let i = choose|i: int| 0 <= i < slots.len() && slots[i] == s;
            assert(qualifies(slots[i], target, filter, ReservationTimeMode::Later));
        },
        None => {},
    }
}

/// The slots of a list whose table type passes the filter, in their order.
pub open spec fn filter_by_type(slots: Seq<SlotView>, f: Seq<char>) -> Seq<SlotView>
    decreases slots.len(),
{
    if slots.len() == 0 {
        Seq::empty()
    } else {
        let rest = filter_by_type(slots.drop_first(), f);
        if spec_type_matches(slots[0].slot_type, Some(f)) {
            seq![slots[0]] + rest
        } else {
            rest
        }
    }
}

/// Filtering by table type first and then selecting by time alone chooses
/// the same slot as selecting with the filter in place: the type filter
/// commutes with the time policy.
pub proof fn lemma_filter_commutes(
    slots: Seq<SlotView>,
    target: TimeOfDay,
    f: Seq<char>,
    mode: ReservationTimeMode,
)
    ensures
        spec_select(slots, target, Some(f), mode) == spec_select(
            filter_by_type(slots, f),
            target,
            None,
            mode,
        ),
    decreases slots.len(),
{
    if slots.len() == 0 {
    } else {
        lemma_filter_commutes(slots.drop_first(), target, f, mode);
        let filtered = filter_by_type(slots, f);
        if spec_type_matches(slots[0].slot_type, Some(f)) {
            assert(filtered == seq![slots[0]] + filter_by_type(slots.drop_first(), f));
            assert(filtered[0] == slots[0]);
            assert(filtered.drop_first() =~= filter_by_type(slots.drop_first(), f));
        } else {
            assert(filtered == filter_by_type(slots.drop_first(), f));
        }
    }
}

/// The views of a list of slots.
pub open spec fn slot_views(slots: Seq<ReservationSlot>) -> Seq<SlotView> {
    slots.map_values(|s: ReservationSlot| s@)
}

/// Whether the reservation slot matches the user's requested table type.
/// Without a requested type every slot matches.
pub fn table_type_matches(slot_type: &str, requested_table_type: &Option<String>) -> (r: bool)
    ensures
        r == spec_type_matches(slot_type@, opt_str_view(*requested_table_type)),
{
    match requested_table_type {
        Some(req) => eq_ignore_case(req.as_str(), slot_type),
        None => true,
    }
}

/// Whether one slot qualifies under the target time, filter and policy.
fn qualifies_exec(
    slot: &ReservationSlot,
    target: &TimeOfDay,
    table_type: &Option<String>,
    mode: &ReservationTimeMode,
) -> (r: bool)
    requires
        slot_parses(slot@),
    ensures
        r == qualifies(slot@, *target, opt_str_view(*table_type), *mode),
{
    let dt = slot.date.to_datetime();
    let type_ok = table_type_matches(slot.config.slot_type.as_str(), table_type);
    let time_ok = match mode {
        ReservationTimeMode::Exact => dt.time.seconds == target.seconds,
        ReservationTimeMode::Earlier => dt.time.seconds <= target.seconds,
        ReservationTimeMode::Later => dt.time.seconds >= target.seconds,
    };
    type_ok && time_ok
}

/// Finds the reservation slot that best matches the requested time, table
/// type and policy, or nothing when no slot qualifies.
pub fn get_matching_reservation(
    reservations: &Vec<ReservationSlot>,
    time: &TimeOfDay,
    table_type: &Option<String>,
    time_mode: &ReservationTimeMode,
) -> (r: Option<ReservationSlot>)
    requires
        forall|i: int|
            0 <= i < reservations@.len() ==> slot_parses(#[trigger] reservations@[i]@),
    ensures
        match r {
            Some(s) => spec_select(
                slot_views(reservations@),
                *time,
                opt_str_view(*table_type),
                *time_mode,
            ) == Some(s@),
            None => spec_select(
                slot_views(reservations@),
                *time,
                opt_str_view(*table_type),
                *time_mode,
            ) is None,
        },
{
    let ghost vs = slot_views(reservations@);
    let n = reservations.len();
    let mut best: Option<usize> = None;
    let mut i: usize = n;
    while i > 0
        invariant
            n == reservations@.len(),
            vs == slot_views(reservations@),
            i <= n,
            forall|k: int| 0 <= k < n ==> slot_parses(#[trigger] reservations@[k]@),
            match best {
                Some(b) => i <= b < n && spec_select(
                    vs.subrange(i as int, n as int),
                    *time,
                    opt_str_view(*table_type),
                    *time_mode,
                ) == Some(reservations@[b as int]@),
                None => spec_select(
                    vs.subrange(i as int, n as int),
                    *time,
                    opt_str_view(*table_type),
                    *time_mode,
                ) is None,
            },
        decreases i,
    {
        i -= 1;
        proof {
            assert(vs.subrange(i as int, n as int).drop_first() =~= vs.subrange(
                i + 1,
                n as int,
            ));
            assert(vs.subrange(i as int, n as int)[0] == reservations@[i as int]@);
        }
        let q = qualifies_exec(&reservations[i], time, table_type, time_mode);
        if q {
            match best {
                None => {
                    best = Some(i);
                },
                Some(b) => {
                    let head_secs = reservations[i].date.to_datetime().time.seconds;
                    let best_secs = reservations[b].date.to_datetime().time.seconds;
                    let prefer_incumbent = match time_mode {
                        ReservationTimeMode::Exact => false,
                        ReservationTimeMode::Earlier => best_secs > head_secs,
                        ReservationTimeMode::Later => best_secs < head_secs,
                    };
                    if !prefer_incumbent {
                        best = Some(i);
                    }
                },
            }
        }
    }
    proof {
        assert(vs.subrange(0, n as int) =~= vs);
    }
    match best {
        Some(b) => Some(reservations[b].clone()),
        None => None,
    }
}

} // verus!
