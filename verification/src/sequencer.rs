//! The booking sequencer: one acquisition attempt as a state machine.
//!
//! An attempt walks a short chain of dependent remote calls: fetch the
//! open slots, select one, fetch its booking details, resolve a payment
//! method, submit the booking. The network layer performs the call each
//! state asks for and feeds the response back through [`sequencer_step`];
//! every decision between the calls is made here.

use vstd::prelude::*;
use crate::caltime::TimeOfDay;
use crate::resy_data::{BookToken, PaymentMethod, ReservationDetails, ReservationSlot};
use crate::selector::{
    get_matching_reservation, opt_str_view, slot_parses, slot_views, spec_select,
    ReservationTimeMode,
};

verus! {

/// How one acquisition attempt ended.
pub enum AttemptOutcome {
    /// The booking was submitted and accepted.
    Success,
    /// The service listed no slots at all for the date and party size.
    NoSlotsAvailable,
    /// Slots existed, but none passed the time policy and table filter.
    NoMatchingSlot,
    /// The user has no payment method on file; a booking cannot be sent.
    NoPaymentMethod,
    /// A remote call failed; the detail carries its report.
    RemoteFailure { detail: String },
}

/// The mathematical content of an attempt outcome.
pub ghost enum OutcomeView {
    Success,
    NoSlotsAvailable,
    NoMatchingSlot,
    NoPaymentMethod,
    RemoteFailure { detail: Seq<char> },
}

impl View for AttemptOutcome {
    type V = OutcomeView;

    open spec fn view(&self) -> OutcomeView {
        match self {
            AttemptOutcome::Success => OutcomeView::Success,
            AttemptOutcome::NoSlotsAvailable => OutcomeView::NoSlotsAvailable,
            AttemptOutcome::NoMatchingSlot => OutcomeView::NoMatchingSlot,
            AttemptOutcome::NoPaymentMethod => OutcomeView::NoPaymentMethod,
            AttemptOutcome::RemoteFailure { detail } => OutcomeView::RemoteFailure {
                detail: detail@,
            },
        }
    }
}

impl Clone for AttemptOutcome {
    fn clone(&self) -> (r: Self)
        ensures
            r@ == self@,
    {
        match self {
            AttemptOutcome::Success => AttemptOutcome::Success,
            AttemptOutcome::NoSlotsAvailable => AttemptOutcome::NoSlotsAvailable,
            AttemptOutcome::NoMatchingSlot => AttemptOutcome::NoMatchingSlot,
            AttemptOutcome::NoPaymentMethod => AttemptOutcome::NoPaymentMethod,
            AttemptOutcome::RemoteFailure { detail } => AttemptOutcome::RemoteFailure {
                detail: detail.clone(),
            },
        }
    }
}

/// What the user asked of one attempt: the slot-selection inputs.
pub struct AttemptRequest {
    pub target_time: TimeOfDay,
    pub table_type: Option<String>,
    pub time_mode: ReservationTimeMode,
}

/// Where an attempt stands: each non-final state names the remote call
/// whose response the attempt waits for.
pub enum SequencerState {
    /// Waiting for the open slots of the date and party size.
    FetchingSlots,
    /// Waiting for the chosen slot's booking details.
    FetchingDetails { slot: ReservationSlot },
    /// Waiting for the verdict on the submitted booking.
    Submitting { book_token: BookToken, payment: PaymentMethod },
    /// The attempt ended.
    Done { outcome: AttemptOutcome },
}

/// What a remote call handed back.
pub enum SequencerEvent {
    SlotsFetched { slots: Vec<ReservationSlot> },
    SlotsFailed { detail: String },
    DetailsFetched { details: ReservationDetails },
    DetailsFailed { detail: String },
    BookingAccepted,
    BookingFailed { detail: String },
}

/// Whether an event answers the call the state waits for.
pub open spec fn event_fits(state: SequencerState, event: SequencerEvent) -> bool {
    match state {
        SequencerState::FetchingSlots => match event {
            SequencerEvent::SlotsFetched { .. } => true,
            SequencerEvent::SlotsFailed { .. } => true,
            _ => false,
        },
        SequencerState::FetchingDetails { .. } => match event {
            SequencerEvent::DetailsFetched { .. } => true,
            SequencerEvent::DetailsFailed { .. } => true,
            _ => false,
        },
        SequencerState::Submitting { .. } => match event {
            SequencerEvent::BookingAccepted => true,
            SequencerEvent::BookingFailed { .. } => true,
            _ => false,
        },
        SequencerState::Done { .. } => false,
    }
}

/// Whether an event's payload is sound: every slot the service listed
/// carries a start stamp that names a real date and time.
pub open spec fn event_wf(event: SequencerEvent) -> bool {
    match event {
        SequencerEvent::SlotsFetched { slots } => forall|i: int|
            0 <= i < slots@.len() ==> slot_parses(#[trigger] slots@[i]@),
        _ => true,
    }
}

/// Drives one attempt a step forward: consumes the response to the call
/// the current state was waiting for and decides what happens next.
///
/// An empty slot list ends the attempt with `NoSlotsAvailable` and no
/// further calls; a list in which nothing qualifies ends it with
/// `NoMatchingSlot`; a details response without payment methods ends it
/// with `NoPaymentMethod` before any booking is sent; a failed remote
/// call ends it with `RemoteFailure`. Otherwise the attempt advances to
/// the next call of the chain.
pub fn sequencer_step(state: &SequencerState, event: SequencerEvent, request: &AttemptRequest) -> (
    next: SequencerState)
    requires
        event_fits(*state, event),
        event_wf(event),
    ensures
        state matches SequencerState::FetchingSlots ==> event matches
            SequencerEvent::SlotsFetched { slots } ==> ({
            let sel = spec_select(
                slot_views(slots@),
                request.target_time,
                opt_str_view(request.table_type),
                request.time_mode,
            );
            &&& slots@.len() == 0 ==> (next matches SequencerState::Done { outcome }
                && outcome is NoSlotsAvailable)
            &&& slots@.len() > 0 && sel is None ==> (next matches SequencerState::Done { outcome }
                && outcome is NoMatchingSlot)
            &&& sel matches Some(chosen) ==> (next matches SequencerState::FetchingDetails { slot }
                && slot@ == chosen)
        }),
        state matches SequencerState::FetchingSlots ==> event matches SequencerEvent::SlotsFailed {
            detail,
        } ==> (next matches SequencerState::Done { outcome } && outcome matches
            AttemptOutcome::RemoteFailure { detail: d } && d@ == detail@),
        state matches SequencerState::FetchingDetails { .. } ==> event matches
            SequencerEvent::DetailsFetched { details } ==> ({
            &&& details.user.payment_methods@.len() == 0 ==> (next matches SequencerState::Done {
                outcome,
            } && outcome is NoPaymentMethod)
            &&& details.user.payment_methods@.len() > 0 ==> (next matches
                SequencerState::Submitting { book_token, payment } && book_token.value@
                == details.book_token.value@ && payment == details.user.payment_methods@[0])
        }),
        state matches SequencerState::FetchingDetails { .. } ==> event matches
            SequencerEvent::DetailsFailed { detail } ==> (next matches SequencerState::Done {
            outcome,
        } && outcome matches AttemptOutcome::RemoteFailure { detail: d } && d@ == detail@),
        state matches SequencerState::Submitting { .. } ==> event matches
            SequencerEvent::BookingAccepted ==> (next matches SequencerState::Done { outcome }
            && outcome is Success),
        state matches SequencerState::Submitting { .. } ==> event matches
            SequencerEvent::BookingFailed { detail } ==> (next matches SequencerState::Done {
            outcome,
        } && outcome matches AttemptOutcome::RemoteFailure { detail: d } && d@ == detail@),
{
    match state {
        SequencerState::FetchingSlots => match event {
            SequencerEvent::SlotsFetched { slots } => {
                if slots.len() == 0 {
                    return SequencerState::Done { outcome: AttemptOutcome::NoSlotsAvailable };
                }
                let chosen = get_matching_reservation(
                    &slots,
                    &request.target_time,
                    &request.table_type,
                    &request.time_mode,
                );
                match chosen {
                    Some(slot) => SequencerState::FetchingDetails { slot },
                    None => SequencerState::Done { outcome: AttemptOutcome::NoMatchingSlot },
                }
            },
            SequencerEvent::SlotsFailed { detail } => SequencerState::Done {
                outcome: AttemptOutcome::RemoteFailure { detail },
            },
            _ => vstd::pervasive::unreached(),
        },
        SequencerState::FetchingDetails { .. } => match event {
            SequencerEvent::DetailsFetched { details } => {
                let payment = details.get_payment_id();
                match payment {
                    Some(p) => SequencerState::Submitting {
                        book_token: details.book_token.clone(),
                        payment: p,
                    },
                    None => SequencerState::Done { outcome: AttemptOutcome::NoPaymentMethod },
                }
            },
            SequencerEvent::DetailsFailed { detail } => SequencerState::Done {
                outcome: AttemptOutcome::RemoteFailure { detail },
            },
            _ => vstd::pervasive::unreached(),
        },
        SequencerState::Submitting { .. } => match event {
            SequencerEvent::BookingAccepted => SequencerState::Done {
                outcome: AttemptOutcome::Success,
            },
            SequencerEvent::BookingFailed { detail } => SequencerState::Done {
                outcome: AttemptOutcome::RemoteFailure { detail },
            },
            _ => vstd::pervasive::unreached(),
        },
        SequencerState::Done { .. } => vstd::pervasive::unreached(),
    }
}

} // verus!
