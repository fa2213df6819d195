use libresy::caltime::TimeOfDay;
use libresy::resy_data::{
    BookToken, DetailsUser, PaymentMethod, ReservationDetails, ReservationSlot,
    ReservationSlotConfig, ReservationSlotDate,
};
use libresy::selector::ReservationTimeMode;
use libresy::sequencer::{
    sequencer_step, AttemptOutcome, AttemptRequest, SequencerEvent, SequencerState,
};

fn slot(start: &str, slot_type: &str, token: &str) -> ReservationSlot {
    ReservationSlot {
        date: ReservationSlotDate { start: start.to_string() },
        config: ReservationSlotConfig {
            id: 0,
            slot_type: slot_type.to_string(),
            token: token.to_string(),
        },
    }
}

fn request(hour: u32, minute: u32, mode: ReservationTimeMode) -> AttemptRequest {
    AttemptRequest {
        target_time: TimeOfDay::from_hm(hour, minute),
        table_type: None,
        time_mode: mode,
    }
}

fn details(payment_ids: &[u32], token: &str) -> ReservationDetails {
    ReservationDetails {
        user: DetailsUser {
            payment_methods: payment_ids.iter().map(|id| PaymentMethod { id: *id }).collect(),
        },
        book_token: BookToken { value: token.to_string() },
    }
}

#[test]
fn empty_slot_list_ends_with_no_slots_available() {
    let req = request(12, 30, ReservationTimeMode::Exact);
    let next = sequencer_step(
        &SequencerState::FetchingSlots,
        SequencerEvent::SlotsFetched { slots: Vec::new() },
        &req,
    );
    match next {
        SequencerState::Done { outcome } => {
            assert!(matches!(outcome, AttemptOutcome::NoSlotsAvailable));
        },
        _ => panic!("an empty slot list must end the attempt"),
    }
}

#[test]
fn unmatched_slots_end_with_no_matching_slot() {
    let req = request(18, 0, ReservationTimeMode::Exact);
    let slots = vec![slot("2022-10-29 12:30:00", "Indoor", "tok")];
    let next = sequencer_step(
        &SequencerState::FetchingSlots,
        SequencerEvent::SlotsFetched { slots },
        &req,
    );
    match next {
        SequencerState::Done { outcome } => {
            assert!(matches!(outcome, AttemptOutcome::NoMatchingSlot));
        },
        _ => panic!("a list without a qualifying slot must end the attempt"),
    }
}

#[test]
fn matching_slot_moves_on_to_the_details_fetch() {
    let req = request(12, 45, ReservationTimeMode::Exact);
    let slots = vec![
        slot("2022-10-29 12:30:00", "Indoor", "tok-1230"),
        slot("2022-10-29 12:45:00", "Outdoor", "tok-1245"),
    ];
    let next = sequencer_step(
        &SequencerState::FetchingSlots,
        SequencerEvent::SlotsFetched { slots },
        &req,
    );
    match next {
        SequencerState::FetchingDetails { slot } => {
            assert_eq!(slot.config.token, "tok-1245");
        },
        _ => panic!("a qualifying slot must move the attempt to the details fetch"),
    }
}

#[test]
fn details_without_payment_methods_end_with_no_payment_method() {
    let req = request(12, 45, ReservationTimeMode::Exact);
    let state = SequencerState::FetchingDetails {
        slot: slot("2022-10-29 12:45:00", "Outdoor", "tok-1245"),
    };
    let next = sequencer_step(
        &state,
        SequencerEvent::DetailsFetched { details: details(&[], "book-tok") },
        &req,
    );
    match next {
        SequencerState::Done { outcome } => {
            assert!(matches!(outcome, AttemptOutcome::NoPaymentMethod));
        },
        _ => panic!("details without payment methods must end the attempt before submission"),
    }
}

#[test]
fn first_payment_method_is_taken_into_submission() {
    let req = request(12, 45, ReservationTimeMode::Exact);
    let state = SequencerState::FetchingDetails {
        slot: slot("2022-10-29 12:45:00", "Outdoor", "tok-1245"),
    };
    let next = sequencer_step(
        &state,
        SequencerEvent::DetailsFetched { details: details(&[7, 8, 9], "book-tok") },
        &req,
    );
    match next {
        SequencerState::Submitting { book_token, payment } => {
            assert_eq!(book_token.value, "book-tok");
            assert_eq!(payment.id, 7);
        },
        _ => panic!("details with payment methods must move the attempt to submission"),
    }
}

#[test]
fn accepted_booking_ends_with_success() {
    let req = request(12, 45, ReservationTimeMode::Exact);
    let state = SequencerState::Submitting {
        book_token: BookToken { value: "book-tok".to_string() },
        payment: PaymentMethod { id: 7 },
    };
    let next = sequencer_step(&state, SequencerEvent::BookingAccepted, &req);
    match next {
        SequencerState::Done { outcome } => {
            assert!(matches!(outcome, AttemptOutcome::Success));
        },
        _ => panic!("an accepted booking must end the attempt"),
    }
}

#[test]
fn each_failed_remote_call_carries_its_detail() {
    let req = request(12, 45, ReservationTimeMode::Exact);

    let next = sequencer_step(
        &SequencerState::FetchingSlots,
        SequencerEvent::SlotsFailed { detail: "connection reset".to_string() },
        &req,
    );
    match next {
        SequencerState::Done { outcome: AttemptOutcome::RemoteFailure { detail } } => {
            assert_eq!(detail, "connection reset");
        },
        _ => panic!("a failed slot fetch must end the attempt with its detail"),
    }

    let state = SequencerState::FetchingDetails {
        slot: slot("2022-10-29 12:45:00", "Outdoor", "tok-1245"),
    };
    let next = sequencer_step(
        &state,
        SequencerEvent::DetailsFailed { detail: "stale token".to_string() },
        &req,
    );
    match next {
        SequencerState::Done { outcome: AttemptOutcome::RemoteFailure { detail } } => {
            assert_eq!(detail, "stale token");
        },
        _ => panic!("a failed details fetch must end the attempt with its detail"),
    }

    let state = SequencerState::Submitting {
        book_token: BookToken { value: "book-tok".to_string() },
        payment: PaymentMethod { id: 7 },
    };
    let next = sequencer_step(
        &state,
        SequencerEvent::BookingFailed { detail: "declined".to_string() },
        &req,
    );
    match next {
        SequencerState::Done { outcome: AttemptOutcome::RemoteFailure { detail } } => {
            assert_eq!(detail, "declined");
        },
        _ => panic!("a failed submission must end the attempt with its detail"),
    }
}

#[test]
fn full_attempt_walks_fetch_select_details_submit() {
    let req = AttemptRequest {
        target_time: TimeOfDay::from_hm(12, 46),
        table_type: None,
        time_mode: ReservationTimeMode::Earlier,
    };
    let slots = vec![
        slot("2022-10-29 12:30:00", "Indoor", "tok-1230"),
        slot("2022-10-29 12:45:00", "Outdoor", "tok-1245"),
        slot("2022-10-29 13:00:00", "Indoor", "tok-1300"),
    ];
    let mut state = SequencerState::FetchingSlots;
    state = sequencer_step(&state, SequencerEvent::SlotsFetched { slots }, &req);
    let chosen_token = match &state {
        SequencerState::FetchingDetails { slot } => slot.config.token.clone(),
        _ => panic!("the attempt should be fetching details"),
    };
    assert_eq!(chosen_token, "tok-1245");
    state = sequencer_step(
        &state,
        SequencerEvent::DetailsFetched { details: details(&[42], "book-tok") },
        &req,
    );
    assert!(matches!(&state, SequencerState::Submitting { .. }));
    state = sequencer_step(&state, SequencerEvent::BookingAccepted, &req);
    match state {
        SequencerState::Done { outcome } => {
            assert!(matches!(outcome, AttemptOutcome::Success));
        },
        _ => panic!("the attempt should be done"),
    }
}
