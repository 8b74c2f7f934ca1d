use hook_relay::client::{
    begin_send, client_step, ClientAction, ClientEvent, ClientState, MAX_RETRIES,
    RETRY_WAIT_MILLIS,
};

const START: ClientState = ClientState::Opening { retries: 0 };

#[test]
fn retry_policy_constants() {
    assert_eq!(MAX_RETRIES, 10);
    assert_eq!(RETRY_WAIT_MILLIS, 10);
}

#[test]
fn a_send_starts_by_opening_the_endpoint() {
    assert_eq!(begin_send(), (START, ClientAction::Open));
}

#[test]
fn send_writes_the_frame_once_and_closes() {
    let (state, action) = client_step(START, ClientEvent::Opened, "hello");
    assert_eq!(state, ClientState::Writing);
    assert_eq!(action, ClientAction::Write(vec![b'h', b'e', b'l', b'l', b'o', 0]));
    let (state, action) = client_step(state, ClientEvent::Written, "hello");
    assert_eq!((state, action), (ClientState::Closing, ClientAction::Close));
    let (state, action) = client_step(state, ClientEvent::Closed, "hello");
    assert_eq!((state, action), (ClientState::Done, ClientAction::Finish));
}

#[test]
fn send_of_the_empty_text_writes_the_terminator() {
    let (state, action) = client_step(START, ClientEvent::Opened, "");
    assert_eq!(state, ClientState::Writing);
    assert_eq!(action, ClientAction::Write(vec![0]));
}

#[test]
fn send_of_an_unframeable_text_closes_without_writing() {
    let (state, action) = client_step(START, ClientEvent::Opened, "a\0b");
    assert_eq!((state, action), (ClientState::Closing, ClientAction::Close));
    let (state, action) = client_step(state, ClientEvent::Closed, "a\0b");
    assert_eq!((state, action), (ClientState::Done, ClientAction::Finish));
}

#[test]
fn busy_endpoint_is_waited_for_and_tried_again() {
    let (state, action) = client_step(START, ClientEvent::Busy, "m");
    assert_eq!(state, ClientState::Waiting { retries: 1 });
    assert_eq!(action, ClientAction::Wait { millis: 10 });
    let (state, action) = client_step(state, ClientEvent::EndpointFree, "m");
    assert_eq!(state, ClientState::Opening { retries: 1 });
    assert_eq!(action, ClientAction::Open);
    let (state, action) = client_step(state, ClientEvent::Opened, "m");
    assert_eq!(state, ClientState::Writing);
    assert_eq!(action, ClientAction::Write(vec![b'm', 0]));
}

#[test]
fn send_gives_up_after_ten_retries() {
    let mut state = START;
    let mut opens = 1;
    let mut waits = 0;
    loop {
        let (next, action) = client_step(state, ClientEvent::Busy, "m");
        if action == ClientAction::Finish {
            assert_eq!(next, ClientState::Done);
            break;
        }
        assert_eq!(action, ClientAction::Wait { millis: 10 });
        waits += 1;
        let (next, action) = client_step(next, ClientEvent::EndpointFree, "m");
        assert_eq!(action, ClientAction::Open);
        opens += 1;
        state = next;
    }
    assert_eq!(waits, 10);
    assert_eq!(opens, 11);
}

#[test]
fn the_last_retry_can_still_succeed() {
    let (state, action) = client_step(ClientState::Opening { retries: 10 }, ClientEvent::Opened, "z");
    assert_eq!(state, ClientState::Writing);
    assert_eq!(action, ClientAction::Write(vec![b'z', 0]));
    let (state, action) = client_step(ClientState::Opening { retries: 9 }, ClientEvent::Busy, "z");
    assert_eq!(state, ClientState::Waiting { retries: 10 });
    assert_eq!(action, ClientAction::Wait { millis: 10 });
    let (state, action) = client_step(ClientState::Opening { retries: 10 }, ClientEvent::Busy, "z");
    assert_eq!((state, action), (ClientState::Done, ClientAction::Finish));
}

#[test]
fn failures_end_the_send_silently() {
    assert_eq!(
        client_step(START, ClientEvent::OpenFailed, "m"),
        (ClientState::Done, ClientAction::Finish)
    );
    assert_eq!(
        client_step(ClientState::Waiting { retries: 3 }, ClientEvent::WaitExpired, "m"),
        (ClientState::Done, ClientAction::Finish)
    );
}

#[test]
fn the_connection_is_closed_whatever_follows_the_write() {
    for event in [
        ClientEvent::Opened,
        ClientEvent::Busy,
        ClientEvent::OpenFailed,
        ClientEvent::EndpointFree,
        ClientEvent::WaitExpired,
        ClientEvent::Written,
        ClientEvent::Closed,
    ] {
        assert_eq!(
            client_step(ClientState::Writing, event, "m"),
            (ClientState::Closing, ClientAction::Close)
        );
    }
}

#[test]
fn events_that_answer_no_call_end_the_send() {
    assert_eq!(
        client_step(START, ClientEvent::Written, "m"),
        (ClientState::Done, ClientAction::Finish)
    );
    assert_eq!(
        client_step(ClientState::Waiting { retries: 1 }, ClientEvent::Opened, "m"),
        (ClientState::Done, ClientAction::Finish)
    );
    assert_eq!(
        client_step(ClientState::Closing, ClientEvent::Busy, "m"),
        (ClientState::Done, ClientAction::Finish)
    );
}

#[test]
fn a_finished_send_stays_finished() {
    for event in [ClientEvent::Opened, ClientEvent::Busy, ClientEvent::Closed] {
        assert_eq!(
            client_step(ClientState::Done, event, "m"),
            (ClientState::Done, ClientAction::Finish)
        );
    }
}

#[test]
fn every_send_is_done_within_twenty_three_steps() {
    let events = [
        ClientEvent::Opened,
        ClientEvent::Busy,
        ClientEvent::OpenFailed,
        ClientEvent::EndpointFree,
        ClientEvent::WaitExpired,
        ClientEvent::Written,
        ClientEvent::Closed,
    ];
    let mut seed: u32 = 12345;
    for _ in 0..500 {
        let mut state = START;
        let mut writes = 0;
        let mut opens = 0;
        for _ in 0..23 {
            seed = seed.wrapping_mul(1103515245).wrapping_add(12345);
            let event = events[((seed >> 16) % 7) as usize];
            let (next, action) = client_step(state, event, "m");
            if let ClientAction::Write(_) = action {
                writes += 1;
            }
            if action == ClientAction::Open {
                opens += 1;
            }
            state = next;
        }
        assert_eq!(state, ClientState::Done);
        assert!(writes <= 1);
        assert!(opens <= 10);
    }
    let mut state = START;
    for step in 0..23 {
        assert_ne!(state, ClientState::Done);
        let event = match state {
            ClientState::Opening { retries } if retries < 10 => ClientEvent::Busy,
            ClientState::Opening { .. } => ClientEvent::Opened,
            ClientState::Waiting { .. } => ClientEvent::EndpointFree,
            ClientState::Writing => ClientEvent::Written,
            _ => ClientEvent::Closed,
        };
        state = client_step(state, event, "m").0;
        assert!(step < 23);
    }
    assert_eq!(state, ClientState::Done);
}
