use mqtt_asyncify::client::FuturePoll;
use mqtt_asyncify::mailbox::{
    AsyncConnection, AsyncPostbox, AsyncState, ConnectionState, Event, NextFuture, PostStep,
};

#[derive(Clone, Debug, PartialEq, Eq)]
struct Message {
    id: String,
}

#[derive(Clone, Copy, Debug, PartialEq, Eq)]
struct TestErr(u8);

type State = ConnectionState<u32, Message, TestErr>;
type Ev = Result<Event<Message>, TestErr>;

fn msg(id: &str) -> Ev {
    Ok(Event::Received(Message { id: id.to_owned() }))
}

#[test]
fn fresh_slot_is_empty() {
    let s: AsyncState<u32, Message, TestErr> = AsyncState::new();
    assert!(matches!(s, AsyncState::Empty));
    let d: AsyncState<u32, Message, TestErr> = Default::default();
    assert!(matches!(d, AsyncState::Empty));
}

#[test]
fn poll_first_then_post_then_poll_delivers() {
    // Consumer polls first: not ready, waker registered; the producer's
    // post surrenders that waker; the next poll returns the event.
    let mut m: State = ConnectionState::new();
    let postbox = AsyncPostbox::new();
    let next = AsyncConnection::new().next();

    assert_eq!(next.poll(&mut m, 7u32), FuturePoll::Pending);
    assert_eq!(postbox.post(&mut m, msg("m1")), PostStep::Stored(Some(7u32)));
    assert_eq!(next.poll(&mut m, 8u32), FuturePoll::Ready(Some(msg("m1"))));
}

#[test]
fn second_post_blocks_until_drained() {
    // Two posts back to back: the second is refused, with its event
    // handed back, until a poll drains the first.
    let mut m: State = ConnectionState::new();
    let postbox = AsyncPostbox::new();
    let next = NextFuture;

    assert_eq!(postbox.post(&mut m, msg("a")), PostStep::Stored(None));
    assert_eq!(postbox.post(&mut m, msg("b")), PostStep::SlotFull(msg("b")));
    assert_eq!(postbox.post(&mut m, msg("b")), PostStep::SlotFull(msg("b")));
    assert_eq!(next.poll(&mut m, 1u32), FuturePoll::Ready(Some(msg("a"))));
    assert_eq!(postbox.post(&mut m, msg("b")), PostStep::Stored(None));
}

#[test]
fn full_slot_is_never_overwritten() {
    // The event delivered after a refused post is still the first one.
    let mut m: State = ConnectionState::new();
    let postbox = AsyncPostbox::new();
    let next = NextFuture;

    assert_eq!(postbox.post(&mut m, msg("first")), PostStep::Stored(None));
    assert_eq!(postbox.post(&mut m, msg("second")), PostStep::SlotFull(msg("second")));
    assert_eq!(next.poll(&mut m, 1u32), FuturePoll::Ready(Some(msg("first"))));
}

#[test]
fn events_arrive_in_order_without_loss_or_duplication() {
    let mut m: State = ConnectionState::new();
    let postbox = AsyncPostbox::new();
    let next = NextFuture;
    let sent = vec![msg("e1"), Err(TestErr(9)), msg("e3")];

    let mut seen: Vec<Ev> = Vec::new();
    for ev in &sent {
        assert!(matches!(postbox.post(&mut m, ev.clone()), PostStep::Stored(_)));
        match next.poll(&mut m, 0u32) {
            FuturePoll::Ready(Some(got)) => seen.push(got),
            other => panic!("expected a delivered event, got {:?}", other),
        }
    }
    assert_eq!(seen, sent);
    // Nothing further is buffered.
    assert_eq!(next.poll(&mut m, 1u32), FuturePoll::Pending);
}

#[test]
fn post_wakes_registered_waker_and_only_then() {
    let mut m: State = ConnectionState::new();
    let postbox = AsyncPostbox::new();
    let next = NextFuture;

    // No waker registered: nothing to wake.
    assert_eq!(postbox.post(&mut m, msg("x")), PostStep::Stored(None));
    assert_eq!(next.poll(&mut m, 3u32), FuturePoll::Ready(Some(msg("x"))));

    // Waker 5 registered, then replaced by the most recent waker 6.
    assert_eq!(next.poll(&mut m, 5u32), FuturePoll::Pending);
    assert_eq!(next.poll(&mut m, 6u32), FuturePoll::Pending);
    assert_eq!(postbox.post(&mut m, msg("y")), PostStep::Stored(Some(6u32)));
    assert_eq!(next.poll(&mut m, 7u32), FuturePoll::Ready(Some(msg("y"))));
}

#[test]
fn close_makes_posts_noops_and_polls_end_of_stream() {
    let mut m: State = ConnectionState::new();
    let postbox = AsyncPostbox::new();
    let conn = AsyncConnection::new();
    let next = conn.next();

    conn.close(&mut m);
    assert_eq!(postbox.post(&mut m, msg("late")), PostStep::Closed);
    assert_eq!(postbox.post(&mut m, msg("later")), PostStep::Closed);
    assert_eq!(next.poll(&mut m, 1u32), FuturePoll::Ready(None));
    assert_eq!(next.poll(&mut m, 2u32), FuturePoll::Ready(None));
    assert_eq!(next.poll(&mut m, 3u32), FuturePoll::Ready(None));
}

#[test]
fn close_releases_blocked_producer_without_storing() {
    // A producer stalled on a full slot sees the close on its retry:
    // the post returns without storing its event, and the event that
    // sat in the slot at close time is gone as well.
    let mut m: State = ConnectionState::new();
    let postbox = AsyncPostbox::new();
    let conn = AsyncConnection::new();
    let next = conn.next();

    assert_eq!(postbox.post(&mut m, msg("stuck")), PostStep::Stored(None));
    assert_eq!(postbox.post(&mut m, msg("blocked")), PostStep::SlotFull(msg("blocked")));
    conn.close(&mut m);
    assert_eq!(postbox.post(&mut m, msg("blocked")), PostStep::Closed);
    assert_eq!(next.poll(&mut m, 1u32), FuturePoll::Ready(None));
}

#[test]
fn waiting_consumer_sees_close_as_end_of_stream() {
    let mut m: State = ConnectionState::new();
    let conn = AsyncConnection::new();
    let next = conn.next();

    assert_eq!(next.poll(&mut m, 4u32), FuturePoll::Pending);
    conn.close(&mut m);
    assert_eq!(next.poll(&mut m, 5u32), FuturePoll::Ready(None));
}
