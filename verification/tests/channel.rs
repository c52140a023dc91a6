use bytes::Bytes;
use std::sync::atomic::Ordering;
use stream_relay::channel::BROADCAST_CAPACITY;
use stream_relay::relay::has_audience;
use stream_relay::relay::relay_frame;
use stream_relay::relay::relay_through;
use stream_relay::session::id_of_draws;
use stream_relay::session::generate_stream_id;
use stream_relay::session::StreamSession;
use stream_relay::session::GENERATED_ID_LEN;
use tokio::sync::broadcast::error::TryRecvError;

fn frame(n: u32) -> Bytes {
    Bytes::from(n.to_be_bytes().to_vec())
}

#[test]
fn capacity_is_thirty_two_frames() {
    assert_eq!(BROADCAST_CAPACITY, 32);
}

#[test]
fn has_audience_needs_one_receiver() {
    assert!(!has_audience(0));
    assert!(has_audience(1));
    assert!(has_audience(2));
    assert!(has_audience(usize::MAX));
}

#[test]
fn generated_ids_are_eight_letters_or_digits() {
    assert_eq!(GENERATED_ID_LEN, 8);
    for _ in 0..200 {
        let id = generate_stream_id();
        assert_eq!(id.chars().count(), 8);
        assert_eq!(id.len(), 8);
        assert!(id.chars().all(|c| c.is_ascii_alphanumeric()), "{:?}", id);
    }
}

#[test]
fn generated_ids_vary() {
    let first = generate_stream_id();
    let mut differs = false;
    for _ in 0..20 {
        if generate_stream_id() != first {
            differs = true;
        }
    }
    assert!(differs);
}

#[test]
fn new_session_has_no_viewer_and_no_receiver() {
    let session = StreamSession::new();
    assert_eq!(session.viewer_count.load(Ordering::Relaxed), 0);
    assert_eq!(session.tx.receiver_count(), 0);
}

#[test]
fn frame_without_viewers_is_discarded() {
    let session = StreamSession::new();
    relay_frame(&session.tx, frame(1));
    relay_frame(&session.tx, frame(2));
    assert_eq!(session.tx.len(), 0);
    let mut late = session.tx.subscribe();
    assert_eq!(late.try_recv(), Err(TryRecvError::Empty));
}

#[test]
fn frame_reaches_every_viewer() {
    let session = StreamSession::new();
    let mut first = session.admit_viewer(10).unwrap();
    let mut second = session.admit_viewer(10).unwrap();
    relay_frame(&session.tx, Bytes::from(vec![1u8, 2, 3]));
    assert_eq!(first.rx.try_recv().unwrap().to_vec(), vec![1u8, 2, 3]);
    assert_eq!(second.rx.try_recv().unwrap().to_vec(), vec![1u8, 2, 3]);
    assert_eq!(first.rx.try_recv(), Err(TryRecvError::Empty));
    assert_eq!(second.rx.try_recv(), Err(TryRecvError::Empty));
}

#[test]
fn frames_pass_unchanged_and_in_order() {
    let session = StreamSession::new();
    let mut viewer = session.admit_viewer(1).unwrap();
    relay_frame(&session.tx, Bytes::from(Vec::<u8>::new()));
    relay_frame(&session.tx, Bytes::from(vec![0u8, 255, 0, 7]));
    relay_frame(&session.tx, Bytes::from(vec![b'{'; 1000]));
    assert_eq!(viewer.rx.try_recv().unwrap().to_vec(), Vec::<u8>::new());
    assert_eq!(viewer.rx.try_recv().unwrap().to_vec(), vec![0u8, 255, 0, 7]);
    assert_eq!(viewer.rx.try_recv().unwrap().to_vec(), vec![b'{'; 1000]);
    assert_eq!(viewer.rx.try_recv(), Err(TryRecvError::Empty));
}

#[test]
fn no_backfill_for_a_late_viewer() {
    let session = StreamSession::new();
    let mut early = session.admit_viewer(10).unwrap();
    relay_frame(&session.tx, frame(1));
    relay_frame(&session.tx, frame(2));
    let mut late = session.admit_viewer(10).unwrap();
    relay_frame(&session.tx, frame(3));
    assert_eq!(late.rx.try_recv(), Ok(frame(3)));
    assert_eq!(late.rx.try_recv(), Err(TryRecvError::Empty));
    assert_eq!(early.rx.try_recv(), Ok(frame(1)));
    assert_eq!(early.rx.try_recv(), Ok(frame(2)));
    assert_eq!(early.rx.try_recv(), Ok(frame(3)));
}

#[test]
fn publisher_handle_feeds_the_same_channel() {
    let session = StreamSession::new();
    let publisher = session.publisher_handle();
    let mut viewer = session.admit_viewer(10).unwrap();
    assert!(publisher.upgrade().unwrap().same_channel(&session.tx));
    relay_through(&publisher, frame(9));
    assert_eq!(viewer.rx.try_recv(), Ok(frame(9)));
}

#[test]
fn publisher_handle_does_not_keep_the_channel_open() {
    let session = StreamSession::new();
    let publisher = session.publisher_handle();
    let mut viewer = session.admit_viewer(10).unwrap();
    relay_through(&publisher, frame(1));
    drop(session);
    assert!(publisher.upgrade().is_none());
    relay_through(&publisher, frame(2));
    assert_eq!(viewer.rx.try_recv(), Ok(frame(1)));
    assert_eq!(viewer.rx.try_recv(), Err(TryRecvError::Closed));
}

#[test]
fn frame_through_a_handle_without_viewers_is_discarded() {
    let session = StreamSession::new();
    let publisher = session.publisher_handle();
    relay_through(&publisher, frame(1));
    assert_eq!(session.tx.len(), 0);
    let mut late = session.admit_viewer(10).unwrap();
    assert_eq!(late.rx.try_recv(), Err(TryRecvError::Empty));
}

#[test]
fn id_spells_its_draws_in_order() {
    assert_eq!(id_of_draws(&vec!['a', 'B', '3', 'd', 'E', '6', 'g', 'H']), "aB3dE6gH");
    assert_eq!(id_of_draws(&vec!['H', 'g', '6', 'E', 'd', '3', 'B', 'a']), "Hg6Ed3Ba");
    assert_eq!(id_of_draws(&vec!['x']), "x");
    assert_eq!(id_of_draws(&Vec::new()), "");
    assert_eq!(id_of_draws(&vec!['0'; 9]), "000000000");
    let draws = vec!['Z', 'z', '9', '0', 'A', 'a', 'M', 'm'];
    assert_eq!(id_of_draws(&draws), id_of_draws(&draws));
}

#[test]
fn viewer_exactly_at_capacity_does_not_lag() {
    let session = StreamSession::new();
    let mut viewer = session.admit_viewer(10).unwrap();
    for n in 0..32 {
        relay_frame(&session.tx, frame(n));
    }
    for n in 0..32 {
        assert_eq!(viewer.rx.try_recv(), Ok(frame(n)));
    }
    assert_eq!(viewer.rx.try_recv(), Err(TryRecvError::Empty));
}

#[test]
fn stalled_viewer_is_told_how_many_frames_it_missed() {
    let session = StreamSession::new();
    let mut slow = session.admit_viewer(10).unwrap();
    for n in 0..37 {
        relay_frame(&session.tx, frame(n));
    }
    assert_eq!(slow.rx.try_recv(), Err(TryRecvError::Lagged(5)));
    for n in 5..37 {
        assert_eq!(slow.rx.try_recv(), Ok(frame(n)));
    }
    assert_eq!(slow.rx.try_recv(), Err(TryRecvError::Empty));
    relay_frame(&session.tx, frame(37));
    assert_eq!(slow.rx.try_recv(), Ok(frame(37)));
}

#[test]
fn one_frame_over_capacity_is_one_frame_missed() {
    let session = StreamSession::new();
    let mut slow = session.admit_viewer(10).unwrap();
    for n in 0..33 {
        relay_frame(&session.tx, frame(n));
    }
    assert_eq!(slow.rx.try_recv(), Err(TryRecvError::Lagged(1)));
    assert_eq!(slow.rx.try_recv(), Ok(frame(1)));
}

#[test]
fn slow_viewer_does_not_hold_back_the_others() {
    let session = StreamSession::new();
    let mut slow = session.admit_viewer(10).unwrap();
    let mut quick = session.admit_viewer(10).unwrap();
    for n in 0..100 {
        relay_frame(&session.tx, frame(n));
        assert_eq!(quick.rx.try_recv(), Ok(frame(n)));
    }
    assert_eq!(slow.rx.try_recv(), Err(TryRecvError::Lagged(68)));
    assert_eq!(slow.rx.try_recv(), Ok(frame(68)));
}

#[test]
fn viewers_see_the_end_once_the_session_is_gone() {
    let session = StreamSession::new();
    let publisher = session.publisher_handle();
    let mut viewer = session.admit_viewer(10).unwrap();
    relay_through(&publisher, frame(1));
    assert_eq!(viewer.rx.try_recv(), Ok(frame(1)));
    assert_eq!(viewer.rx.try_recv(), Err(TryRecvError::Empty));
    drop(session);
    assert_eq!(viewer.rx.try_recv(), Err(TryRecvError::Closed));
    assert_eq!(viewer.rx.try_recv(), Err(TryRecvError::Closed));
}

#[test]
fn buffered_frames_are_drained_before_the_end() {
    let session = StreamSession::new();
    let mut viewer = session.admit_viewer(10).unwrap();
    relay_frame(&session.tx, frame(1));
    relay_frame(&session.tx, frame(2));
    drop(session);
    assert_eq!(viewer.rx.try_recv(), Ok(frame(1)));
    assert_eq!(viewer.rx.try_recv(), Ok(frame(2)));
    assert_eq!(viewer.rx.try_recv(), Err(TryRecvError::Closed));
}
