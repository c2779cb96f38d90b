use cyberdeck::dispatch::{DispatchInput, DispatchStep};
use cyberdeck::error::PeerError;
use cyberdeck::peer::{random_peer_id, PeerCore};
use cyberdeck::shutdown::{fire_outcome, ShutdownSignal};
use tokio::sync::mpsc;

#[test]
fn close_twice_fails_the_second_time() {
    let (tx, mut rx) = mpsc::unbounded_channel::<()>();
    let mut core = PeerCore::new(tx);
    let id = core.peer_id();
    assert!(!core.is_shut_down());
    assert_eq!(core.close(), Ok(()));
    assert!(core.is_shut_down());
    assert_eq!(core.close(), Err(PeerError::ShutdownFailed));
    assert!(core.is_shut_down());
    assert_eq!(core.release(), None);
    assert_eq!(core.peer_id(), id);
    assert_eq!(rx.try_recv(), Ok(()));
    assert!(rx.try_recv().is_err());
}

#[test]
fn drop_without_close_fires_the_signal() {
    let (tx, mut rx) = mpsc::unbounded_channel::<()>();
    let mut core = PeerCore::new(tx);
    let mut task = core.dispatcher();
    assert_eq!(core.release(), Some(Ok(())));
    assert!(core.is_shut_down());
    assert_eq!(rx.try_recv(), Ok(()));
    assert!(matches!(task.step(DispatchInput::Shutdown), DispatchStep::Stop));
    assert!(!task.is_running());
}

#[test]
fn close_after_task_is_gone_fails() {
    let (tx, rx) = mpsc::unbounded_channel::<()>();
    drop(rx);
    let mut signal = ShutdownSignal::new(tx);
    assert_eq!(signal.fire(), Err(PeerError::ShutdownFailed));
    assert!(signal.is_fired());
    assert_eq!(signal.release(), None);
}

#[test]
fn peer_parts_share_the_identifier() {
    let (tx, _rx) = mpsc::unbounded_channel::<()>();
    let core = PeerCore::new(tx);
    assert_eq!(core.bridge().peer_id, core.peer_id());
    assert_eq!(core.dispatcher().peer_id(), core.peer_id());
}

#[test]
fn peer_identifiers_are_drawn_at_random() {
    let a = random_peer_id();
    let b = random_peer_id();
    let c = random_peer_id();
    assert!(a != b || b != c);
}

#[test]
fn fire_outcome_follows_the_send() {
    assert_eq!(fire_outcome(Ok(())), Ok(()));
    assert_eq!(
        fire_outcome(Err(mpsc::error::SendError(()))),
        Err(PeerError::ShutdownFailed)
    );
}
