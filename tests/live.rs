use procman::live::LiveFeed;
use procman::process::{Process, ProcessConfig};
use tokio::sync::broadcast::error::TryRecvError;

#[test]
fn chunk_without_subscribers_is_not_replayed() {
    let feed = LiveFeed::new();
    assert_eq!(feed.subscribers(), 0);
    assert_eq!(feed.publish(b"lost"), 0);
    let mut rx = feed.subscribe();
    assert!(matches!(rx.try_recv(), Err(TryRecvError::Empty)));
}

#[test]
fn chunk_reaches_every_subscriber() {
    let feed = LiveFeed::new();
    let mut rx1 = feed.subscribe();
    let mut rx2 = feed.subscribe();
    assert_eq!(feed.subscribers(), 2);
    assert_eq!(feed.publish(b"hi"), 2);
    assert_eq!(rx1.try_recv().unwrap(), b"hi".to_vec());
    assert_eq!(rx2.try_recv().unwrap(), b"hi".to_vec());
}

#[test]
fn record_output_logs_and_publishes() {
    let feed = LiveFeed::new();
    let mut p = Process::new(
        1,
        ProcessConfig {
            name: "n".to_string(),
            dir: "/".to_string(),
            command: "c".to_string(),
            user: "u".to_string(),
            autostart: false,
        },
        0,
    );
    assert!(!feed.record_output(&mut p, b"one "));
    let mut rx = feed.subscribe();
    assert!(feed.record_output(&mut p, b"two"));
    assert_eq!(rx.try_recv().unwrap(), b"two".to_vec());
    assert!(matches!(rx.try_recv(), Err(TryRecvError::Empty)));
    assert_eq!(p.log_snapshot(), b"one two".to_vec());
}
