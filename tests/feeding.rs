use std::io::Read;

use chlorate::feed::{AudioFeeder, FeedAction, CHUNK_SIZE, PACING_DELAY_MS};

fn drive(mut source: &[u8], paced: bool) -> Vec<FeedAction> {
    let mut feeder = AudioFeeder::new(paced);
    let mut chunk = vec![0u8; CHUNK_SIZE];
    let mut actions = Vec::new();
    loop {
        let read = source.read(&mut chunk).ok();
        let a = feeder.on_read(read);
        actions.push(a);
        if a == FeedAction::Finish {
            break;
        }
    }
    actions
}

#[test]
fn empty_source_pushes_nothing() {
    assert_eq!(drive(&[], false), vec![FeedAction::Finish]);
}

#[test]
fn whole_chunks_are_pushed_in_full() {
    let data = vec![7u8; 3 * CHUNK_SIZE];
    let actions = drive(&data, false);
    assert_eq!(actions.len(), 4);
    for a in &actions[..3] {
        assert_eq!(*a, FeedAction::Push { len: CHUNK_SIZE, delay_ms: 0 });
    }
    assert_eq!(actions[3], FeedAction::Finish);
}

#[test]
fn last_chunk_may_be_short() {
    let data = vec![1u8; CHUNK_SIZE + 5];
    let actions = drive(&data, false);
    assert_eq!(
        actions,
        vec![
            FeedAction::Push { len: CHUNK_SIZE, delay_ms: 0 },
            FeedAction::Push { len: 5, delay_ms: 0 },
            FeedAction::Finish
        ]
    );
}

#[test]
fn paced_feeding_pauses_twenty_ms() {
    let data = vec![1u8; 10];
    let actions = drive(&data, true);
    assert_eq!(actions[0], FeedAction::Push { len: 10, delay_ms: 20 });
    assert_eq!(PACING_DELAY_MS, 20);
    assert_eq!(CHUNK_SIZE, 2048);
}

#[test]
fn read_error_ends_the_feed() {
    let mut f = AudioFeeder::new(false);
    assert_eq!(f.on_read(Some(4)), FeedAction::Push { len: 4, delay_ms: 0 });
    assert!(!f.finished());
    assert_eq!(f.on_read(None), FeedAction::Finish);
    assert!(f.finished());
}

#[test]
fn nothing_is_pushed_after_the_end() {
    let mut f = AudioFeeder::new(true);
    assert_eq!(f.on_read(Some(0)), FeedAction::Finish);
    assert_eq!(f.on_read(Some(100)), FeedAction::Finish);
}
