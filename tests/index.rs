use tfrecord::error::Error;
use tfrecord::index::{IndexBuild, RecordLocator};
use tfrecord::scan::FrameSpan;

fn span(offset: u64, len: u64) -> FrameSpan {
    FrameSpan { offset, len }
}

#[test]
fn index_keeps_path_order_when_later_path_finishes_first() {
    let mut build = IndexBuild::new(2, 2);
    assert_eq!(build.next_start(), Some(0));
    assert_eq!(build.next_start(), Some(1));
    assert_eq!(build.next_start(), None);
    assert_eq!(build.on_finished(1, Ok(vec![span(12, 2)])), Ok(()));
    assert!(!build.is_complete());
    assert_eq!(build.on_finished(0, Ok(vec![span(12, 3), span(31, 4)])), Ok(()));
    assert!(build.is_complete());
    assert_eq!(
        build.finish(),
        vec![
            RecordLocator { path: 0, offset: 12, len: 3 },
            RecordLocator { path: 0, offset: 31, len: 4 },
            RecordLocator { path: 1, offset: 12, len: 2 },
        ]
    );
}

#[test]
fn workers_are_bounded() {
    let mut build = IndexBuild::new(3, 1);
    assert_eq!(build.next_start(), Some(0));
    assert_eq!(build.next_start(), None);
    assert_eq!(build.on_finished(0, Ok(vec![])), Ok(()));
    assert_eq!(build.next_start(), Some(1));
    assert_eq!(build.next_start(), None);
    assert_eq!(build.on_finished(1, Ok(vec![span(12, 1)])), Ok(()));
    assert_eq!(build.next_start(), Some(2));
    assert_eq!(build.on_finished(2, Ok(vec![])), Ok(()));
    assert_eq!(build.next_start(), None);
    assert!(build.is_complete());
    assert_eq!(build.finish(), vec![RecordLocator { path: 1, offset: 12, len: 1 }]);
}

#[test]
fn first_failure_ends_build() {
    let mut build = IndexBuild::new(2, 2);
    build.next_start();
    build.next_start();
    let err = Error::Corruption("bad frame".to_string());
    assert_eq!(build.on_finished(1, Err(err.clone())), Err(err));
    assert!(!build.is_complete());
}

#[test]
fn build_over_no_paths() {
    let mut build = IndexBuild::new(0, 4);
    assert_eq!(build.next_start(), None);
    assert!(build.is_complete());
    assert_eq!(build.finish(), vec![]);
}
