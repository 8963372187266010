use tfrecord::dataset::{Dataset, DatasetInit};
use tfrecord::index::{IndexBuild, RecordLocator};
use tfrecord::scan::FrameSpan;

fn two_path_dataset(init: &DatasetInit) -> Dataset {
    let mut build = init.indexer(2);
    while build.next_start().is_some() {}
    let mut pending = vec![1usize, 0];
    while let Some(p) = pending.pop() {
        let spans = if p == 0 {
            vec![FrameSpan { offset: 12, len: 3 }, FrameSpan { offset: 31, len: 4 }]
        } else {
            vec![FrameSpan { offset: 12, len: 2 }]
        };
        build.on_finished(p, Ok(spans)).unwrap();
        while build.next_start().is_some() {}
    }
    assert!(build.is_complete());
    Dataset::new(
        vec!["a.tfrecord".to_string(), "b.tfrecord".to_string()],
        build,
        init.open_file_limiter(),
    )
}

fn init() -> DatasetInit {
    DatasetInit { check_integrity: true, max_open_files: Some(1), max_workers: Some(2) }
}

#[test]
fn default_init() {
    let init = DatasetInit::default();
    assert!(init.check_integrity);
    assert_eq!(init.max_open_files, None);
    assert_eq!(init.max_workers, None);
    assert!(init.worker_limit() >= 1);
    assert!(init.open_file_limiter().is_none());
}

#[test]
fn given_worker_limit() {
    assert_eq!(init().worker_limit(), 2);
}

#[test]
fn limiter_has_the_given_permits() {
    assert_eq!(init().open_file_limiter().unwrap().available_permits(), 1);
    let five = DatasetInit { check_integrity: false, max_open_files: Some(5), max_workers: None };
    assert_eq!(five.open_file_limiter().unwrap().available_permits(), 5);
    let d = two_path_dataset(&init());
    assert_eq!(d.open_file_limiter().unwrap().available_permits(), 1);
    assert_eq!(d.clone().open_file_limiter().unwrap().available_permits(), 1);
}

#[test]
fn every_index_below_count_is_present() {
    let d = two_path_dataset(&init());
    assert_eq!(d.num_records(), 3);
    assert_eq!(d.locate(0), Some(RecordLocator { path: 0, offset: 12, len: 3 }));
    assert_eq!(d.locate(1), Some(RecordLocator { path: 0, offset: 31, len: 4 }));
    assert_eq!(d.locate(2), Some(RecordLocator { path: 1, offset: 12, len: 2 }));
}

#[test]
fn index_at_or_past_count_is_absent() {
    let d = two_path_dataset(&init());
    assert_eq!(d.locate(3), None);
    assert_eq!(d.locate(4), None);
    assert_eq!(d.locate(usize::MAX), None);
}

#[test]
fn stream_yields_every_record_in_order() {
    let d = two_path_dataset(&init());
    let mut s = d.stream();
    let mut seen = vec![];
    while let Some(loc) = s.next_locator() {
        seen.push(loc);
    }
    assert_eq!(seen.len(), d.num_records());
    for (i, loc) in seen.iter().enumerate() {
        assert_eq!(Some(*loc), d.locate(i));
    }
    assert_eq!(s.next_locator(), None);
}

#[test]
fn streams_are_independent() {
    let d = two_path_dataset(&init());
    let mut s1 = d.stream();
    s1.next_locator();
    let mut s2 = d.stream();
    assert_eq!(s2.next_locator(), d.locate(0));
    assert_eq!(s1.next_locator(), d.locate(1));
}

#[test]
fn cache_reuses_only_the_open_file() {
    let mut d = two_path_dataset(&init());
    assert_eq!(d.cached_path(), None);
    assert!(!d.reuse_or_release(0));
    d.file_opened(0);
    assert!(d.reuse_or_release(0));
    assert_eq!(d.cached_path(), Some(0));
    assert!(!d.reuse_or_release(1));
    assert_eq!(d.cached_path(), None);
    d.file_opened(1);
    assert_eq!(d.cached_path(), Some(1));
}

#[test]
fn clone_mid_stream_has_its_own_cache() {
    let mut d = two_path_dataset(&init());
    d.reuse_or_release(0);
    d.file_opened(0);
    let mut c = d.clone();
    assert_eq!(c.cached_path(), None);
    assert!(!c.reuse_or_release(1));
    c.file_opened(1);
    assert_eq!(d.cached_path(), Some(0));
    for i in 0..4 {
        assert_eq!(c.locate(i), d.locate(i));
    }
    assert_eq!(c.path(1), "b.tfrecord");
    assert_eq!(c.max_workers(), 2);
    assert!(c.open_file_limiter().is_some());
}

#[test]
fn paths_are_kept() {
    let d = two_path_dataset(&DatasetInit::default());
    assert_eq!(d.num_paths(), 2);
    assert_eq!(d.path(0), "a.tfrecord");
    assert!(d.open_file_limiter().is_none());
}
