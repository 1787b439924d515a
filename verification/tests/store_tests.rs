use mqstore::state::SharedState;
use mqstore::store::{
    drain_step, finish_writable_close, DrainStep, Options, QueueStore, QueueStoreInner,
    StoreError, DEFAULT_CAPACITY_BYTES, DEFAULT_CLOSE_TIMEOUT_MS,
};

fn runtime() -> tokio::runtime::Runtime {
    tokio::runtime::Builder::new_current_thread()
        .enable_all()
        .build()
        .unwrap()
}

fn backing_file() -> tokio::fs::File {
    // the store only keeps the descriptor open; no bytes go through it here
    runtime().block_on(async { tokio::fs::File::open("/dev/null").await.unwrap() })
}

fn writable_store(capacity: usize, options: Options) -> QueueStore {
    let mmap = memmap2::MmapMut::map_anon(capacity).unwrap();
    QueueStore::Writable(QueueStoreInner::new(backing_file(), options, mmap))
}

fn readonly_store(capacity: usize, options: Options) -> QueueStore {
    let mmap = memmap2::MmapMut::map_anon(capacity)
        .unwrap()
        .make_read_only()
        .unwrap();
    QueueStore::Readonly(QueueStoreInner::new(backing_file(), options, mmap))
}

#[test]
fn options_defaults() {
    let o = Options::new_for_path("queue.seg".to_owned());
    assert_eq!(o.file_path, "queue.seg");
    assert!(!o.new);
    assert_eq!(o.capacity_bytes, DEFAULT_CAPACITY_BYTES);
    assert_eq!(o.capacity_bytes, 1024 * 1024 * 1024);
    assert_eq!(o.close_timeout_ms, DEFAULT_CLOSE_TIMEOUT_MS);
    assert_eq!(o.close_timeout_ms, 5000);

    let d = Options::default();
    assert_eq!(d.file_path, "");
    assert!(!d.new);
    assert_eq!(d.capacity_bytes, DEFAULT_CAPACITY_BYTES);
    assert_eq!(d.close_timeout_ms, DEFAULT_CLOSE_TIMEOUT_MS);
}

#[test]
fn options_builders() {
    let o = Options::new_for_path("a.seg".to_owned())
        .with_new(true)
        .with_capacity_bytes(4096)
        .with_close_timeout_ms(50);
    assert!(o.new);
    assert_eq!(o.capacity_bytes, 4096);
    assert_eq!(o.close_timeout_ms, 50);
    assert_eq!(o.file_path, "a.seg");
}

#[test]
fn open_plan_for_create() {
    let o = Options::new_for_path("a.seg".to_owned())
        .with_new(true)
        .with_capacity_bytes(4096);
    let p = o.plan_open();
    assert!(p.create_and_truncate);
    assert!(p.writable);
    assert_eq!(p.set_len_to, Some(4096));
}

#[test]
fn open_plan_for_existing() {
    let o = Options::new_for_path("a.seg".to_owned());
    let p = o.plan_open();
    assert!(!p.create_and_truncate);
    assert!(!p.writable);
    assert_eq!(p.set_len_to, None);
}

#[test]
fn live_count_tracks_creations_and_destructions() {
    let mut s = SharedState::new();
    assert_eq!(s.live_references(), 0);
    s.handle_created();
    s.handle_created();
    s.handle_created();
    assert_eq!(s.live_references(), 3);
    assert!(!s.handle_released());
    assert_eq!(s.live_references(), 2);
    assert!(!s.handle_released());
    assert!(s.handle_released());
    assert_eq!(s.live_references(), 0);
}

#[test]
fn closing_flag_is_monotonic() {
    let mut s = SharedState::new();
    assert!(!s.closing());
    s.handle_created();
    assert!(!s.closing());
    s.mark_closing();
    assert!(s.closing());
    s.handle_created();
    assert!(s.closing());
    s.handle_released();
    assert!(s.closing());
    s.handle_released();
    assert!(s.closing());
    s.mark_closing();
    assert!(s.closing());
}

#[test]
fn observations_are_idempotent() {
    let store = writable_store(64,
        Options::new_for_path("observe.seg".to_owned()).with_new(true),
    );
    assert_eq!(store.is_closing(), store.is_closing());
    assert_eq!(store.close_timeout(), store.close_timeout());
    assert_eq!(store.close_timeout(), 5000);
    assert!(!store.is_closing());
    assert!(store.close().is_ok());
}

#[test]
fn drain_step_boundaries() {
    assert_eq!(drain_step(0, 0, 50), DrainStep::Drained);
    assert_eq!(drain_step(0, 1000, 50), DrainStep::Drained);
    assert_eq!(drain_step(1, 0, 50), DrainStep::Wait);
    assert_eq!(drain_step(1, 49, 50), DrainStep::Wait);
    assert_eq!(drain_step(1, 50, 50), DrainStep::TimedOut);
    assert_eq!(drain_step(1, 51, 50), DrainStep::TimedOut);
    assert_eq!(drain_step(2, 0, 0), DrainStep::TimedOut);
}

#[test]
fn close_succeeds_with_no_outstanding_handles() {
    let store = writable_store(4096,
        Options::new_for_path("close_ok.seg".to_owned()).with_new(true),
    );
    assert!(store.close().is_ok());
}

#[test]
fn close_times_out_with_outstanding_handle() {
    let mut store = writable_store(4096,
        Options::new_for_path("close_timeout.seg".to_owned()).with_new(true),
    );
    let h1 = store.create_handle();
    let h2 = store.create_handle();
    let h3 = store.create_handle();
    assert_eq!(store.live_references(), 3);
    assert!(store.release_handle(h1) == false);
    assert!(store.release_handle(h2) == false);
    assert_eq!(store.live_references(), 1);
    // one handle is still outstanding: the close must report the timeout
    // error carrying the 50 ms budget
    let _keep = h3;
    let r = store.close_with_timeout(50);
    assert!(matches!(r, Err(StoreError::CloseTimeout { timeout_ms: 50 })));
}

#[test]
fn close_succeeds_once_last_handle_released() {
    let mut store = writable_store(4096,
        Options::new_for_path("close_drained.seg".to_owned()).with_new(true),
    );
    let h1 = store.create_handle();
    let h2 = store.create_handle();
    let h3 = store.create_handle();
    assert!(!store.release_handle(h1));
    assert!(!store.release_handle(h2));
    assert!(store.release_handle(h3));
    assert!(store.close_with_timeout(50).is_ok());
}

#[test]
fn close_uses_configured_timeout() {
    let mut store = writable_store(64,
        Options::new_for_path("close_cfg.seg".to_owned())
            .with_new(true)
            .with_close_timeout_ms(750),
    );
    let _h = store.create_handle();
    let r = store.close();
    assert!(matches!(r, Err(StoreError::CloseTimeout { timeout_ms: 750 })));
}

#[test]
fn readonly_close_drains_and_succeeds() {
    let mut store = readonly_store(64, Options::new_for_path("ro_close.seg".to_owned()));
    assert!(!store.is_writable());
    let h = store.create_handle();
    assert!(!h.is_writable_mode());
    assert!(store.release_handle(h));
    assert!(store.close_with_timeout(50).is_ok());
}

#[test]
fn readonly_close_times_out_with_live_handle() {
    let mut store = readonly_store(64, Options::new_for_path("ro_timeout.seg".to_owned()));
    let _h = store.create_handle();
    let r = store.close_with_timeout(25);
    assert!(matches!(r, Err(StoreError::CloseTimeout { timeout_ms: 25 })));
}

#[test]
fn handle_carries_capability_mode() {
    let mut w = writable_store(64,
        Options::new_for_path("mode_w.seg".to_owned()).with_new(true),
    );
    assert!(w.is_writable());
    let h = w.create_handle();
    assert!(h.is_writable_mode());
    assert!(w.release_handle(h));
    assert!(w.close().is_ok());
}

#[test]
fn handle_observes_closing_and_is_counted_during_close() {
    let mmap = memmap2::MmapMut::map_anon(64).unwrap();
    let options = Options::new_for_path("late.seg".to_owned()).with_new(true);
    let mut inner = QueueStoreInner::new(backing_file(), options, mmap);
    inner.mark_closing();
    let mut store = QueueStore::Writable(inner);

    // a handle created after the close was initiated still observes the
    // closing flag and is still counted by the drain
    let h = store.create_handle();
    assert!(h.is_closing(&store));
    assert!(store.is_closing());
    let r = store.close_with_timeout(10);
    assert!(matches!(r, Err(StoreError::CloseTimeout { timeout_ms: 10 })));
}

#[test]
fn flush_outcome_decides_close_outcome() {
    assert!(finish_writable_close(Ok(())).is_ok());
    let failed = finish_writable_close(Err(std::io::Error::new(
        std::io::ErrorKind::PermissionDenied,
        "denied",
    )));
    assert!(matches!(failed, Err(StoreError::Io { .. })));
}

#[test]
fn store_error_messages() {
    let timeout = StoreError::CloseTimeout { timeout_ms: 50 };
    assert_eq!(timeout.message(), "Close operation timed out");
    let io = StoreError::Io {
        source: std::io::Error::new(std::io::ErrorKind::PermissionDenied, "denied"),
    };
    assert!(!io.message().is_empty());
}
