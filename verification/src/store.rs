//! The memory-mapped queue store: a segment of file-backed bytes, mapped
//! writable or read-only for its whole life, with reference-counted
//! accessor handles and a timeout-bounded close protocol.
//!
//! The close protocol runs `Open -> Closing -> Drained -> Released`:
//! closing marks the shared flag, draining waits for the live handles to
//! reach zero within the timeout, and a writable segment then flushes its
//! mapping before the segment value is consumed.  A close that does not
//! drain in time reports a timeout error carrying the budget that was
//! exceeded; the segment value is consumed either way.

use vstd::prelude::*;

use crate::mapping::{
    mm_flush, mm_len, mm_read, mm_write, mmap_bytes, mmap_mut_bytes, ro_len, ro_slice,
    write_bytes,
};
use crate::state::SharedState;

verus! {

/// Default capacity of a newly created segment: one gibibyte.
pub const DEFAULT_CAPACITY_BYTES: u64 = 1073741824;

/// Default close timeout: five seconds, in milliseconds.
pub const DEFAULT_CLOSE_TIMEOUT_MS: u64 = 5000;

/// Errors of the queue store.
#[derive(Debug)]
pub enum StoreError {
    /// An underlying file or mapping system call failed.
    Io { source: std::io::Error },
    /// The close wait did not drain the live handles within its budget; the
    /// exceeded budget is carried along.
    CloseTimeout { timeout_ms: u64 },
}

/// Holds when `r` is the close-timeout error carrying budget `t`.
pub open spec fn close_timed_out(r: Result<(), StoreError>, t: u64) -> bool {
    match r {
        Result::Err(StoreError::CloseTimeout { timeout_ms }) => timeout_ms == t,
        _ => false,
    }
}

/// Holds when `r` reports an I/O failure.
pub open spec fn close_io_failed(r: Result<(), StoreError>) -> bool {
    r matches Result::Err(StoreError::Io { .. })
}

impl StoreError {
    /// A short description of the error, for diagnostics.
    pub fn message(&self) -> (r: String)
        ensures
            self matches StoreError::CloseTimeout { .. } ==> r@ == "Close operation timed out"@,
    {
        match self {
            StoreError::Io { source } => crate::mapping::io_error_text(source),
            StoreError::CloseTimeout { .. } => "Close operation timed out".to_owned(),
        }
    }
}

/// Configuration for opening a segment.
#[derive(Debug, Clone)]
pub struct Options {
    /// Path of the backing file.
    pub file_path: String,
    /// Create (or truncate) the file and map it writable; otherwise map the
    /// existing file read-only.
    pub new: bool,
    /// Capacity in bytes the created file is extended to; only meaningful
    /// when creating.
    pub capacity_bytes: u64,
    /// Budget for the close drain wait, in milliseconds.
    pub close_timeout_ms: u64,
}

impl Options {
    /// Options for the given path, with the default capacity (one gibibyte),
    /// the default close timeout (five seconds) and `new` unset.
    pub fn new_for_path(file_path: String) -> (r: Options)
        ensures
            r.file_path == file_path,
            !r.new,
            r.capacity_bytes == DEFAULT_CAPACITY_BYTES,
            r.close_timeout_ms == DEFAULT_CLOSE_TIMEOUT_MS,
    {
        Options {
            file_path,
            new: false,
            capacity_bytes: DEFAULT_CAPACITY_BYTES,
            close_timeout_ms: DEFAULT_CLOSE_TIMEOUT_MS,
        }
    }

    /// Set whether a fresh file is created and mapped writable.
    pub fn with_new(self, new: bool) -> (r: Options)
        ensures
            r == (Options { new, ..self }),
    {
        Options { new, ..self }
    }

    /// Set the capacity the created file is extended to.
    pub fn with_capacity_bytes(self, capacity_bytes: u64) -> (r: Options)
        ensures
            r == (Options { capacity_bytes, ..self }),
    {
        Options { capacity_bytes, ..self }
    }

    /// Set the close drain budget.
    pub fn with_close_timeout_ms(self, close_timeout_ms: u64) -> (r: Options)
        ensures
            r == (Options { close_timeout_ms, ..self }),
    {
        Options { close_timeout_ms, ..self }
    }

    /// The open decisions these options call for.  Opening performs file
    /// and mapping system calls that live outside this library; this states
    /// which calls an opener must make.
    pub fn plan_open(&self) -> (p: OpenPlan)
        ensures
            p.create_and_truncate == self.new,
            p.writable == self.new,
            p.set_len_to is Some <==> self.new,
            p.set_len_to matches Some(n) ==> n == self.capacity_bytes,
    {
        if self.new {
            OpenPlan {
                create_and_truncate: true,
                writable: true,
                set_len_to: Some(self.capacity_bytes),
            }
        } else {
            OpenPlan { create_and_truncate: false, writable: false, set_len_to: None }
        }
    }
}

impl Default for Options {
    /// Default options: empty path, `new` unset, one-gibibyte capacity,
    /// five-second close timeout.
    fn default() -> (r: Options)
        ensures
            r.file_path@ == Seq::<char>::empty(),
            !r.new,
            r.capacity_bytes == DEFAULT_CAPACITY_BYTES,
            r.close_timeout_ms == DEFAULT_CLOSE_TIMEOUT_MS,
    {
        Options {
            file_path: String::new(),
            new: false,
            capacity_bytes: DEFAULT_CAPACITY_BYTES,
            close_timeout_ms: DEFAULT_CLOSE_TIMEOUT_MS,
        }
    }
}

/// The file and mapping actions an opener must perform for given options:
/// whether to create-and-truncate the file, what length to extend it to
/// before mapping, and whether the mapping is writable.
#[derive(Debug, Clone, Copy)]
pub struct OpenPlan {
    /// Open with create and truncate set.
    pub create_and_truncate: bool,
    /// Extend the file to exactly this many bytes before mapping.
    pub set_len_to: Option<u64>,
    /// Map mutable over the full extended region; otherwise map the current
    /// file contents immutable.
    pub writable: bool,
}

/// What the close drain wait does next, given the live-handle count and the
/// time already spent waiting.
#[derive(Debug, Clone, Copy, PartialEq, Eq, Structural)]
pub enum DrainStep {
    /// No handle is live: the close may proceed.
    Drained,
    /// Handles are still live and the budget is spent: fail with a timeout.
    TimedOut,
    /// Handles are still live and budget remains: keep waiting for a
    /// release notification.
    Wait,
}

/// One decision of the close drain wait.  The wait is over exactly when no
/// handle is live; it fails no earlier than the budget, and only while
/// handles remain live.
pub fn drain_step(live_references: usize, elapsed_ms: u64, timeout_ms: u64) -> (r: DrainStep)
    ensures
        r == DrainStep::Drained <==> live_references == 0,
        r == DrainStep::TimedOut <==> live_references > 0 && elapsed_ms >= timeout_ms,
        r == DrainStep::Wait <==> live_references > 0 && elapsed_ms < timeout_ms,
{
    if live_references == 0 {
        DrainStep::Drained
    } else if elapsed_ms >= timeout_ms {
        DrainStep::TimedOut
    } else {
        DrainStep::Wait
    }
}

/// A generic queue store over one memory mapping: the open backing file,
/// the mapping, the options it was opened with, and the coordination state
/// shared with its handles.
pub struct QueueStoreInner<M> {
    /// Kept open so the descriptor cannot be closed while the mapping
    /// lives.
    pub _file: tokio::fs::File,
    /// The mapped byte region.
    pub mmap: M,
    /// The options the segment was opened with.
    pub options: Options,
    /// Live-handle counter and closing flag.
    pub shared_state: SharedState,
}

impl<M> QueueStoreInner<M> {
    /// Well-formedness of the coordination state.
    pub open spec fn wf(self) -> bool {
        self.shared_state.wf()
    }

    /// A fresh store over the given file and mapping: no live handles, not
    /// closing.
    pub fn new(file: tokio::fs::File, options: Options, mmap: M) -> (r: QueueStoreInner<M>)
        ensures
            r.wf(),
            r._file == file,
            r.mmap == mmap,
            r.options == options,
            r.shared_state.ref_count == 0,
            !r.shared_state.is_closing,
            r.shared_state.created@ == 0,
            r.shared_state.released@ == 0,
    {
        QueueStoreInner {
            _file: file,
            options,
            mmap,
            shared_state: SharedState::new(),
        }
    }

    /// Create a reference handle: counts one more live accessor.  Handles
    /// may still be created while a close is pending; such a handle is
    /// counted and the close must wait for it too.
    pub fn create_handle(&mut self) -> (h: QueueStoreHandleInner)
        requires
            old(self).wf(),
            old(self).shared_state.ref_count < usize::MAX,
        ensures
            final(self).wf(),
            final(self).shared_state == old(self).shared_state.with_handle_created(),
            final(self).mmap == old(self).mmap,
            final(self).options == old(self).options,
            final(self)._file == old(self)._file,
            old(self).shared_state.is_closing ==> final(self).shared_state.is_closing,
            h.serial@ == old(self).shared_state.created@,
    {
        let ghost serial: nat = self.shared_state.created@;
        self.shared_state.handle_created();
        QueueStoreHandleInner { serial: Ghost(serial) }
    }

    /// Release a handle: counts one accessor down, exactly once, because
    /// the handle is consumed.  Returns true when it was the last live
    /// handle — the moment a pending close may proceed.
    pub fn release_handle(&mut self, _handle: QueueStoreHandleInner) -> (was_last: bool)
        requires
            old(self).wf(),
            old(self).shared_state.ref_count > 0,
        ensures
            final(self).wf(),
            final(self).shared_state == old(self).shared_state.with_handle_released(),
            final(self).mmap == old(self).mmap,
            final(self).options == old(self).options,
            final(self)._file == old(self)._file,
            old(self).shared_state.is_closing ==> final(self).shared_state.is_closing,
            was_last <==> final(self).shared_state.ref_count == 0,
    {
        self.shared_state.handle_released()
    }

    /// Mark the store as closing.  The flag is one-way: nothing resets it.
    pub fn mark_closing(&mut self)
        requires
            old(self).wf(),
        ensures
            final(self).wf(),
            final(self).shared_state == old(self).shared_state.with_closing_marked(),
            final(self).mmap == old(self).mmap,
            final(self).options == old(self).options,
            final(self)._file == old(self)._file,
            final(self).shared_state.is_closing,
    {
        self.shared_state.mark_closing();
    }

    /// The configured close budget, in milliseconds.
    pub fn close_timeout(&self) -> (r: u64)
        ensures
            r == self.options.close_timeout_ms,
    {
        self.options.close_timeout_ms
    }

    /// Whether a close has been initiated.
    pub fn is_closing(&self) -> (r: bool)
        ensures
            r == self.shared_state.is_closing,
    {
        self.shared_state.closing()
    }

    /// The number of live handles.
    pub fn live_references(&self) -> (r: usize)
        ensures
            r == self.shared_state.ref_count,
    {
        self.shared_state.live_references()
    }
}

/// A writable queue store: its mapping is mutable.
pub type WritableQueueStore = QueueStoreInner<memmap2::MmapMut>;

/// A read-only queue store: its mapping is immutable.
pub type ReadonlyQueueStore = QueueStoreInner<memmap2::Mmap>;

impl QueueStoreInner<memmap2::MmapMut> {
    /// The length of the mapped region, in bytes.
    pub fn map_len(&self) -> (r: usize)
        ensures
            r == mmap_mut_bytes(self.mmap).len(),
    {
        mm_len(&self.mmap)
    }

    /// Write `data` into the mapped region at `offset`.  The caller is
    /// responsible for the bounds; every byte outside the written window
    /// keeps its value.
    pub fn write_at(&mut self, offset: usize, data: &[u8])
        requires
            offset + data@.len() <= mmap_mut_bytes(old(self).mmap).len(),
        ensures
            mmap_mut_bytes(final(self).mmap)
                == write_bytes(mmap_mut_bytes(old(self).mmap), offset as int, data@),
            final(self).options == old(self).options,
            final(self).shared_state == old(self).shared_state,
            final(self)._file == old(self)._file,
    {
        mm_write(&mut self.mmap, offset, data);
    }

    /// Read `len` bytes from the mapped region at `offset`.  The caller is
    /// responsible for the bounds.
    pub fn read_at(&self, offset: usize, len: usize) -> (r: Vec<u8>)
        requires
            offset + len <= mmap_mut_bytes(self.mmap).len(),
        ensures
            r@ == mmap_mut_bytes(self.mmap).subrange(
                offset as int,
                offset as int + len as int,
            ),
    {
        mm_read(&self.mmap, offset, len)
    }

    /// Write `data` at `offset` if the window fits in the mapped region;
    /// reports whether it did.  On a refused write the region is untouched.
    pub fn try_write_at(&mut self, offset: usize, data: &[u8]) -> (ok: bool)
        ensures
            ok <==> offset + data@.len() <= mmap_mut_bytes(old(self).mmap).len(),
            ok ==> mmap_mut_bytes(final(self).mmap)
                == write_bytes(mmap_mut_bytes(old(self).mmap), offset as int, data@),
            !ok ==> mmap_mut_bytes(final(self).mmap) == mmap_mut_bytes(old(self).mmap),
            final(self).options == old(self).options,
            final(self).shared_state == old(self).shared_state,
            final(self)._file == old(self)._file,
    {
        let n = mm_len(&self.mmap);
        if data.len() <= n && offset <= n - data.len() {
            mm_write(&mut self.mmap, offset, data);
            true
        } else {
            false
        }
    }

    /// Read `len` bytes at `offset` if the window fits in the mapped
    /// region; returns nothing otherwise.
    pub fn try_read_at(&self, offset: usize, len: usize) -> (r: Option<Vec<u8>>)
        ensures
            r is Some <==> offset + len <= mmap_mut_bytes(self.mmap).len(),
            r matches Some(v) ==> v@ == mmap_mut_bytes(self.mmap).subrange(
                offset as int,
                offset as int + len as int,
            ),
    {
        let n = mm_len(&self.mmap);
        if len <= n && offset <= n - len {
            Some(mm_read(&self.mmap, offset, len))
        } else {
            None
        }
    }

    /// Close the writable store: mark it closing, require the handles to be
    /// drained, then flush the mapping to the backing file.  With handles
    /// still live the close fails with the timeout error carrying the
    /// budget; with none it succeeds unless the flush system call fails.
    /// The store value is consumed either way.
    pub fn close_with_timeout(self, timeout_ms: u64) -> (r: Result<(), StoreError>)
        requires
            self.wf(),
        ensures
            close_timed_out(r, timeout_ms) <==> self.shared_state.ref_count > 0,
            self.shared_state.ref_count == 0 ==> r is Ok || close_io_failed(r),
    {
        let mut this = self;
        this.mark_closing();
        if this.live_references() > 0 {
            return Err(StoreError::CloseTimeout { timeout_ms });
        }
        finish_writable_close(mm_flush(&this.mmap))
    }
}

/// Turn the outcome of the final flush into the outcome of the close: a
/// successful flush completes the close, a failed one surfaces as the I/O
/// error carrying the failure.
pub fn finish_writable_close(flush_result: Result<(), std::io::Error>) -> (r: Result<
    (),
    StoreError,
>)
    ensures
        r is Ok <==> flush_result is Ok,
        flush_result matches Err(e) ==> (r matches Err(StoreError::Io { source }) && source == e),
{
    match flush_result {
        Ok(_) => Ok(()),
        Err(e) => Err(StoreError::Io { source: e }),
    }
}

impl QueueStoreInner<memmap2::Mmap> {
    /// The length of the mapped region, in bytes.
    pub fn map_len(&self) -> (r: usize)
        ensures
            r == mmap_bytes(self.mmap).len(),
    {
        ro_len(&self.mmap)
    }

    /// The mapped contents as a byte slice.
    pub fn as_slice(&self) -> (r: &[u8])
        ensures
            r@ == mmap_bytes(self.mmap),
    {
        ro_slice(&self.mmap)
    }

    /// Close the read-only store: mark it closing and require the handles
    /// to be drained; there is nothing to flush.  Succeeds exactly when no
    /// handle is live; fails with the timeout error carrying the budget
    /// otherwise.  The store value is consumed either way.
    pub fn close_with_timeout(self, timeout_ms: u64) -> (r: Result<(), StoreError>)
        requires
            self.wf(),
        ensures
            r is Ok <==> self.shared_state.ref_count == 0,
            close_timed_out(r, timeout_ms) <==> self.shared_state.ref_count > 0,
    {
        let mut this = self;
        this.mark_closing();
        if this.live_references() > 0 {
            return Err(StoreError::CloseTimeout { timeout_ms });
        }
        Ok(())
    }
}

/// The queue store facade: one of the two capability modes, dispatched
/// uniformly.
pub enum QueueStore {
    /// A store over a mutable mapping.
    Writable(QueueStoreInner<memmap2::MmapMut>),
    /// A store over an immutable mapping.
    Readonly(QueueStoreInner<memmap2::Mmap>),
}

impl QueueStore {
    /// The coordination state of whichever variant is held.
    pub open spec fn spec_shared(self) -> SharedState {
        match self {
            QueueStore::Writable(inner) => inner.shared_state,
            QueueStore::Readonly(inner) => inner.shared_state,
        }
    }

    /// The options of whichever variant is held.
    pub open spec fn spec_options(self) -> Options {
        match self {
            QueueStore::Writable(inner) => inner.options,
            QueueStore::Readonly(inner) => inner.options,
        }
    }

    /// The mapped bytes of whichever variant is held.
    pub open spec fn spec_view_bytes(self) -> Seq<u8> {
        match self {
            QueueStore::Writable(inner) => mmap_mut_bytes(inner.mmap),
            QueueStore::Readonly(inner) => mmap_bytes(inner.mmap),
        }
    }

    /// Well-formedness of the coordination state.
    pub open spec fn wf(self) -> bool {
        self.spec_shared().wf()
    }

    /// Which capability mode the store is in.  The mode is fixed at open
    /// time and never changes.
    pub fn is_writable(&self) -> (r: bool)
        ensures
            r == (self is Writable),
    {
        match self {
            QueueStore::Writable(_) => true,
            QueueStore::Readonly(_) => false,
        }
    }

    /// The configured close budget, in milliseconds.
    pub fn close_timeout(&self) -> (r: u64)
        ensures
            r == self.spec_options().close_timeout_ms,
    {
        match self {
            QueueStore::Writable(inner) => inner.close_timeout(),
            QueueStore::Readonly(inner) => inner.close_timeout(),
        }
    }

    /// Whether a close has been initiated.
    pub fn is_closing(&self) -> (r: bool)
        ensures
            r == self.spec_shared().is_closing,
    {
        match self {
            QueueStore::Writable(inner) => inner.is_closing(),
            QueueStore::Readonly(inner) => inner.is_closing(),
        }
    }

    /// The number of live handles.
    pub fn live_references(&self) -> (r: usize)
        ensures
            r == self.spec_shared().ref_count,
    {
        match self {
            QueueStore::Writable(inner) => inner.live_references(),
            QueueStore::Readonly(inner) => inner.live_references(),
        }
    }

    /// Create a reference handle for access to the segment; the handle is
    /// tagged with the store's capability mode and counted until released.
    pub fn create_handle(&mut self) -> (h: QueueStoreHandle)
        requires
            old(self).wf(),
            old(self).spec_shared().ref_count < usize::MAX,
        ensures
            final(self).wf(),
            final(self).spec_shared() == old(self).spec_shared().with_handle_created(),
            final(self).spec_options() == old(self).spec_options(),
            final(self).spec_view_bytes() == old(self).spec_view_bytes(),
            *final(self) is Writable <==> *old(self) is Writable,
            old(self).spec_shared().is_closing ==> final(self).spec_shared().is_closing,
            h is Writable <==> *old(self) is Writable,
    {
        match self {
            QueueStore::Writable(inner) => QueueStoreHandle::Writable(inner.create_handle()),
            QueueStore::Readonly(inner) => QueueStoreHandle::Readonly(inner.create_handle()),
        }
    }

    /// Release a handle: counts one accessor down, exactly once, because
    /// the handle is consumed.  Returns true when it was the last live
    /// handle.
    pub fn release_handle(&mut self, handle: QueueStoreHandle) -> (was_last: bool)
        requires
            old(self).wf(),
            old(self).spec_shared().ref_count > 0,
        ensures
            final(self).wf(),
            final(self).spec_shared() == old(self).spec_shared().with_handle_released(),
            final(self).spec_options() == old(self).spec_options(),
            final(self).spec_view_bytes() == old(self).spec_view_bytes(),
            *final(self) is Writable <==> *old(self) is Writable,
            old(self).spec_shared().is_closing ==> final(self).spec_shared().is_closing,
            was_last <==> final(self).spec_shared().ref_count == 0,
    {
        let inner_handle = match handle {
            QueueStoreHandle::Writable(inner) => inner,
            QueueStoreHandle::Readonly(inner) => inner,
        };
        match self {
            QueueStore::Writable(inner) => inner.release_handle(inner_handle),
            QueueStore::Readonly(inner) => inner.release_handle(inner_handle),
        }
    }

    /// Close the store with the configured timeout.  Consumes the store.
    pub fn close(self) -> (r: Result<(), StoreError>)
        requires
            self.wf(),
        ensures
            close_timed_out(r, self.spec_options().close_timeout_ms)
                <==> self.spec_shared().ref_count > 0,
            self.spec_shared().ref_count == 0 ==> r is Ok || close_io_failed(r),
            self is Readonly ==> (r is Ok <==> self.spec_shared().ref_count == 0),
    {
        let timeout_ms = self.close_timeout();
        self.close_with_timeout(timeout_ms)
    }

    /// Close the store with a caller-supplied timeout overriding the
    /// configured one.  Consumes the store: no further operation is
    /// possible on it, whatever the outcome.
    pub fn close_with_timeout(self, timeout_ms: u64) -> (r: Result<(), StoreError>)
        requires
            self.wf(),
        ensures
            close_timed_out(r, timeout_ms) <==> self.spec_shared().ref_count > 0,
            self.spec_shared().ref_count == 0 ==> r is Ok || close_io_failed(r),
            self is Readonly ==> (r is Ok <==> self.spec_shared().ref_count == 0),
    {
        match self {
            QueueStore::Writable(inner) => inner.close_with_timeout(timeout_ms),
            QueueStore::Readonly(inner) => inner.close_with_timeout(timeout_ms),
        }
    }
}

/// A handle that stands for one live accessor of a segment, tagged with
/// the capability mode it was issued for.  Creating it counted one live
/// reference; releasing it to the store counts that reference down,
/// exactly once, because release consumes the handle.
pub enum QueueStoreHandle {
    /// Issued by a writable store.
    Writable(QueueStoreHandleInner),
    /// Issued by a read-only store.
    Readonly(QueueStoreHandleInner),
}

impl QueueStoreHandle {
    /// Whether the handle was issued for the writable mode.
    pub fn is_writable_mode(&self) -> (r: bool)
        ensures
            r == (self is Writable),
    {
        match self {
            QueueStoreHandle::Writable(_) => true,
            QueueStoreHandle::Readonly(_) => false,
        }
    }

    /// Whether the segment this handle leases is being closed: a cheap,
    /// non-blocking check a caller can poll before issuing new work.  The
    /// closing flag lives in the coordination state the segment owns, so
    /// the handle reads it through the segment.
    pub fn is_closing(&self, store: &QueueStore) -> (r: bool)
        ensures
            r == store.spec_shared().is_closing,
    {
        match self {
            QueueStoreHandle::Writable(_) => store.is_closing(),
            QueueStoreHandle::Readonly(_) => store.is_closing(),
        }
    }
}

/// The lease record inside a handle: the creation index it was issued at.
pub struct QueueStoreHandleInner {
    /// How many handles the segment had issued before this one.
    pub serial: Ghost<nat>,
}

/// Observation is idempotent: reading `is_closing` or `close_timeout`
/// twice, with no transition in between, yields the same value both times,
/// because each read returns exactly the corresponding component of the
/// store's state.
pub proof fn lemma_observation_idempotent(s: QueueStore, r1: bool, r2: bool, t1: u64, t2: u64)
    requires
        r1 == s.spec_shared().is_closing,
        r2 == s.spec_shared().is_closing,
        t1 == s.spec_options().close_timeout_ms,
        t2 == s.spec_options().close_timeout_ms,
    ensures
        r1 == r2,
        t1 == t2,
{
}

} // verus!
