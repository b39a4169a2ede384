//! The selection reader: the state machine of one blocking read, from the
//! conversion request to the assembled value, including incremental
//! transfer.
//!
//! The caller sends the conversion request, creates a [`PendingTransfer`]
//! with the request's sequence number, and then loops: it performs the step
//! the transfer answers with, and hands the outcome back, until the answer is
//! [`ReadStep::Done`].

use vstd::prelude::*;
use crate::atoms::{Atoms, NONE};
use crate::error::ClipboardError;
use crate::payload::append_bytes;

verus! {

/// Where a read stands.
#[derive(Clone, Copy, Debug, PartialEq, Eq, Structural)]
pub enum ReadPhase {
    /// The conversion request is out; waiting for the owner's notification.
    AwaitingNotify,
    /// Notified; waiting for the value of the destination property.
    AwaitingValue,
    /// Incremental transfer: waiting for the owner to store the next chunk.
    AwaitingChunkNotify,
    /// Incremental transfer: waiting for the size of the stored chunk.
    AwaitingChunkSize,
    /// Incremental transfer: waiting for the stored chunk itself.
    AwaitingChunk,
    /// The whole value has been assembled.
    Complete,
    /// The read failed.
    Failed(ClipboardError),
}

/// What a polled protocol event means to a reader.
#[derive(Clone, Copy, Debug, PartialEq, Eq, Structural)]
pub enum SelectionEvent {
    /// The owner answered a conversion request.
    SelectionNotify { selection: u32, requestor: u32, property: u32 },
    /// A property of a window changed; `new_value` is false when it was
    /// deleted.
    PropertyNotify { window: u32, atom: u32, new_value: bool },
    /// Any other event.
    Other,
}

/// The next thing the caller does for a read.
#[derive(Clone, Copy, Debug, PartialEq, Eq, Structural)]
pub enum ReadStep {
    /// Wait one poll interval (about 50 ms), then poll for the next event.
    Sleep,
    /// Poll for the next event at once.
    Poll,
    /// Read property `property` of `window` as type `type_`, from offset 0
    /// and at full length, without deleting it; hand the reply to
    /// [`PendingTransfer::on_value`].
    GetValue { window: u32, property: u32, type_: u32 },
    /// Delete the scratch property of the reader's own window, which asks the
    /// owner to start streaming; then poll.
    DeleteProperty,
    /// Query how many bytes the scratch property holds; hand the count to
    /// [`PendingTransfer::on_chunk_size`].
    GetChunkSize,
    /// Read and delete up to `length` of the scratch property, of any type;
    /// hand the reply to [`PendingTransfer::on_chunk`].
    TakeChunk { length: u32 },
    /// The read is over; [`PendingTransfer::finish`] gives its outcome.
    Done,
}

/// The state of one read, as the contracts speak of it.
pub struct TransferView {
    /// The selection read from.
    pub selection: u32,
    /// The requested target.
    pub target: u32,
    /// The scratch property of the reader's window.
    pub property: u32,
    /// The reader's own window.
    pub window: u32,
    /// The sequence number of the conversion request.
    pub sequence: u64,
    /// The deadline, in milliseconds from the request, if any.
    pub timeout_ms: Option<u64>,
    /// The atoms of the reader's connection.
    pub atoms: Atoms,
    pub phase: ReadPhase,
    /// The bytes assembled so far.
    pub data: Seq<u8>,
}

/// One read in progress.
pub struct PendingTransfer {
    selection: u32,
    target: u32,
    property: u32,
    window: u32,
    sequence: u64,
    timeout_ms: Option<u64>,
    atoms: Atoms,
    phase: ReadPhase,
    data: Vec<u8>,
}

impl View for PendingTransfer {
    type V = TransferView;

    closed spec fn view(&self) -> TransferView {
        TransferView {
            selection: self.selection,
            target: self.target,
            property: self.property,
            window: self.window,
            sequence: self.sequence,
            timeout_ms: self.timeout_ms,
            atoms: self.atoms,
            phase: self.phase,
            data: self.data@,
        }
    }
}

/// The view with another phase and the same data.
pub open spec fn with_phase(v: TransferView, phase: ReadPhase) -> TransferView {
    TransferView { phase, ..v }
}

/// The view with another phase and more data.
pub open spec fn with_data(v: TransferView, phase: ReadPhase, more: Seq<u8>) -> TransferView {
    TransferView { phase, data: v.data + more, ..v }
}

/// The type a direct reply is asked for in: the atom-list type for a
/// `TARGETS` request, the target itself otherwise.
pub open spec fn value_type(v: TransferView) -> u32 {
    if v.target == v.atoms.targets {
        v.atoms.atom
    } else {
        v.target
    }
}

/// Whether the phase ends the read.
pub open spec fn is_final(phase: ReadPhase) -> bool {
    phase == ReadPhase::Complete || phase is Failed
}

/// Whether the deadline has passed after `elapsed_ms`.
pub open spec fn deadline_passed(v: TransferView, elapsed_ms: u64) -> bool {
    match v.timeout_ms {
        Some(t) => elapsed_ms >= t,
        None => false,
    }
}

/// A read that failed with `e`.
pub open spec fn failing(v: TransferView, e: ClipboardError) -> (TransferView, ReadStep) {
    (with_phase(v, ReadPhase::Failed(e)), ReadStep::Done)
}

/// The transition on polling: `polled` is the event with its sequence
/// number, or nothing when no event was pending.
pub open spec fn poll_next(v: TransferView, elapsed_ms: u64, polled: Option<(u64, SelectionEvent)>) -> (
    TransferView,
    ReadStep,
) {
    if is_final(v.phase) {
        (v, ReadStep::Done)
    } else if v.phase != ReadPhase::AwaitingNotify && v.phase != ReadPhase::AwaitingChunkNotify {
        failing(v, ClipboardError::Protocol)
    } else if deadline_passed(v, elapsed_ms) {
        failing(v, ClipboardError::Timeout)
    } else {
        match polled {
            None => (v, ReadStep::Sleep),
            Some((seq, event)) => if seq < v.sequence {
                (v, ReadStep::Poll)
            } else {
                match event {
                    SelectionEvent::SelectionNotify { selection, requestor, property } => {
                        if v.phase != ReadPhase::AwaitingNotify || selection != v.selection {
                            (v, ReadStep::Poll)
                        } else if property == NONE {
                            failing(v, ClipboardError::NoData)
                        } else {
                            (
                                with_phase(v, ReadPhase::AwaitingValue),
                                ReadStep::GetValue { window: requestor, property, type_: value_type(v) },
                            )
                        }
                    },
                    SelectionEvent::PropertyNotify { window, atom, new_value } => {
                        if v.phase == ReadPhase::AwaitingChunkNotify && window == v.window && atom
                            == v.property && new_value {
                            (with_phase(v, ReadPhase::AwaitingChunkSize), ReadStep::GetChunkSize)
                        } else {
                            (v, ReadStep::Poll)
                        }
                    },
                    SelectionEvent::Other => (v, ReadStep::Poll),
                }
            },
        }
    }
}

/// The transition on the reply to [`ReadStep::GetValue`]: the property's
/// declared type and its bytes.
pub open spec fn value_next(v: TransferView, type_: u32, value: Seq<u8>) -> (TransferView, ReadStep) {
    if is_final(v.phase) {
        (v, ReadStep::Done)
    } else if v.phase != ReadPhase::AwaitingValue {
        failing(v, ClipboardError::Protocol)
    } else if type_ == v.atoms.incr {
        (with_phase(v, ReadPhase::AwaitingChunkNotify), ReadStep::DeleteProperty)
    } else if type_ == NONE {
        failing(v, ClipboardError::NoData)
    } else if type_ == v.target || (v.target == v.atoms.targets && type_ == v.atoms.atom) {
        (with_data(v, ReadPhase::Complete, value), ReadStep::Done)
    } else {
        failing(v, ClipboardError::TypeMismatch)
    }
}

/// The transition on the answer to [`ReadStep::GetChunkSize`].
pub open spec fn chunk_size_next(v: TransferView, bytes_after: u32) -> (TransferView, ReadStep) {
    if is_final(v.phase) {
        (v, ReadStep::Done)
    } else if v.phase != ReadPhase::AwaitingChunkSize {
        failing(v, ClipboardError::Protocol)
    } else {
        (with_phase(v, ReadPhase::AwaitingChunk), ReadStep::TakeChunk { length: bytes_after })
    }
}

/// The transition on the reply to [`ReadStep::TakeChunk`]: a chunk of
/// another type is skipped, an empty chunk ends the stream, any other is
/// appended.
pub open spec fn chunk_next(v: TransferView, type_: u32, value: Seq<u8>) -> (TransferView, ReadStep) {
    if is_final(v.phase) {
        (v, ReadStep::Done)
    } else if v.phase != ReadPhase::AwaitingChunk {
        failing(v, ClipboardError::Protocol)
    } else if type_ != v.target {
        (with_phase(v, ReadPhase::AwaitingChunkNotify), ReadStep::Poll)
    } else if value.len() == 0 {
        (with_phase(v, ReadPhase::Complete), ReadStep::Done)
    } else {
        (with_data(v, ReadPhase::AwaitingChunkNotify, value), ReadStep::Poll)
    }
}

/// The outcome of a read in its view.
pub open spec fn outcome_of(v: TransferView) -> Result<Seq<u8>, ClipboardError> {
    match v.phase {
        ReadPhase::Complete => Ok(v.data),
        ReadPhase::Failed(e) => Err(e),
        _ => Err(ClipboardError::Protocol),
    }
}

impl PendingTransfer {
    /// A read of `target` from `selection`, into `property` of `window`,
    /// whose conversion request had sequence number `sequence`.
    pub fn new(
        atoms: &Atoms,
        selection: u32,
        target: u32,
        property: u32,
        window: u32,
        sequence: u64,
        timeout_ms: Option<u64>,
    ) -> (r: PendingTransfer)
        ensures
            r@ == (TransferView {
                selection,
                target,
                property,
                window,
                sequence,
                timeout_ms,
                atoms: *atoms,
                phase: ReadPhase::AwaitingNotify,
                data: Seq::empty(),
            }),
    {
        PendingTransfer {
            selection,
            target,
            property,
            window,
            sequence,
            timeout_ms,
            atoms: *atoms,
            phase: ReadPhase::AwaitingNotify,
            data: Vec::new(),
        }
    }

    /// The current phase.
    pub fn phase(&self) -> (r: ReadPhase)
        ensures
            r == self@.phase,
    {
        self.phase
    }

    fn fail(&mut self, e: ClipboardError) -> (r: ReadStep)
        ensures
            (final(self)@, r) == failing(old(self)@, e),
    {
        self.phase = ReadPhase::Failed(e);
        ReadStep::Done
    }

    /// Advances the read on a poll: `elapsed_ms` is the time since the
    /// request, `polled` the pending event with its sequence number, if any.
    pub fn on_poll(&mut self, elapsed_ms: u64, polled: Option<(u64, SelectionEvent)>) -> (r: ReadStep)
        ensures
            (final(self)@, r) == poll_next(old(self)@, elapsed_ms, polled),
    {
        if matches!(self.phase, ReadPhase::Complete | ReadPhase::Failed(_)) {
            return ReadStep::Done;
        }
        if self.phase != ReadPhase::AwaitingNotify && self.phase != ReadPhase::AwaitingChunkNotify {
            return self.fail(ClipboardError::Protocol);
        }
        if let Some(t) = self.timeout_ms {
            if elapsed_ms >= t {
                return self.fail(ClipboardError::Timeout);
            }
        }
        match polled {
            None => ReadStep::Sleep,
            Some((seq, event)) => {
                if seq < self.sequence {
                    return ReadStep::Poll;
                }
                match event {
                    SelectionEvent::SelectionNotify { selection, requestor, property } => {
                        if self.phase != ReadPhase::AwaitingNotify || selection != self.selection {
                            ReadStep::Poll
                        } else if property == NONE {
                            self.fail(ClipboardError::NoData)
                        } else {
                            self.phase = ReadPhase::AwaitingValue;
                            let type_ = if self.target == self.atoms.targets {
                                self.atoms.atom
                            } else {
                                self.target
                            };
                            ReadStep::GetValue { window: requestor, property, type_ }
                        }
                    },
                    SelectionEvent::PropertyNotify { window, atom, new_value } => {
                        if self.phase == ReadPhase::AwaitingChunkNotify && window == self.window
                            && atom == self.property && new_value {
                            self.phase = ReadPhase::AwaitingChunkSize;
                            ReadStep::GetChunkSize
                        } else {
                            ReadStep::Poll
                        }
                    },
                    SelectionEvent::Other => ReadStep::Poll,
                }
            },
        }
    }

    /// Advances the read on the reply to [`ReadStep::GetValue`]:
    /// `size_hint` is the first 32-bit value of the reply, which announces
    /// the total size of an incremental transfer.
    pub fn on_value(&mut self, type_: u32, value: &[u8], size_hint: Option<u32>) -> (r: ReadStep)
        ensures
            (final(self)@, r) == value_next(old(self)@, type_, value@),
    {
        if matches!(self.phase, ReadPhase::Complete | ReadPhase::Failed(_)) {
            return ReadStep::Done;
        }
        if self.phase != ReadPhase::AwaitingValue {
            return self.fail(ClipboardError::Protocol);
        }
        if type_ == self.atoms.incr {
            if let Some(size) = size_hint {
                self.data.reserve(size as usize);
            }
            self.phase = ReadPhase::AwaitingChunkNotify;
            ReadStep::DeleteProperty
        } else if type_ == NONE {
            self.fail(ClipboardError::NoData)
        } else if type_ == self.target || (self.target == self.atoms.targets && type_ == self.atoms.atom) {
            append_bytes(&mut self.data, value);
            self.phase = ReadPhase::Complete;
            ReadStep::Done
        } else {
            self.fail(ClipboardError::TypeMismatch)
        }
    }

    /// Advances the read on the answer to [`ReadStep::GetChunkSize`]: the
    /// number of bytes the scratch property holds.
    pub fn on_chunk_size(&mut self, bytes_after: u32) -> (r: ReadStep)
        ensures
            (final(self)@, r) == chunk_size_next(old(self)@, bytes_after),
    {
        if matches!(self.phase, ReadPhase::Complete | ReadPhase::Failed(_)) {
            return ReadStep::Done;
        }
        if self.phase != ReadPhase::AwaitingChunkSize {
            return self.fail(ClipboardError::Protocol);
        }
        self.phase = ReadPhase::AwaitingChunk;
        ReadStep::TakeChunk { length: bytes_after }
    }

    /// Advances the read on the reply to [`ReadStep::TakeChunk`].
    pub fn on_chunk(&mut self, type_: u32, value: &[u8]) -> (r: ReadStep)
        ensures
            (final(self)@, r) == chunk_next(old(self)@, type_, value@),
    {
        if matches!(self.phase, ReadPhase::Complete | ReadPhase::Failed(_)) {
            return ReadStep::Done;
        }
        if self.phase != ReadPhase::AwaitingChunk {
            return self.fail(ClipboardError::Protocol);
        }
        if type_ != self.target {
            self.phase = ReadPhase::AwaitingChunkNotify;
            ReadStep::Poll
        } else if value.len() == 0 {
            self.phase = ReadPhase::Complete;
            ReadStep::Done
        } else {
            append_bytes(&mut self.data, value);
            self.phase = ReadPhase::AwaitingChunkNotify;
            ReadStep::Poll
        }
    }

    /// The outcome of the read: the assembled bytes once complete, the
    /// error once failed, a protocol error if the read was abandoned midway.
    pub fn finish(self) -> (r: Result<Vec<u8>, ClipboardError>)
        ensures
            match outcome_of(self@) {
                Ok(d) => r is Ok && r->Ok_0@ == d,
                Err(e) => r == Err::<Vec<u8>, ClipboardError>(e),
            },
    {
        match self.phase {
            ReadPhase::Complete => Ok(self.data),
            ReadPhase::Failed(e) => Err(e),
            _ => Err(ClipboardError::Protocol),
        }
    }
}

} // verus!
