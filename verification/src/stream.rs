//! The streaming format from Python: the reader's and writer's state machines and
//! their error mapping.
//!
//! A reader yields tensors until the stream ends; it refuses a composite by name
//! rather than return its head (which owns no buffers) as an empty tensor and its
//! members as unrelated top-level tensors. A closed reader is an exhausted iterator.
//! A writer writes until finished; finishing twice is harmless, writing after it is an
//! error, and only a writer built without a destination holds its bytes in memory.

use vstd::prelude::*;
use crate::errors::ErrorClass;
use crate::file_io::{BufferCountError, IoFailure};

verus! {

/// Stream errors: I/O is `FileError`, a rejected descriptor `InvalidDescriptorError`,
/// and a framing error `StreamError`.
pub fn stream_error_class(f: IoFailure) -> (r: ErrorClass)
    ensures
        r == (match f {
            IoFailure::Io => ErrorClass::File,
            IoFailure::Core => ErrorClass::InvalidDescriptor,
            IoFailure::Other => ErrorClass::Stream,
        }),
{
    match f {
        IoFailure::Io => ErrorClass::File,
        IoFailure::Core => ErrorClass::InvalidDescriptor,
        IoFailure::Other => ErrorClass::Stream,
    }
}

/// Why a stream operation was refused.
#[derive(Clone, Copy, Debug, PartialEq, Eq, Structural)]
pub enum StreamError {
    /// The stream holds a composite with this many members.
    CompositeInStream(u64),
    /// The writer was finished.
    Finished,
    /// The writer has a destination; its bytes went there.
    NoMemorySink,
    /// `fileno()` returned a negative descriptor.
    NegativeFileno(i32),
}

impl StreamError {
    /// The Python exception each error raises.
    pub fn class(&self) -> (r: ErrorClass)
        ensures
            r == (match *self {
                StreamError::CompositeInStream(_) => ErrorClass::Unsupported,
                StreamError::NegativeFileno(_) => ErrorClass::File,
                _ => ErrorClass::Stream,
            }),
    {
        match self {
            StreamError::CompositeInStream(_) => ErrorClass::Unsupported,
            StreamError::NegativeFileno(_) => ErrorClass::File,
            _ => ErrorClass::Stream,
        }
    }
}

/// A file descriptor from `fileno()` must not be negative.
pub fn check_fileno(fd: i32) -> (r: Result<i32, StreamError>)
    ensures
        r == (if fd < 0 {
            Err::<i32, StreamError>(StreamError::NegativeFileno(fd))
        } else {
            Ok(fd)
        }),
{
    if fd < 0 {
        return Err(StreamError::NegativeFileno(fd));
    }
    Ok(fd)
}

/// A tensor from a stream: one buffer per declared handle, and at least one.
pub fn check_stream_buffers(carried: u64, declared: u64) -> (r: Result<(), BufferCountError>)
    ensures
        r == (if carried != declared {
            Err::<(), BufferCountError>(BufferCountError::Mismatch { declared, carried })
        } else if carried == 0 {
            Err(BufferCountError::NoBuffers)
        } else {
            Ok(())
        }),
{
    if carried != declared {
        return Err(BufferCountError::Mismatch { declared, carried });
    }
    if carried == 0 {
        return Err(BufferCountError::NoBuffers);
    }
    Ok(())
}

/// What the underlying reader produced.
#[derive(Clone, Copy, Debug, PartialEq, Eq, Structural)]
pub enum StreamItemKind {
    /// The stream ended.
    End,
    /// A tensor.
    Tensor,
    /// A composite with this many members.
    Composite(u64),
}

/// What `__next__` does with it.
#[derive(Clone, Copy, Debug, PartialEq, Eq, Structural)]
pub enum ReaderYield {
    /// Stop iteration.
    Stop,
    /// Yield the tensor.
    Tensor,
}

/// A stream reader: open until closed.
pub struct StreamReaderState {
    open: bool,
}

impl View for StreamReaderState {
    type V = bool;

    /// Is the reader open?
    closed spec fn view(&self) -> bool {
        self.open
    }
}

impl StreamReaderState {
    /// A newly opened reader.
    pub fn new() -> (r: StreamReaderState)
        ensures
            r@,
    {
        StreamReaderState { open: true }
    }

    /// Should `__next__` read from the stream? A closed reader stops without reading.
    pub fn should_read(&self) -> (r: bool)
        ensures
            r == self@,
    {
        self.open
    }

    /// Decide what `__next__` returns for an item read.
    pub fn on_item(&self, item: StreamItemKind) -> (r: Result<ReaderYield, StreamError>)
        ensures
            r == (match item {
                StreamItemKind::End => Ok::<ReaderYield, StreamError>(ReaderYield::Stop),
                StreamItemKind::Tensor => Ok(ReaderYield::Tensor),
                StreamItemKind::Composite(n) => Err(StreamError::CompositeInStream(n)),
            }),
    {
        match item {
            StreamItemKind::End => Ok(ReaderYield::Stop),
            StreamItemKind::Tensor => Ok(ReaderYield::Tensor),
            StreamItemKind::Composite(n) => Err(StreamError::CompositeInStream(n)),
        }
    }

    /// `close()`, also run by `__exit__`.
    pub fn close(&mut self)
        ensures
            !final(self)@,
    {
        self.open = false;
    }

    /// `__exit__`: close, never suppressing an exception.
    pub fn exit(&mut self) -> (suppress: bool)
        ensures
            !final(self)@,
            !suppress,
    {
        self.close();
        false
    }
}

/// A stream writer's state.
pub struct StreamWriterState {
    open: bool,
    in_memory: bool,
}

impl StreamWriterState {
    /// Is the writer still accepting tensors?
    pub closed spec fn is_open(&self) -> bool {
        self.open
    }

    /// Does it buffer its bytes in memory?
    pub closed spec fn is_in_memory(&self) -> bool {
        self.in_memory
    }

    /// A new writer; in memory exactly when no destination was given.
    pub fn new(has_destination: bool) -> (r: StreamWriterState)
        ensures
            r.is_open(),
            r.is_in_memory() == !has_destination,
    {
        StreamWriterState { open: true, in_memory: !has_destination }
    }

    /// May a tensor be written?
    pub fn check_write(&self) -> (r: Result<(), StreamError>)
        ensures
            r == (if self.is_open() {
                Ok::<(), StreamError>(())
            } else {
                Err(StreamError::Finished)
            }),
    {
        if !self.open {
            return Err(StreamError::Finished);
        }
        Ok(())
    }

    /// `finish()`: returns whether the end-of-stream must be written now. Only the
    /// first call writes it; later calls do nothing.
    pub fn finish(&mut self) -> (write_end: bool)
        ensures
            write_end == old(self).is_open(),
            !final(self).is_open(),
            final(self).is_in_memory() == old(self).is_in_memory(),
    {
        let was_open = self.open;
        self.open = false;
        was_open
    }

    /// `getvalue()`: allowed only for an in-memory writer.
    pub fn check_getvalue(&self) -> (r: Result<(), StreamError>)
        ensures
            r == (if self.is_in_memory() {
                Ok::<(), StreamError>(())
            } else {
                Err(StreamError::NoMemorySink)
            }),
    {
        if !self.in_memory {
            return Err(StreamError::NoMemorySink);
        }
        Ok(())
    }
}

/// Where a stream reader takes its bytes from, or a writer puts them.
#[derive(Clone, Copy, Debug, PartialEq, Eq, Structural)]
pub enum Transport {
    /// An in-memory buffer: `bytes` handed to a reader, or a writer with no
    /// destination.
    Memory,
    /// A duplicate of this file descriptor.
    Fd(i32),
    /// A path to open (reader) or create (writer).
    Path,
}

/// The object offered as a source or destination is none of the accepted kinds;
/// raises `TypeError`.
#[derive(Clone, Copy, Debug, PartialEq, Eq, Structural)]
pub struct NotATransport;

/// What a reader's source turned out to be: bytes first, then an object whose
/// `fileno()` gives a non-negative descriptor, then a path. `fileno` is `None` when
/// the object has no usable `fileno()`; a negative descriptor counts as none.
pub fn choose_source(is_bytes: bool, fileno: Option<i32>, is_path: bool) -> (r: Result<Transport, NotATransport>)
    ensures
        r == (if is_bytes {
            Ok::<Transport, NotATransport>(Transport::Memory)
        } else if fileno matches Some(fd) && fd >= 0 {
            Ok(Transport::Fd(fileno->0))
        } else if is_path {
            Ok(Transport::Path)
        } else {
            Err(NotATransport)
        }),
{
    if is_bytes {
        return Ok(Transport::Memory);
    }
    if let Some(fd) = fileno {
        if fd >= 0 {
            return Ok(Transport::Fd(fd));
        }
    }
    if is_path {
        return Ok(Transport::Path);
    }
    Err(NotATransport)
}

/// What a writer's destination turned out to be: none means memory; otherwise an object
/// whose `fileno()` gives a non-negative descriptor, then a path.
pub fn choose_destination(has_destination: bool, fileno: Option<i32>, is_path: bool) -> (r: Result<
    Transport,
    NotATransport,
>)
    ensures
        r == (if !has_destination {
            Ok::<Transport, NotATransport>(Transport::Memory)
        } else if fileno matches Some(fd) && fd >= 0 {
            Ok(Transport::Fd(fileno->0))
        } else if is_path {
            Ok(Transport::Path)
        } else {
            Err(NotATransport)
        }),
{
    if !has_destination {
        return Ok(Transport::Memory);
    }
    if let Some(fd) = fileno {
        if fd >= 0 {
            return Ok(Transport::Fd(fd));
        }
    }
    if is_path {
        return Ok(Transport::Path);
    }
    Err(NotATransport)
}

} // verus!
