//! Reading and writing whole messages as sequences of chunk operations:
//! the sizing of the receive buffer, and the bookkeeping of what has been
//! transferred.
use vstd::prelude::*;

use crate::error::TcpError;

verus! {

/// The chunk size of a complete read where none is given.
pub const DEFAULT_CHUNK_SIZE: usize = 4096;

/// `value` rounded up to the next multiple of `block_size`.
pub open spec fn spec_round_up(value: int, block_size: int) -> int {
    if value % block_size == 0 {
        value
    } else {
        value + (block_size - value % block_size)
    }
}

/// Whether `length` bytes of data already go beyond the maximum length.
pub open spec fn exceeds_maximum(length: int, maximum: Option<usize>) -> bool {
    maximum matches Some(m) && length > m
}

/// The capacity that a receive buffer holding `length` bytes grows to for
/// the next chunk: the next multiple of the chunk size above the data, so
/// that one read brings at most one chunk; no room at all (the data length
/// itself) where the data already go beyond the maximum length.
pub open spec fn spec_capacity(length: int, chunk_size: int, maximum: Option<usize>) -> int {
    if exceeds_maximum(length, maximum) {
        length
    } else {
        spec_round_up(length + 1, chunk_size)
    }
}

/// Whether the capacity for `length` bytes can be computed in a `usize`.
pub open spec fn capacity_fits(length: int, chunk_size: int, maximum: Option<usize>) -> bool {
    exceeds_maximum(length, maximum) || spec_round_up(length + 1, chunk_size) <= usize::MAX
}

/// The capacity law of a complete read, over all lengths, chunk sizes and
/// maxima: the buffer gets no room (its capacity is the data length itself)
/// exactly when there is a maximum and the data are longer than it;
/// otherwise the room behind the data is at least one byte and at most one
/// chunk, and ends on a chunk boundary.
pub proof fn lemma_capacity(length: nat, chunk_size: nat, maximum: Option<usize>)
    requires
        chunk_size > 0,
    ensures
        (spec_capacity(length as int, chunk_size as int, maximum) == length) <==> (match maximum {
            Some(m) => length > m,
            None => false,
        }),
        !(match maximum {
            Some(m) => length > m,
            None => false,
        }) ==> length < spec_capacity(length as int, chunk_size as int, maximum) <= length
            + chunk_size && spec_capacity(length as int, chunk_size as int, maximum) % (
        chunk_size as int) == 0,
{
    lemma_round_up(length + 1 as int, chunk_size as int);
}

/// The rounded value is a multiple of the block size, at least the value and
/// less than one block beyond it.
proof fn lemma_round_up(value: int, block_size: int)
    requires
        0 <= value,
        0 < block_size,
    ensures
        spec_round_up(value, block_size) % block_size == 0,
        value <= spec_round_up(value, block_size) < value + block_size,
{
    vstd::arithmetic::div_mod::lemma_fundamental_div_mod(value, block_size);
    if value % block_size == 0 {
    } else {
        let q = value / block_size;
        assert(spec_round_up(value, block_size) == (q + 1) * block_size) by (nonlinear_arith)
            requires
                value == block_size * q + value % block_size,
                spec_round_up(value, block_size) == value + (block_size - value % block_size),
        ;
        vstd::arithmetic::div_mod::lemma_mod_multiples_basic(q + 1, block_size);
    }
}

/// Rounds `value` up to the next multiple of `block_size`: the least multiple
/// of `block_size` that is not less than `value`.
pub fn round_up(value: usize, block_size: usize) -> (rounded: usize)
    requires
        block_size > 0,
        spec_round_up(value as int, block_size as int) <= usize::MAX,
    ensures
        rounded == spec_round_up(value as int, block_size as int),
        rounded % block_size == 0,
        value <= rounded < value + block_size,
{
    proof {
        lemma_round_up(value as int, block_size as int);
    }
    let r = value % block_size;
    if r == 0 {
        value
    } else {
        value + (block_size - r)
    }
}

/// The capacity that a receive buffer holding `length` bytes grows to for the
/// next chunk of a complete read (see [`spec_capacity`]): the room behind the
/// data is never more than one chunk, and there is none once the data go
/// beyond the maximum length. Without a maximum, there is no limit.
pub fn compute_capacity(length: usize, chunk_size: usize, maximum_size: Option<usize>) -> (capacity:
    usize)
    requires
        chunk_size > 0,
        capacity_fits(length as int, chunk_size as int, maximum_size),
    ensures
        capacity == spec_capacity(length as int, chunk_size as int, maximum_size),
        (capacity == length) <==> (match maximum_size {
            Some(m) => length > m,
            None => false,
        }),
        (match maximum_size {
            Some(m) => length > m,
            None => false,
        }) ==> capacity == length,
        !(match maximum_size {
            Some(m) => length > m,
            None => false,
        }) ==> length < capacity <= length + chunk_size && capacity % chunk_size == 0,
{
    let too_big = match maximum_size {
        Some(maximum) => length > maximum,
        None => false,
    };
    if too_big {
        length
    } else {
        proof {
            lemma_round_up(length + 1 as int, chunk_size as int);
        }
        round_up(length + 1, chunk_size)
    }
}

/// Whether the capacity for `length` bytes can be computed without overflow.
pub fn check_capacity_fits(length: usize, chunk_size: usize, maximum_size: Option<usize>) -> (fits:
    bool)
    requires
        chunk_size > 0,
    ensures
        fits == capacity_fits(length as int, chunk_size as int, maximum_size),
{
    let too_big = match maximum_size {
        Some(maximum) => length > maximum,
        None => false,
    };
    if too_big {
        return true;
    }
    if length == usize::MAX {
        return false;
    }
    let next = length + 1;
    let r = next % chunk_size;
    r == 0 || next <= usize::MAX - (chunk_size - r)
}

/// What the caller of a [`ReadAll`] has to do next.
#[derive(Debug)]
pub enum ReadAllAction {
    /// Read the next chunk into `buffer[start..end]` and hand the outcome to
    /// [`ReadAll::read_done`].
    Read { start: usize, end: usize },
    /// Ask whether the data in `buffer[..length]` is complete and hand the
    /// answer to [`ReadAll::checked`].
    CheckComplete(usize),
    /// The read is over, with this result.
    Finish(Result<(), TcpError>),
}

/// Where a [`ReadAll`] stands.
#[derive(Clone, Copy, Debug, PartialEq, Eq, Structural)]
pub enum ReadAllPhase {
    /// About to size the buffer for the next chunk.
    Sizing,
    /// Expects the outcome of a chunk read.
    Reading,
    /// Expects whether the data is complete.
    Checking,
    /// Finished.
    Done,
}

/// The bookkeeping of a complete read: all incoming data is appended to a
/// buffer, chunk by chunk, until the caller finds it complete, the stream
/// ends, the data grows too big, or a chunk read fails.
pub struct ReadAll {
    chunk_size: usize,
    maximum_length: Option<usize>,
    valid_length: usize,
    capacity: usize,
    phase: ReadAllPhase,
}

impl ReadAll {
    /// The most that one chunk read may bring.
    pub closed spec fn spec_chunk_size(self) -> usize {
        self.chunk_size
    }

    /// The limit of the total length, if any.
    pub closed spec fn spec_maximum_length(self) -> Option<usize> {
        self.maximum_length
    }

    /// How many bytes at the start of the buffer hold data.
    pub closed spec fn valid_length(self) -> usize {
        self.valid_length
    }

    /// The length that the buffer has while the read is under way.
    pub closed spec fn buffer_length(self) -> usize {
        self.capacity
    }

    /// Where the read stands.
    pub closed spec fn spec_phase(self) -> ReadAllPhase {
        self.phase
    }

    /// Chunks are never empty, the data never runs beyond the buffer, and a
    /// chunk read has room.
    pub open spec fn wf(self) -> bool {
        &&& self.spec_chunk_size() > 0
        &&& self.valid_length() <= self.buffer_length()
        &&& self.spec_phase() == ReadAllPhase::Reading ==> self.valid_length()
            < self.buffer_length()
    }

    /// Whether the buffer can be sized for the next chunk without overflow.
    pub open spec fn spec_sizes_fit(self) -> bool {
        capacity_fits(
            self.valid_length() as int,
            self.spec_chunk_size() as int,
            self.spec_maximum_length(),
        )
    }

    /// A complete read into a buffer that holds `buffer_length` bytes already,
    /// in chunks of `chunk_size` (4096 where `None`), up to `maximum_length`
    /// in all (no limit where `None`).
    pub fn new(buffer_length: usize, chunk_size: Option<usize>, maximum_length: Option<usize>) -> (r:
        ReadAll)
        requires
            chunk_size matches Some(c) ==> c > 0,
        ensures
            r.wf(),
            r.spec_phase() == ReadAllPhase::Sizing,
            r.valid_length() == buffer_length,
            r.buffer_length() == buffer_length,
            r.spec_chunk_size() == (match chunk_size {
                Some(c) => c,
                None => DEFAULT_CHUNK_SIZE,
            }),
            r.spec_maximum_length() == maximum_length,
    {
        let chunk_size = match chunk_size {
            Some(c) => c,
            None => DEFAULT_CHUNK_SIZE,
        };
        ReadAll {
            chunk_size,
            maximum_length,
            valid_length: buffer_length,
            capacity: buffer_length,
            phase: ReadAllPhase::Sizing,
        }
    }

    /// Where the read stands.
    pub fn phase(&self) -> (phase: ReadAllPhase)
        ensures
            phase == self.spec_phase(),
    {
        self.phase
    }

    /// Whether the buffer can be sized for the next chunk without overflow.
    pub fn sizes_fit(&self) -> (fits: bool)
        requires
            self.wf(),
        ensures
            fits == self.spec_sizes_fit(),
    {
        check_capacity_fits(self.valid_length, self.chunk_size, self.maximum_length)
    }

    /// Sizes the buffer for the next chunk. Where the data already go beyond
    /// the maximum length, the read fails with [`TcpError::TooBig`], makes no
    /// further read, and the buffer is cut back to the data; otherwise the
    /// buffer is grown (with zeros) or cut up to the next chunk boundary above
    /// the data, keeping the data, and the next chunk, of at most the chunk
    /// size, is read into the room behind the data.
    pub fn size(&mut self, buffer: &mut Vec<u8>) -> (action: ReadAllAction)
        requires
            old(self).wf(),
            old(self).spec_phase() == ReadAllPhase::Sizing,
            old(self).spec_sizes_fit(),
            old(buffer)@.len() == old(self).buffer_length(),
        ensures
            final(self).wf(),
            final(self).spec_chunk_size() == old(self).spec_chunk_size(),
            final(self).spec_maximum_length() == old(self).spec_maximum_length(),
            final(self).valid_length() == old(self).valid_length(),
            ({
                let c = spec_capacity(
                    old(self).valid_length() as int,
                    old(self).spec_chunk_size() as int,
                    old(self).spec_maximum_length(),
                );
                if (match old(self).spec_maximum_length() {
                    Some(m) => old(self).valid_length() > m,
                    None => false,
                }) {
                    &&& action == ReadAllAction::Finish(Err(TcpError::TooBig))
                    &&& final(self).spec_phase() == ReadAllPhase::Done
                    &&& final(buffer)@ == old(buffer)@.subrange(0, old(self).valid_length() as int)
                } else {
                    &&& action == ReadAllAction::Read {
                        start: old(self).valid_length(),
                        end: c as usize,
                    }
                    &&& old(self).valid_length() < c <= old(self).valid_length()
                        + old(self).spec_chunk_size()
                    &&& final(self).spec_phase() == ReadAllPhase::Reading
                    &&& final(self).buffer_length() == c
                    &&& final(buffer)@.len() == c
                    &&& final(buffer)@.subrange(0, old(self).valid_length() as int) == old(
                        buffer,
                    )@.subrange(0, old(self).valid_length() as int)
                    &&& forall|i: int|
                        old(buffer)@.len() <= i < c ==> #[trigger] final(buffer)@[i] == 0u8
                }
            }),
    {
        let capacity = compute_capacity(self.valid_length, self.chunk_size, self.maximum_length);
        if capacity <= self.valid_length {
            buffer.truncate(self.valid_length);
            self.phase = ReadAllPhase::Done;
            return ReadAllAction::Finish(Err(TcpError::TooBig));
        }
        buffer.resize(capacity, 0);
        self.capacity = capacity;
        self.phase = ReadAllPhase::Reading;
        ReadAllAction::Read { start: self.valid_length, end: capacity }
    }

    /// Takes the outcome of a chunk read into the room behind the data. Data
    /// extends the valid part of the buffer, and the caller is asked whether
    /// it is complete now. The end of the stream fails the read with
    /// [`TcpError::Incomplete`], and a failed chunk read with its error; either
    /// way the buffer is cut back to the data.
    pub fn read_done(&mut self, buffer: &mut Vec<u8>, outcome: Result<usize, TcpError>) -> (action:
        ReadAllAction)
        requires
            old(self).wf(),
            old(self).spec_phase() == ReadAllPhase::Reading,
            old(buffer)@.len() == old(self).buffer_length(),
            outcome matches Ok(n) ==> n <= old(self).buffer_length() - old(self).valid_length(),
        ensures
            final(self).wf(),
            final(self).spec_chunk_size() == old(self).spec_chunk_size(),
            final(self).spec_maximum_length() == old(self).spec_maximum_length(),
            final(self).buffer_length() == old(self).buffer_length(),
            match outcome {
                Ok(n) => if n == 0 {
                    &&& action == ReadAllAction::Finish(Err(TcpError::Incomplete))
                    &&& final(self).spec_phase() == ReadAllPhase::Done
                    &&& final(buffer)@ == old(buffer)@.subrange(0, old(self).valid_length() as int)
                } else {
                    &&& final(self).valid_length() == old(self).valid_length() + n
                    &&& action == ReadAllAction::CheckComplete(final(self).valid_length())
                    &&& final(self).spec_phase() == ReadAllPhase::Checking
                    &&& final(buffer)@ == old(buffer)@
                },
                Err(e) => {
                    &&& action == ReadAllAction::Finish(Err(e))
                    &&& final(self).spec_phase() == ReadAllPhase::Done
                    &&& final(buffer)@ == old(buffer)@.subrange(0, old(self).valid_length() as int)
                },
            },
    {
        match outcome {
            Ok(count) => {
                if count == 0 {
                    buffer.truncate(self.valid_length);
                    self.phase = ReadAllPhase::Done;
                    ReadAllAction::Finish(Err(TcpError::Incomplete))
                } else {
                    self.valid_length = self.valid_length + count;
                    self.phase = ReadAllPhase::Checking;
                    ReadAllAction::CheckComplete(self.valid_length)
                }
            },
            Err(error) => {
                buffer.truncate(self.valid_length);
                self.phase = ReadAllPhase::Done;
                ReadAllAction::Finish(Err(error))
            },
        }
    }

    /// Takes whether the data is complete. Complete data finishes the read:
    /// the buffer is cut back to the data. Otherwise the buffer is sized for
    /// the next chunk, as by [`ReadAll::size`].
    pub fn checked(&mut self, buffer: &mut Vec<u8>, complete: bool) -> (action: ReadAllAction)
        requires
            old(self).wf(),
            old(self).spec_phase() == ReadAllPhase::Checking,
            old(buffer)@.len() == old(self).buffer_length(),
            !complete ==> old(self).spec_sizes_fit(),
        ensures
            final(self).wf(),
            final(self).spec_chunk_size() == old(self).spec_chunk_size(),
            final(self).spec_maximum_length() == old(self).spec_maximum_length(),
            final(self).valid_length() == old(self).valid_length(),
            complete ==> {
                &&& action == ReadAllAction::Finish(Ok(()))
                &&& final(self).spec_phase() == ReadAllPhase::Done
                &&& final(buffer)@ == old(buffer)@.subrange(0, old(self).valid_length() as int)
            },
            !complete ==> ({
                let c = spec_capacity(
                    old(self).valid_length() as int,
                    old(self).spec_chunk_size() as int,
                    old(self).spec_maximum_length(),
                );
                if (match old(self).spec_maximum_length() {
                    Some(m) => old(self).valid_length() > m,
                    None => false,
                }) {
                    &&& action == ReadAllAction::Finish(Err(TcpError::TooBig))
                    &&& final(self).spec_phase() == ReadAllPhase::Done
                    &&& final(buffer)@ == old(buffer)@.subrange(0, old(self).valid_length() as int)
                } else {
                    &&& action == ReadAllAction::Read {
                        start: old(self).valid_length(),
                        end: c as usize,
                    }
                    &&& old(self).valid_length() < c <= old(self).valid_length()
                        + old(self).spec_chunk_size()
                    &&& final(self).spec_phase() == ReadAllPhase::Reading
                    &&& final(self).buffer_length() == c
                    &&& final(buffer)@.len() == c
                    &&& final(buffer)@.subrange(0, old(self).valid_length() as int) == old(
                        buffer,
                    )@.subrange(0, old(self).valid_length() as int)
                    &&& forall|i: int|
                        old(buffer)@.len() <= i < c ==> #[trigger] final(buffer)@[i] == 0u8
                }
            }),
    {
        if complete {
            buffer.truncate(self.valid_length);
            self.phase = ReadAllPhase::Done;
            ReadAllAction::Finish(Ok(()))
        } else {
            self.phase = ReadAllPhase::Sizing;
            self.size(buffer)
        }
    }
}

/// What the caller of a [`WriteAll`] has to do next.
#[derive(Debug)]
pub enum WriteAllAction {
    /// Write the data from `start` on and hand the outcome to
    /// [`WriteAll::written`].
    Write { start: usize },
    /// The write is over, with this result.
    Finish(Result<(), TcpError>),
}

/// The bookkeeping of a complete write: the data is written chunk by chunk,
/// each time from where the last chunk ended, until all of it is out, the
/// stream is closed, or a chunk write fails.
pub struct WriteAll {
    total: usize,
    written: usize,
    done: bool,
}

impl WriteAll {
    /// The length of the data.
    pub closed spec fn total(self) -> usize {
        self.total
    }

    /// How much of the data has been written.
    pub closed spec fn written_length(self) -> usize {
        self.written
    }

    /// Whether the write is over.
    pub closed spec fn is_done(self) -> bool {
        self.done
    }

    /// What has been written never runs beyond the data.
    pub open spec fn wf(self) -> bool {
        &&& self.written_length() <= self.total()
        &&& self.written_length() == self.total() && self.total() > 0 ==> self.is_done()
    }

    /// A complete write of `total` bytes; [`WriteAll::begin`] takes the first
    /// step.
    pub fn new(total: usize) -> (w: WriteAll)
        ensures
            w.wf(),
            w.total() == total,
            w.written_length() == 0,
            !w.is_done(),
    {
        WriteAll { total, written: 0, done: false }
    }

    /// The first step of the write: empty data is complete at once, so the
    /// write succeeds without writing anything; otherwise the first chunk
    /// starts at 0.
    pub fn begin(&mut self) -> (action: WriteAllAction)
        requires
            old(self).wf(),
            !old(self).is_done(),
            old(self).written_length() == 0,
        ensures
            final(self).wf(),
            final(self).total() == old(self).total(),
            final(self).written_length() == 0,
            old(self).total() == 0 ==> action == WriteAllAction::Finish(Ok(()))
                && final(self).is_done(),
            old(self).total() > 0 ==> action == (WriteAllAction::Write { start: 0 })
                && !final(self).is_done(),
    {
        if self.total == 0 {
            self.done = true;
            WriteAllAction::Finish(Ok(()))
        } else {
            WriteAllAction::Write { start: 0 }
        }
    }

    /// Whether the write is over.
    pub fn done(&self) -> (done: bool)
        ensures
            done == self.is_done(),
    {
        self.done
    }

    /// Takes the outcome of a chunk write. Bytes written move the start of
    /// the next chunk on; once all data is out, the write succeeds. Nothing
    /// written means that the stream was closed: the write fails with
    /// [`TcpError::Incomplete`]. A failed chunk write fails it with its error.
    pub fn written(&mut self, outcome: Result<usize, TcpError>) -> (action: WriteAllAction)
        requires
            old(self).wf(),
            !old(self).is_done(),
            outcome matches Ok(n) ==> n <= old(self).total() - old(self).written_length(),
        ensures
            final(self).wf(),
            final(self).total() == old(self).total(),
            match outcome {
                Ok(n) => if n == 0 {
                    &&& action == WriteAllAction::Finish(Err(TcpError::Incomplete))
                    &&& final(self).is_done()
                    &&& final(self).written_length() == old(self).written_length()
                } else {
                    &&& final(self).written_length() == old(self).written_length() + n
                    &&& final(self).written_length() == final(self).total() ==> action
                        == WriteAllAction::Finish(Ok(())) && final(self).is_done()
                    &&& final(self).written_length() < final(self).total() ==> action
                        == WriteAllAction::Write { start: final(self).written_length() }
                        && !final(self).is_done()
                },
                Err(e) => {
                    &&& action == WriteAllAction::Finish(Err(e))
                    &&& final(self).is_done()
                    &&& final(self).written_length() == old(self).written_length()
                },
            },
    {
        match outcome {
            Ok(count) => {
                if count == 0 {
                    self.done = true;
                    WriteAllAction::Finish(Err(TcpError::Incomplete))
                } else {
                    self.written = self.written + count;
                    if self.written == self.total {
                        self.done = true;
                        WriteAllAction::Finish(Ok(()))
                    } else {
                        WriteAllAction::Write { start: self.written }
                    }
                }
            },
            Err(error) => {
                self.done = true;
                WriteAllAction::Finish(Err(error))
            },
        }
    }
}

} // verus!
