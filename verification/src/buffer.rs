//! A growing receive buffer with a length limit.
use vstd::prelude::*;

use crate::error::{io_error, IoErrorKind, IoFailure};

verus! {

/// The data after committing the first `additional` bytes of `spare` to
/// `data` under `limit`: unchanged where that would go beyond the limit,
/// otherwise followed by those bytes.
pub open spec fn commit_result(data: Seq<u8>, spare: Seq<u8>, additional: int, limit: int) -> Seq<
    u8,
> {
    if additional > 0 && data.len() + additional > limit {
        data
    } else {
        data + spare.subrange(0, additional)
    }
}

/// The data after a sequence of commits, each given by the scratch area at
/// the time of the commit and the number of bytes committed.
pub open spec fn after_commits(data: Seq<u8>, commits: Seq<(Seq<u8>, nat)>, limit: nat) -> Seq<u8>
    decreases commits.len(),
{
    if commits.len() == 0 {
        data
    } else {
        commit_result(
            after_commits(data, commits.drop_last(), limit),
            commits.last().0,
            commits.last().1 as int,
            limit as int,
        )
    }
}

/// The bytes that a sequence of commits appends, in commit order: those of
/// each commit that stays within the limit.
pub open spec fn committed_bytes(data: Seq<u8>, commits: Seq<(Seq<u8>, nat)>, limit: nat) -> Seq<
    u8,
>
    decreases commits.len(),
{
    if commits.len() == 0 {
        Seq::empty()
    } else {
        let before = after_commits(data, commits.drop_last(), limit);
        let earlier = committed_bytes(data, commits.drop_last(), limit);
        let (spare, additional) = commits.last();
        if additional > 0 && before.len() + additional > limit {
            earlier
        } else {
            earlier + spare.subrange(0, additional as int)
        }
    }
}

/// Over any sequence of commits, the data are the data that the manager
/// started with, followed by the committed bytes in commit order, and they
/// grow no longer than the limit (unless they started longer).
pub proof fn lemma_commit_sequence(data: Seq<u8>, commits: Seq<(Seq<u8>, nat)>, limit: nat)
    requires
        forall|i: int| 0 <= i < commits.len() ==> #[trigger] commits[i].1 <= commits[i].0.len(),
    ensures
        after_commits(data, commits, limit) == data + committed_bytes(data, commits, limit),
        after_commits(data, commits, limit).len() <= if data.len() <= limit {
            limit as int
        } else {
            data.len() as int
        },
    decreases commits.len(),
{
    if commits.len() > 0 {
        let prefix = commits.drop_last();
        assert forall|i: int| 0 <= i < prefix.len() implies #[trigger] prefix[i].1
            <= prefix[i].0.len() by {
            assert(prefix[i] == commits[i]);
        }
        lemma_commit_sequence(data, prefix, limit);
        let last = commits.last();
        assert(last == commits[commits.len() - 1]);
        let before = after_commits(data, prefix, limit);
        let earlier = committed_bytes(data, prefix, limit);
        if last.1 > 0 && before.len() + last.1 > limit {
        } else {
            assert(data + (earlier + last.0.subrange(0, last.1 as int)) == (data + earlier)
                + last.0.subrange(0, last.1 as int));
        }
    }
}

/// A receive buffer that data is appended to through a scratch area, never
/// beyond a limit on its total length.
pub struct BufferManager<'a> {
    buffer: &'a mut Vec<u8>,
    spare: Vec<u8>,
    limit: usize,
}

impl<'a> BufferManager<'a> {
    /// The data in the buffer.
    pub closed spec fn data(self) -> Seq<u8> {
        self.buffer@
    }

    /// The buffer that the manager appends to.
    pub closed spec fn target(self) -> &'a mut Vec<u8> {
        self.buffer
    }

    /// The scratch area that the next chunk is written into.
    pub closed spec fn spare(self) -> Seq<u8> {
        self.spare@
    }

    /// The limit of the total length.
    pub closed spec fn limit(self) -> usize {
        self.limit
    }

    /// Manages `buffer`, whose total length may not go beyond `limit` (no
    /// limit where `None`).
    pub fn from(buffer: &'a mut Vec<u8>, limit: Option<usize>) -> (m: Self)
        requires
            limit matches Some(l) ==> l > 0,
        ensures
            m.data() == old(buffer)@,
            *final(buffer) == *final(m.target()),
            m.spare().len() == 0,
            m.limit() == match limit {
                Some(l) => l,
                None => usize::MAX,
            },
    {
        let limit = match limit {
            Some(l) => l,
            None => usize::MAX,
        };
        BufferManager { buffer, spare: Vec::new(), limit }
    }

    /// The data in the buffer.
    pub fn valid_data(&self) -> (data: &[u8])
        ensures
            data@ == self.data(),
    {
        self.buffer.as_slice()
    }

    /// Makes room for at least `min_length` bytes in the scratch area and
    /// hands it out; what is written into it lands there.
    pub fn alloc_spare_buffer(&mut self, min_length: usize) -> (spare: &mut [u8])
        requires
            min_length > 0,
        ensures
            final(self).data() == old(self).data(),
            final(self).limit() == old(self).limit(),
            *final(final(self).target()) == *final(old(self).target()),
            spare@.len() >= min_length,
            spare@.len() == if old(self).spare().len() < min_length {
                min_length as int
            } else {
                old(self).spare().len() as int
            },
            final(self).spare() == final(spare)@,
    {
        if self.spare.len() < min_length {
            self.spare.resize(min_length, 0);
        }
        self.spare.as_mut_slice()
    }

    /// Appends the first `additional` bytes of the scratch area to the data,
    /// unless the data would then go beyond the limit: that fails with an
    /// `OutOfMemory` failure and leaves the data and the scratch area as they
    /// are. The bytes committed must have been made room for only where the
    /// commit stays within the limit.
    pub fn commit(&mut self, additional: usize) -> (result: Result<(), IoFailure>)
        requires
            additional > 0 && old(self).data().len() + additional <= old(self).limit()
                ==> additional <= old(self).spare().len(),
            old(self).data().len() + additional <= usize::MAX,
        ensures
            final(self).limit() == old(self).limit(),
            *final(final(self).target()) == *final(old(self).target()),
            result is Err <==> additional > 0 && old(self).data().len() + additional > old(
                self,
            ).limit(),
            result matches Err(failure) ==> failure.kind == IoErrorKind::OutOfMemory,
            final(self).data() == commit_result(
                old(self).data(),
                old(self).spare(),
                additional as int,
                old(self).limit() as int,
            ),
            result is Err ==> final(self).spare() == old(self).spare(),
    {
        if additional > 0 {
            let new_length = self.buffer.len() + additional;
            if new_length <= self.limit {
                let mut i: usize = 0;
                while i < additional
                    invariant
                        i <= additional,
                        additional <= self.spare@.len(),
                        self.buffer@ == old(self).data() + self.spare@.subrange(0, i as int),
                        self.spare@ == old(self).spare(),
                        self.limit == old(self).limit(),
                        *final(self.buffer) == *final(old(self).target()),
                    decreases additional - i,
                {
                    let byte = self.spare[i];
                    self.buffer.push(byte);
                    i = i + 1;
                    assert(self.spare@.subrange(0, i as int) == self.spare@.subrange(0, i - 1)
                        + seq![byte]);
                }
                self.spare.clear();
            } else {
                let kind = IoErrorKind::OutOfMemory;
                return Err(IoFailure { kind, error: io_error(kind, "New length exceeds the limit!") });
            }
        }
        assert(old(self).spare().subrange(0, 0) =~= Seq::<u8>::empty());
        Ok(())
    }
}

} // verus!
