//! The tokens that tell the readiness events of registered sockets apart.
use vstd::prelude::*;

verus! {

/// The token reserved for the wake-up that cancels pending operations; no
/// socket gets it.
pub const SHUTDOWN_TOKEN: usize = usize::MAX;

/// The token that a counter standing at `next` hands out.
pub open spec fn spec_token(next: usize) -> usize {
    if next == SHUTDOWN_TOKEN {
        0
    } else {
        next
    }
}

/// Hands out tokens in increasing order, skipping [`SHUTDOWN_TOKEN`] and
/// wrapping around past the largest value.
#[derive(Clone, Copy, Debug)]
pub struct TokenCounter {
    next: usize,
}

impl TokenCounter {
    /// Where the counter stands.
    pub closed spec fn spec_next(self) -> usize {
        self.next
    }

    /// A counter that starts at 0.
    pub fn new() -> (counter: TokenCounter)
        ensures
            counter.spec_next() == 0,
    {
        TokenCounter { next: 0 }
    }

    /// The next token: never [`SHUTDOWN_TOKEN`]; the counter moves past it.
    pub fn token(&mut self) -> (token: usize)
        ensures
            token != SHUTDOWN_TOKEN,
            token == spec_token(old(self).spec_next()),
            final(self).spec_next() == token + 1,
    {
        loop
            invariant_except_break
                self.next == old(self).next || (old(self).next == SHUTDOWN_TOKEN && self.next == 0),
            ensures
                self.next == spec_token(old(self).next) + 1,
                spec_token(old(self).next) != SHUTDOWN_TOKEN,
            decreases (if self.next == SHUTDOWN_TOKEN { 1int } else { 0int }),
        {
            let token = self.next;
            self.next = if token == usize::MAX { 0 } else { token + 1 };
            if token != SHUTDOWN_TOKEN {
                return token;
            }
        }
    }
}

/// Two tokens handed out one after the other differ.
pub proof fn lemma_successive_tokens_differ(next: usize)
    ensures
        spec_token((spec_token(next) + 1) as usize) != spec_token(next),
{
}

/// Where a counter fresh from [`TokenCounter::new`] stands after handing out
/// `count` tokens.
pub open spec fn next_after(count: nat) -> usize
    decreases count,
{
    if count == 0 {
        0
    } else {
        (spec_token(next_after((count - 1) as nat)) + 1) as usize
    }
}

/// The token that a fresh counter hands out on its call number `index`
/// (counting from 0).
pub open spec fn nth_token(index: nat) -> usize {
    spec_token(next_after(index))
}

/// A fresh counter hands out 0, 1, 2, ...: its call number `index` gives the
/// token `index`, as long as `index` is below [`SHUTDOWN_TOKEN`].
pub proof fn lemma_fresh_tokens(index: nat)
    requires
        index < SHUTDOWN_TOKEN,
    ensures
        next_after(index) == index,
        nth_token(index) == index,
    decreases index,
{
    if index > 0 {
        lemma_fresh_tokens((index - 1) as nat);
    }
}

/// The tokens that a fresh counter hands out on its first [`SHUTDOWN_TOKEN`]
/// calls are pairwise distinct, and none is [`SHUTDOWN_TOKEN`].
pub proof fn lemma_fresh_tokens_distinct(i: nat, j: nat)
    requires
        i < j < SHUTDOWN_TOKEN,
    ensures
        nth_token(i) != nth_token(j),
        nth_token(i) != SHUTDOWN_TOKEN,
        nth_token(j) != SHUTDOWN_TOKEN,
{
    lemma_fresh_tokens(i);
    lemma_fresh_tokens(j);
}

} // verus!
