//! One-pass streams of scalar runtime values.
//!
//! When a constraint is negotiated as a list/membership test handled
//! whole, the runtime value the engine binds for that argument position at
//! `filter` time is not a single scalar but a lazy, finite sequence of
//! scalars: consumed front to back, one pass, not restartable. This module
//! models that sequence and proves that draining it observes every value
//! exactly once, in order.

use vstd::prelude::*;

verus! {

/// A lazy, one-pass, finite sequence of scalar values, as the engine
/// hands it to `filter` for a membership test handled whole.
pub struct ValueStream {
    values: Vec<i64>,
    pos: usize,
}

impl ValueStream {
    /// The read position never stands past the end of the underlying
    /// values.
    #[verifier::type_invariant]
    spec fn inv(self) -> bool {
        self.pos <= self.values@.len()
    }

    /// The values not yet consumed, front first.
    pub closed spec fn remaining(self) -> Seq<i64> {
        self.values@.skip(self.pos as int)
    }

    /// A fresh stream over the given values.
    pub fn new(values: Vec<i64>) -> (s: ValueStream)
        ensures
            s.remaining() == values@,
    {
        let s = ValueStream { values, pos: 0 };
        proof {
            assert(s.remaining() =~= s.values@);
        }
        s
    }

    /// How many values are still to come.
    pub fn remaining_len(&self) -> (n: usize)
        ensures
            n == self.remaining().len(),
    {
        proof {
            use_type_invariant(&*self);
        }
        self.values.len() - self.pos
    }

    /// Consume and return the next value, or `None` once the stream is
    /// exhausted. Each value comes out exactly once, in order; there is
    /// no way back.
    pub fn next(&mut self) -> (r: Option<i64>)
        ensures
            old(self).remaining().len() == 0 ==> r is None
                && final(self).remaining() == old(self).remaining(),
            old(self).remaining().len() > 0 ==> r == Some(old(self).remaining()[0])
                && final(self).remaining() == old(self).remaining().skip(1),
    {
        proof {
            use_type_invariant(&*self);
        }
        if self.pos < self.values.len() {
            let v = self.values[self.pos];
            self.pos = self.pos + 1;
            proof {
                assert(self.remaining() =~= old(self).remaining().skip(1));
            }
            Some(v)
        } else {
            None
        }
    }
}

/// Drain a membership stream completely. The result is precisely the
/// sequence the stream still held: every value observed exactly once, in
/// order, with no repeats — what a `filter` implementation relies on when
/// it enumerates a membership set.
pub fn collect_values(s: &mut ValueStream) -> (out: Vec<i64>)
    ensures
        final(s).remaining().len() == 0,
        out@ == old(s).remaining(),
{
    let n = s.remaining_len();
    let mut out: Vec<i64> = Vec::new();
    let mut i: usize = 0;
    proof {
        assert(out@ + s.remaining() =~= old(s).remaining());
    }
    while i < n
        invariant
            i <= n,
            s.remaining().len() == n - i,
            out@.len() == i,
            out@ + s.remaining() == old(s).remaining(),
        decreases n - i,
    {
        let r = s.next();
        match r {
            Some(v) => {
                out.push(v);
            },
            None => {
                proof {
                    assert(false);
                }
            },
        }
        i = i + 1;
        proof {
            assert(out@ + s.remaining() =~= old(s).remaining());
        }
    }
    proof {
        assert(out@ =~= old(s).remaining());
    }
    out
}

} // verus!
