//! A cursor over the raw fuzz input: the pass-through entropy source of the
//! deterministic generator.
//!
//! Bytes are consumed monotonically, front to back, with no hashing or
//! expansion: every generated choice maps directly to the bytes it was read
//! from, so that identical inputs always drive identical generation.

use vstd::prelude::*;
use vstd::slice::slice_to_vec;

verus! {

/// What reading one byte at `pos` yields: the byte and the position after it,
/// or nothing when the input is exhausted.
pub open spec fn spec_take_u8(bytes: Seq<u8>, pos: int) -> Option<(u8, int)> {
    if 0 <= pos && pos + 1 <= bytes.len() {
        Some((bytes[pos], pos + 1))
    } else {
        None
    }
}

/// The big-endian value of eight bytes.
pub open spec fn be_u64_value(s: Seq<u8>) -> int
    recommends
        s.len() == 8,
{
    (s[0] as int) * 0x100_0000_0000_0000 + (s[1] as int) * 0x1_0000_0000_0000 + (s[2] as int)
        * 0x100_0000_0000 + (s[3] as int) * 0x1_0000_0000 + (s[4] as int) * 0x100_0000 + (
    s[5] as int) * 0x1_0000 + (s[6] as int) * 0x100 + (s[7] as int)
}

/// What reading one big-endian `u64` at `pos` yields.
pub open spec fn spec_take_u64(bytes: Seq<u8>, pos: int) -> Option<(u64, int)> {
    if 0 <= pos && pos + 8 <= bytes.len() {
        Some(((be_u64_value(bytes.subrange(pos, pos + 8)) as u64), pos + 8))
    } else {
        None
    }
}

/// What reading `n` raw bytes at `pos` yields.
pub open spec fn spec_take_bytes(bytes: Seq<u8>, pos: int, n: int) -> Option<(Seq<u8>, int)> {
    if 0 <= pos && 0 <= n && pos + n <= bytes.len() {
        Some((bytes.subrange(pos, pos + n), pos + n))
    } else {
        None
    }
}

/// A monotone cursor over one fuzz input. The input is owned by the cursor,
/// never mutated, and never reused across harness invocations.
pub struct ByteCursor {
    data: Vec<u8>,
    pos: usize,
}

impl ByteCursor {
    /// The whole input this cursor walks over.
    pub closed spec fn bytes(self) -> Seq<u8> {
        self.data@
    }

    /// How many bytes have been consumed so far.
    pub closed spec fn pos(self) -> int {
        self.pos as int
    }

    /// The cursor never points past the end of its input.
    pub open spec fn wf(self) -> bool {
        0 <= self.pos() <= self.bytes().len()
    }

    /// A fresh cursor at the start of the given input.
    pub fn new(data: &[u8]) -> (c: ByteCursor)
        ensures
            c.wf(),
            c.bytes() == data@,
            c.pos() == 0,
    {
        ByteCursor { data: slice_to_vec(data), pos: 0 }
    }

    /// Consume one byte; on exhaustion, report failure and stay in place.
    pub fn take_u8(&mut self) -> (r: Option<u8>)
        requires
            old(self).wf(),
        ensures
            final(self).wf(),
            final(self).bytes() == old(self).bytes(),
            (match spec_take_u8(old(self).bytes(), old(self).pos()) {
                Some(p) => r == Some(p.0) && final(self).pos() == p.1,
                None => r is None && final(self).pos() == old(self).pos(),
            }),
    {
        if self.pos < self.data.len() {
            let b = self.data[self.pos];
            self.pos = self.pos + 1;
            Some(b)
        } else {
            None
        }
    }

    /// Consume eight bytes as one big-endian `u64`; on exhaustion, report
    /// failure and stay in place.
    pub fn take_u64(&mut self) -> (r: Option<u64>)
        requires
            old(self).wf(),
        ensures
            final(self).wf(),
            final(self).bytes() == old(self).bytes(),
            (match spec_take_u64(old(self).bytes(), old(self).pos()) {
                Some(p) => r == Some(p.0) && final(self).pos() == p.1,
                None => r is None && final(self).pos() == old(self).pos(),
            }),
    {
        if self.data.len() - self.pos >= 8 {
            let b0 = self.data[self.pos] as u64;
            let b1 = self.data[self.pos + 1] as u64;
            let b2 = self.data[self.pos + 2] as u64;
            let b3 = self.data[self.pos + 3] as u64;
            let b4 = self.data[self.pos + 4] as u64;
            let b5 = self.data[self.pos + 5] as u64;
            let b6 = self.data[self.pos + 6] as u64;
            let b7 = self.data[self.pos + 7] as u64;
            let v = b0 * 0x100_0000_0000_0000 + b1 * 0x1_0000_0000_0000 + b2 * 0x100_0000_0000
                + b3 * 0x1_0000_0000 + b4 * 0x100_0000 + b5 * 0x1_0000 + b6 * 0x100 + b7;
            proof {
                let s = self.data@.subrange(self.pos as int, self.pos + 8);
                assert(s[0] == self.data@[self.pos as int]);
                assert(s[1] == self.data@[self.pos + 1]);
                assert(s[2] == self.data@[self.pos + 2]);
                assert(s[3] == self.data@[self.pos + 3]);
                assert(s[4] == self.data@[self.pos + 4]);
                assert(s[5] == self.data@[self.pos + 5]);
                assert(s[6] == self.data@[self.pos + 6]);
                assert(s[7] == self.data@[self.pos + 7]);
                assert(v == be_u64_value(s));
            }
            self.pos = self.pos + 8;
            Some(v)
        } else {
            None
        }
    }

    /// Consume exactly `n` raw bytes; on exhaustion, report failure and stay
    /// in place.
    pub fn take_bytes(&mut self, n: usize) -> (r: Option<Vec<u8>>)
        requires
            old(self).wf(),
        ensures
            final(self).wf(),
            final(self).bytes() == old(self).bytes(),
            (match spec_take_bytes(old(self).bytes(), old(self).pos(), n as int) {
                Some(p) => r matches Some(v) && v@ == p.0 && final(self).pos() == p.1,
                None => r is None && final(self).pos() == old(self).pos(),
            }),
    {
        if n <= self.data.len() - self.pos {
            let mut out: Vec<u8> = Vec::new();
            let mut i: usize = 0;
            while i < n
                invariant
                    i <= n,
                    self.wf(),
                    self.pos + n <= self.data@.len(),
                    self.pos + n <= usize::MAX,
                    out@ == self.data@.subrange(self.pos as int, self.pos + i),
                decreases n - i,
            {
                out.push(self.data[self.pos + i]);
                proof {
                    assert(out@ =~= self.data@.subrange(self.pos as int, self.pos + i + 1));
                }
                i = i + 1;
            }
            self.pos = self.pos + n;
            Some(out)
        } else {
            None
        }
    }
}

} // verus!
