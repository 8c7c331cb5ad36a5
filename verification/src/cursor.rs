//! A forward-only cursor over one input line.
//!
//! A key codec and a value codec consume disjoint slices of the same line:
//! the key takes a prefix, the value the remainder. The cursor makes the
//! consumption point explicit.

use vstd::prelude::*;
use vstd::slice::slice_subrange;

verus! {

/// Index of the first occurrence of `t` in `s`, or `-1` if absent.
pub open spec fn first_term_index(s: Seq<u8>, t: u8) -> int
    decreases s.len(),
{
    if s.len() == 0 {
        -1
    } else if s[0] == t {
        0
    } else {
        let r = first_term_index(s.skip(1), t);
        if r < 0 {
            -1
        } else {
            r + 1
        }
    }
}

/// What a terminator-delimited read takes from the front of `s`: the bytes
/// before the first `t`, or all of `s` when `t` is absent.
pub open spec fn taken_before_terminator(s: Seq<u8>, t: u8) -> Seq<u8> {
    let i = first_term_index(s, t);
    if i < 0 {
        s
    } else {
        s.take(i)
    }
}

/// What such a read leaves behind: the bytes after the first `t`, or
/// nothing when `t` is absent.
pub open spec fn rest_after_terminator(s: Seq<u8>, t: u8) -> Seq<u8> {
    let i = first_term_index(s, t);
    if i < 0 {
        Seq::empty()
    } else {
        s.skip(i + 1)
    }
}

/// Conversely, a scan that finds `t` first at index `k` pins
/// `first_term_index` to `k`, and a scan that never finds it pins it to
/// `-1`.
pub proof fn lemma_first_term_index_from_scan(s: Seq<u8>, t: u8, k: int)
    requires
        0 <= k <= s.len(),
        forall|j: int| 0 <= j < k ==> s[j] != t,
        k < s.len() ==> s[k] == t,
    ensures
        k < s.len() ==> first_term_index(s, t) == k,
        k == s.len() ==> first_term_index(s, t) == -1,
    decreases s.len(),
{
    if s.len() == 0 {
    } else if s[0] == t {
        assert(k == 0);
    } else {
        assert(k >= 1);
        assert forall|j: int| 0 <= j < k - 1 implies s.skip(1)[j] != t by {
            assert(s.skip(1)[j] == s[j + 1]);
        }
        assert(k - 1 < s.skip(1).len() ==> s.skip(1)[k - 1] == t);
        lemma_first_term_index_from_scan(s.skip(1), t, k - 1);
    }
}

/// A line `p + [t] + q` whose prefix `p` is free of `t` splits back into
/// exactly `p` and `q`.
pub proof fn lemma_split_of_joined(p: Seq<u8>, q: Seq<u8>, t: u8)
    requires
        !p.contains(t),
    ensures
        taken_before_terminator(p + seq![t] + q, t) == p,
        rest_after_terminator(p + seq![t] + q, t) == q,
{
    let line = p + seq![t] + q;
    assert forall|j: int| 0 <= j < p.len() implies line[j] != t by {
        assert(line[j] == p[j]);
        assert(!p.contains(t));
    }
    assert(line[p.len() as int] == t);
    lemma_first_term_index_from_scan(line, t, p.len() as int);
    assert(line.take(p.len() as int) =~= p);
    assert(line.skip(p.len() as int + 1) =~= q);
}

/// A forward-only cursor over one input line: the bytes of the line and the
/// position of the next unconsumed byte.
pub struct ByteCursor {
    buf: Vec<u8>,
    pos: usize,
}

impl ByteCursor {
    /// The bytes not yet consumed.
    pub closed spec fn remaining(&self) -> Seq<u8> {
        self.buf@.skip(self.pos as int)
    }

    /// The whole line the cursor was built over.
    pub closed spec fn line(&self) -> Seq<u8> {
        self.buf@
    }

    /// The cursor is well formed: the position never passes the end.
    pub closed spec fn wf(&self) -> bool {
        self.pos <= self.buf@.len()
    }

    /// Builds a cursor at the start of a line.
    pub fn new(line: Vec<u8>) -> (r: ByteCursor)
        ensures
            r.wf(),
            r.line() == line@,
            r.remaining() == line@,
    {
        let r = ByteCursor { buf: line, pos: 0 };
        proof {
            assert(r.buf@.skip(0) =~= r.buf@);
        }
        r
    }

    /// True when nothing is left to consume.
    pub fn is_empty(&self) -> (r: bool)
        requires
            self.wf(),
        ensures
            r == (self.remaining().len() == 0),
    {
        self.pos == self.buf.len()
    }

    /// Consumes and returns everything that is left.
    pub fn take_rest(&mut self) -> (r: Vec<u8>)
        requires
            old(self).wf(),
        ensures
            final(self).wf(),
            r@ == old(self).remaining(),
            final(self).remaining().len() == 0,
            final(self).line() == old(self).line(),
    {
        let mut out: Vec<u8> = Vec::new();
        let mut i: usize = self.pos;
        while i < self.buf.len()
            invariant
                self.pos <= i <= self.buf@.len(),
                out@ == self.buf@.subrange(self.pos as int, i as int),
            decreases self.buf@.len() - i,
        {
            out.push(self.buf[i]);
            proof {
                assert(out@ =~= self.buf@.subrange(self.pos as int, i + 1));
            }
            i = i + 1;
        }
        proof {
            assert(self.buf@.subrange(self.pos as int, self.buf@.len() as int) =~= self.buf@.skip(
                self.pos as int,
            ));
        }
        self.pos = self.buf.len();
        proof {
            assert(self.buf@.skip(self.buf@.len() as int) =~= Seq::<u8>::empty());
        }
        out
    }

    /// Consumes bytes up to and including the first occurrence of the
    /// terminator, or everything when the terminator is absent; returns the
    /// consumed bytes with the terminator stripped.
    pub fn take_until(&mut self, t: u8) -> (r: Vec<u8>)
        requires
            old(self).wf(),
        ensures
            final(self).wf(),
            r@ == taken_before_terminator(old(self).remaining(), t),
            final(self).remaining() == rest_after_terminator(old(self).remaining(), t),
            final(self).line() == old(self).line(),
    {
        let ghost rem = self.remaining();
        let start = self.pos;
        let mut i: usize = self.pos;
        while i < self.buf.len() && self.buf[i] != t
            invariant
                start <= i <= self.buf@.len(),
                start == self.pos <= self.buf@.len(),
                forall|j: int| start <= j < i ==> self.buf@[j] != t,
            decreases self.buf@.len() - i,
        {
            i = i + 1;
        }
        proof {
            assert forall|j: int| 0 <= j < i - start implies rem[j] != t by {
                assert(rem[j] == self.buf@[start + j]);
            }
            if i < self.buf@.len() {
                assert(rem[i - start] == self.buf@[i as int]);
            }
            lemma_first_term_index_from_scan(rem, t, i - start);
        }
        let mut out: Vec<u8> = Vec::new();
        let mut k: usize = start;
        while k < i
            invariant
                start <= k <= i <= self.buf@.len(),
                out@ == self.buf@.subrange(start as int, k as int),
            decreases i - k,
        {
            out.push(self.buf[k]);
            proof {
                assert(out@ =~= self.buf@.subrange(start as int, k + 1));
            }
            k = k + 1;
        }
        if i < self.buf.len() {
            // terminator found: consume it, too
            self.pos = i + 1;
            proof {
                assert(out@ =~= rem.take(i - start));
                assert(self.buf@.skip(i + 1) =~= rem.skip(i - start + 1));
            }
        } else {
            self.pos = i;
            proof {
                assert(out@ =~= rem);
                assert(self.buf@.skip(i as int) =~= Seq::<u8>::empty());
            }
        }
        out
    }

    /// Skips `n` consumed bytes, as reported by a structured decoder that
    /// read them from the front of the remainder.
    pub fn advance(&mut self, n: usize)
        requires
            old(self).wf(),
            n <= old(self).remaining().len(),
        ensures
            final(self).wf(),
            final(self).remaining() == old(self).remaining().skip(n as int),
            final(self).line() == old(self).line(),
    {
        let len = self.buf.len();
        self.pos = self.pos + n;
        proof {
            assert(self.buf@.skip(self.pos as int) =~= old(self).remaining().skip(n as int));
        }
    }

    /// The not-yet-consumed bytes, read without consuming them.
    pub fn peek_rest(&self) -> (r: &[u8])
        requires
            self.wf(),
        ensures
            r@ == self.remaining(),
    {
        slice_subrange(self.buf.as_slice(), self.pos, self.buf.len())
    }
}

} // verus!
