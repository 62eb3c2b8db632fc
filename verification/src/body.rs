use vstd::prelude::*;

verus! {

/// The outgoing request body: a buffer of bytes together with how many of
/// them have already been handed to the wire. As with any reader, the end
/// counts as reached only once a read came back empty-handed — the wire
/// needs that final empty read to close a chunked transfer.
pub struct SendBody {
    data: Vec<u8>,
    pos: usize,
    eof: bool,
}

impl SendBody {
    /// The position never runs past the end of the buffer, and the end is
    /// observed only when nothing remains.
    pub closed spec fn wf(self) -> bool {
        &&& self.pos <= self.data@.len()
        &&& (self.eof ==> self.pos == self.data@.len())
    }

    /// The bytes not yet handed to the wire.
    pub closed spec fn remaining(self) -> Seq<u8> {
        self.data@.skip(self.pos as int)
    }

    pub closed spec fn spec_pos(self) -> int {
        self.pos as int
    }

    /// A read has come back empty: the body is known to be finished.
    pub closed spec fn eof_seen(self) -> bool {
        self.eof
    }

    pub fn new(data: Vec<u8>) -> (r: SendBody)
        ensures
            r.wf(),
            r.remaining() == data@,
            r.spec_pos() == 0,
            !r.eof_seen(),
    {
        let r = SendBody { data, pos: 0, eof: false };
        proof {
            assert(r.remaining() =~= r.data@);
        }
        r
    }

    pub fn is_ended(&self) -> (r: bool)
        ensures
            r == self.eof_seen(),
    {
        self.eof
    }

    /// Copy up to `limit` of the remaining bytes into the front of `out`
    /// without consuming them. Returns how many bytes were copied; the
    /// length of `out` and its bytes past the copied prefix are untouched.
    /// A call that finds nothing left to copy observes the end.
    pub fn fill(&mut self, out: &mut Vec<u8>, limit: usize) -> (n: usize)
        requires
            old(self).wf(),
        ensures
            final(self).wf(),
            n == min_usize(
                old(self).remaining().len() as int,
                min_usize(limit as int, old(out)@.len() as int),
            ),
            final(self).remaining() == old(self).remaining(),
            final(self).spec_pos() == old(self).spec_pos(),
            final(self).eof_seen() == (old(self).eof_seen() || old(self).remaining().len() == 0),
            final(out)@.len() == old(out)@.len(),
            forall|i: int| 0 <= i < n ==> final(out)@[i] == old(self).remaining()[i],
            forall|i: int| n <= i < final(out)@.len() ==> final(out)@[i] == old(out)@[i],
    {
        let cap = if limit <= out.len() {
            limit
        } else {
            out.len()
        };
        let avail = self.data.len() - self.pos;
        if avail == 0 {
            self.eof = true;
        }
        let n = if avail <= cap {
            avail
        } else {
            cap
        };
        let mut i: usize = 0;
        while i < n
            invariant
                self.wf(),
                self.remaining() == old(self).remaining(),
                self.spec_pos() == old(self).spec_pos(),
                self.eof_seen() == (old(self).eof_seen() || old(self).remaining().len() == 0),
                n <= self.remaining().len(),
                self.spec_pos() + n <= self.data@.len() <= usize::MAX,
                n <= out@.len(),
                i <= n,
                out@.len() == old(out)@.len(),
                forall|j: int| 0 <= j < i ==> out@[j] == self.remaining()[j],
                forall|j: int| i <= j < out@.len() ==> out@[j] == old(out)@[j],
            decreases n - i,
        {
            out[i] = self.data[self.pos + i];
            i = i + 1;
        }
        n
    }

    /// Consume `n` bytes: they have been handed to the wire.
    pub fn advance(&mut self, n: usize)
        requires
            old(self).wf(),
            n <= old(self).remaining().len(),
        ensures
            final(self).wf(),
            final(self).spec_pos() == old(self).spec_pos() + n,
            final(self).remaining() == old(self).remaining().skip(n as int),
            final(self).eof_seen() == old(self).eof_seen(),
    {
        let total = self.data.len();
        proof {
            assert(old(self).remaining().len() == total - self.pos);
        }
        self.pos = self.pos + n;
        proof {
            assert(self.remaining() =~= old(self).remaining().skip(n as int));
        }
    }
}

/// An observed end means nothing remains to send.
pub proof fn lemma_eof_empty(b: SendBody)
    requires
        b.wf(),
        b.eof_seen(),
    ensures
        b.remaining().len() == 0,
{
}

/// The smaller of two values.
pub open spec fn min_usize(a: int, b: int) -> int {
    if a <= b {
        a
    } else {
        b
    }
}

} // verus!
