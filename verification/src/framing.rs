//! Line framing over a raw byte stream.
//!
//! Bytes arrive in arbitrary chunks; the framer accumulates them until a
//! line feed, emits the accumulated bytes as one line (without the
//! terminator), and resets. A trailing partial line is flushed explicitly
//! when the stream ends. The contract is an exact conservation law: the
//! emitted lines, each with its line feed restored, followed by the bytes
//! still pending, are precisely the bytes fed in.

use vstd::prelude::*;

verus! {

/// No line feed anywhere: the defining property of an emitted line and of
/// the pending remainder.
pub open spec fn line_free(s: Seq<u8>) -> bool {
    forall|i: int| 0 <= i < s.len() ==> s[i] != 10
}

/// Every emitted line is free of line feeds.
pub open spec fn lines_wf(ls: Seq<Seq<u8>>) -> bool {
    forall|i: int| 0 <= i < ls.len() ==> line_free(#[trigger] ls[i])
}

/// The lines put back together, each with its terminating line feed.
pub open spec fn joined_lines(ls: Seq<Seq<u8>>) -> Seq<u8>
    decreases ls.len(),
{
    if ls.len() == 0 {
        Seq::empty()
    } else {
        ls[0].push(10) + joined_lines(ls.skip(1))
    }
}

/// Appending a line to the decomposition appends its bytes and terminator
/// to the reassembled stream.
pub proof fn lemma_joined_lines_push(ls: Seq<Seq<u8>>, l: Seq<u8>)
    ensures
        joined_lines(ls.push(l)) == joined_lines(ls) + l.push(10),
    decreases ls.len(),
{
    if ls.len() == 0 {
        assert(ls.push(l).skip(1) =~= Seq::<Seq<u8>>::empty());
        assert(ls.push(l)[0] == l);
        assert(l.push(10) + joined_lines(Seq::<Seq<u8>>::empty()) =~= joined_lines(ls) + l.push(
            10,
        ));
    } else {
        assert(ls.push(l).skip(1) =~= ls.skip(1).push(l));
        lemma_joined_lines_push(ls.skip(1), l);
        assert(ls.push(l)[0] == ls[0]);
        assert(ls[0].push(10) + (joined_lines(ls.skip(1)) + l.push(10)) =~= (ls[0].push(10)
            + joined_lines(ls.skip(1))) + l.push(10));
    }
}

/// Accumulates bytes of one stream until each line feed.
pub struct LineFramer {
    partial: Vec<u8>,
}

impl LineFramer {
    /// The bytes received since the last line feed, still awaiting one.
    pub closed spec fn pending(&self) -> Seq<u8> {
        self.partial@
    }

    /// The pending bytes never include a line feed.
    pub open spec fn wf(&self) -> bool {
        line_free(self.pending())
    }

    /// How many bytes are pending.
    pub fn pending_len(&self) -> (n: usize)
        ensures
            n == self.pending().len(),
    {
        self.partial.len()
    }

    /// A framer with nothing pending.
    pub fn new() -> (r: LineFramer)
        ensures
            r.wf(),
            r.pending() == Seq::<u8>::empty(),
    {
        LineFramer { partial: Vec::new() }
    }

    /// Feed one chunk of bytes; emit every line it completes, in stream
    /// order. Conservation: the emitted lines (terminators restored)
    /// followed by the new pending bytes are the old pending bytes followed
    /// by the chunk.
    pub fn push(&mut self, chunk: &[u8]) -> (lines: Vec<Vec<u8>>)
        requires
            old(self).wf(),
        ensures
            final(self).wf(),
            lines_wf(lines.deep_view()),
            joined_lines(lines.deep_view()) + final(self).pending() == old(self).pending()
                + chunk@,
    {
        let ghost pending0 = self.partial@;
        let mut lines: Vec<Vec<u8>> = Vec::new();
        let n = chunk.len();
        for k in 0..n
            invariant
                n == chunk@.len(),
                lines_wf(lines.deep_view()),
                line_free(self.partial@),
                joined_lines(lines.deep_view()) + self.partial@ == pending0 + chunk@.subrange(
                    0,
                    k as int,
                ),
        {
            let ghost lines_pre = lines.deep_view();
            let ghost partial_pre = self.partial@;
            let b = chunk[k];
            proof {
                assert(chunk@.subrange(0, k + 1) =~= chunk@.subrange(0, k as int).push(b));
            }
            if b == 10 {
                let mut line: Vec<u8> = Vec::new();
                core::mem::swap(&mut self.partial, &mut line);
                lines.push(line);
                proof {
                    assert(lines.deep_view() =~~= lines_pre.push(partial_pre));
                    lemma_joined_lines_push(lines_pre, partial_pre);
                    assert(joined_lines(lines.deep_view()) + self.partial@ =~= (joined_lines(
                        lines_pre,
                    ) + partial_pre).push(10));
                    assert(pending0 + chunk@.subrange(0, k + 1) =~= (pending0 + chunk@.subrange(
                        0,
                        k as int,
                    )).push(10));
                }
            } else {
                self.partial.push(b);
                proof {
                    assert(joined_lines(lines.deep_view()) + self.partial@ =~= (joined_lines(
                        lines_pre,
                    ) + partial_pre).push(b));
                    assert(pending0 + chunk@.subrange(0, k + 1) =~= (pending0 + chunk@.subrange(
                        0,
                        k as int,
                    )).push(b));
                }
            }
        }
        proof {
            assert(chunk@.subrange(0, n as int) =~= chunk@);
        }
        lines
    }

    /// End of stream: hand back the trailing partial line, if any, to be
    /// emitted as a final line; afterwards nothing is pending.
    pub fn finish(&mut self) -> (r: Option<Vec<u8>>)
        requires
            old(self).wf(),
        ensures
            final(self).wf(),
            final(self).pending() == Seq::<u8>::empty(),
            old(self).pending().len() == 0 ==> r is None,
            old(self).pending().len() > 0 ==> (r matches Some(v) && v@ == old(self).pending()),
    {
        if self.partial.len() == 0 {
            None
        } else {
            let mut line: Vec<u8> = Vec::new();
            core::mem::swap(&mut self.partial, &mut line);
            Some(line)
        }
    }
}

} // verus!
