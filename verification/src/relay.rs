//! The stream relay: turning the raw bytes read from one captured stream of
//! a session's process into `Output` events on the session's channel.
//!
//! Each of the two captured streams has its own framer and is relayed
//! independently; events of the two streams may interleave in any order on
//! the channel, but within one stream, line order is preserved end-to-end.

use vstd::prelude::*;
use vstd::utf8::{decode_utf8, valid_utf8};
use crate::events::{Event, StreamKind};
use crate::framing::{LineFramer, joined_lines, lemma_joined_lines_push, lines_wf};
use crate::registry::{SessionRegistry, agrees_on};

verus! {

/// What `String::from_utf8_lossy` yields, as a pure function of the bytes.
pub uninterp spec fn utf8_lossy_of(b: Seq<u8>) -> Seq<char>;

/// Relies on `String::from_utf8_lossy`: the result depends on the bytes
/// alone; valid UTF-8 decodes to exactly its own characters; no characters
/// come from no bytes.
#[verifier::external_body]
fn bytes_to_text(line: &Vec<u8>) -> (r: String)
    ensures
        r@ == utf8_lossy_of(line@),
        valid_utf8(line@) ==> r@ == decode_utf8(line@),
        line@.len() == 0 ==> r@.len() == 0,
{
    String::from_utf8_lossy(line.as_slice()).into_owned()
}

/// `e` is the `Output` event carrying line `l` of stream `stream`.
pub open spec fn is_output_of(e: Event, stream: StreamKind, l: Seq<u8>) -> bool {
    &&& e matches Event::Output { stream: s, text } && s == stream && text@ == utf8_lossy_of(l)
}

/// Reassembling at least one byte per line: a decomposition never has more
/// lines than reassembled bytes.
proof fn lemma_joined_lines_lower_bound(ls: Seq<Seq<u8>>)
    ensures
        joined_lines(ls).len() >= ls.len(),
    decreases ls.len(),
{
    if ls.len() > 0 {
        lemma_joined_lines_lower_bound(ls.skip(1));
    }
}

/// Everything `relay_chunk` guarantees, witnessed by the byte lines `ls`
/// the chunk completed (the conservation law makes `ls` unique).
pub open spec fn relay_chunk_post<H>(
    pre: &SessionRegistry<H>,
    post: &SessionRegistry<H>,
    framer_pre: LineFramer,
    framer_post: LineFramer,
    id: Seq<char>,
    stream: StreamKind,
    chunk: Seq<u8>,
    ls: Seq<Seq<u8>>,
    n: int,
) -> bool {
    &&& lines_wf(ls)
    &&& joined_lines(ls) + framer_post.pending() == framer_pre.pending() + chunk
    &&& n == ls.len()
    &&& if pre.is_live(id) {
        &&& post.history_of(id).len() == pre.history_of(id).len() + ls.len()
        &&& post.history_of(id).subrange(0, pre.history_of(id).len() as int) == pre.history_of(id)
        &&& forall|i: int|
            0 <= i < ls.len() ==> is_output_of(
                #[trigger] post.history_of(id)[pre.history_of(id).len() + i],
                stream,
                ls[i],
            )
        &&& post.contains_session(id)
        &&& post.session_state(id) == pre.session_state(id)
        &&& post.process_of(id) == pre.process_of(id)
        &&& post.capacity_of(id) == pre.capacity_of(id)
        &&& post.created_at_of(id) == pre.created_at_of(id)
        &&& forall|o: Seq<char>| o != id ==> #[trigger] agrees_on(pre, post, o)
    } else {
        *post == *pre
    }
}

/// Feed one chunk of bytes read from a captured stream: every line the
/// chunk completes is published, in stream order, as one `Output` event for
/// the session — provided the session is still live; otherwise the chunk is
/// consumed and nothing is published. Returns how many lines were
/// completed.
pub fn relay_chunk<H>(
    reg: &mut SessionRegistry<H>,
    id: &String,
    stream: StreamKind,
    framer: &mut LineFramer,
    chunk: &[u8],
) -> (n: usize)
    requires
        old(reg).wf(),
        old(framer).wf(),
        old(reg).history_of(id@).len() + old(framer).pending().len() + chunk@.len() < u64::MAX,
    ensures
        final(reg).wf(),
        final(framer).wf(),
        exists|ls: Seq<Seq<u8>>|
            relay_chunk_post(
                old(reg),
                final(reg),
                *old(framer),
                *final(framer),
                id@,
                stream,
                chunk@,
                ls,
                n as int,
            ),
{
    let ghost pre = *reg;
    let ghost framer_pre = *framer;
    let lines = framer.push(chunk);
    let ghost ls = lines.deep_view();
    proof {
        lemma_joined_lines_lower_bound(ls);
        assert(ls.len() <= joined_lines(ls).len());
        assert(joined_lines(ls) + framer.pending() == framer_pre.pending() + chunk@);
        assert((joined_lines(ls) + framer.pending()).len() == joined_lines(ls).len()
            + framer.pending().len());
        assert(joined_lines(ls).len() + framer.pending().len() == framer_pre.pending().len()
            + chunk@.len());
    }
    let ghost h0 = pre.history_of(id@);
    let live = match reg.state_of(id) {
        Some(s) => matches!(s, crate::events::SessionState::Running),
        None => false,
    };
    if !live {
        proof {
            assert(relay_chunk_post(
                &pre,
                reg,
                framer_pre,
                *framer,
                id@,
                stream,
                chunk@,
                ls,
                lines.deep_view().len() as int,
            ));
        }
        return lines.len();
    }
    let m = lines.len();
    for i in 0..m
        invariant
            m == ls.len(),
            lines.deep_view() == ls,
            reg.wf(),
            pre.is_live(id@),
            reg.is_live(id@),
            reg.contains_session(id@),
            reg.history_of(id@).len() == h0.len() + i,
            h0.len() + m < u64::MAX,
            reg.history_of(id@).subrange(0, h0.len() as int) == h0,
            forall|j: int|
                0 <= j < i ==> is_output_of(
                    #[trigger] reg.history_of(id@)[h0.len() + j],
                    stream,
                    ls[j],
                ),
            reg.session_state(id@) == pre.session_state(id@),
            reg.process_of(id@) == pre.process_of(id@),
            reg.capacity_of(id@) == pre.capacity_of(id@),
            reg.created_at_of(id@) == pre.created_at_of(id@),
            forall|o: Seq<char>| o != id@ ==> #[trigger] agrees_on(&pre, reg, o),
    {
        let ghost rmid = *reg;
        let text = bytes_to_text(&lines[i]);
        let published = reg.publish_output(id, stream, text);
        proof {
            assert(published);
            assert(reg.history_of(id@).subrange(0, h0.len() as int) =~= h0);
            assert(lines@[i as int].deep_view() =~= lines@[i as int]@);
            assert(lines@[i as int].deep_view() == ls[i as int]);
            assert forall|j: int|
                0 <= j < i + 1 implies is_output_of(
                #[trigger] reg.history_of(id@)[h0.len() + j],
                stream,
                ls[j],
            ) by {
                if j < i {
                    assert(reg.history_of(id@)[h0.len() + j] == rmid.history_of(id@)[h0.len()
                        + j]);
                }
            }
            assert forall|o: Seq<char>| o != id@ implies #[trigger] agrees_on(&pre, reg, o) by {
                assert(agrees_on(&pre, &rmid, o));
                assert(agrees_on(&rmid, reg, o));
            }
        }
    }
    proof {
        assert(relay_chunk_post(
            &pre,
            reg,
            framer_pre,
            *framer,
            id@,
            stream,
            chunk@,
            ls,
            m as int,
        ));
    }
    m
}

/// End of one captured stream: flush the trailing partial line, if any, as
/// a final `Output` event for the session (dropped, like any other line, if
/// the session is no longer live). Returns whether a final line existed.
pub fn relay_end<H>(
    reg: &mut SessionRegistry<H>,
    id: &String,
    stream: StreamKind,
    framer: &mut LineFramer,
) -> (flushed: bool)
    requires
        old(reg).wf(),
        old(framer).wf(),
        old(reg).history_of(id@).len() < u64::MAX,
    ensures
        final(reg).wf(),
        final(framer).wf(),
        final(framer).pending() == Seq::<u8>::empty(),
        flushed == (old(framer).pending().len() > 0),
        !(flushed && old(reg).is_live(id@)) ==> *final(reg) == *old(reg),
        flushed && old(reg).is_live(id@) ==> {
            &&& final(reg).history_of(id@).len() == old(reg).history_of(id@).len() + 1
            &&& final(reg).history_of(id@).subrange(0, old(reg).history_of(id@).len() as int)
                == old(reg).history_of(id@)
            &&& is_output_of(final(reg).history_of(id@).last(), stream, old(framer).pending())
            &&& final(reg).contains_session(id@)
            &&& final(reg).session_state(id@) == old(reg).session_state(id@)
            &&& final(reg).process_of(id@) == old(reg).process_of(id@)
            &&& forall|o: Seq<char>| o != id@ ==> #[trigger] agrees_on(old(reg), final(reg), o)
        },
{
    let ghost pre = *reg;
    match framer.finish() {
        Some(line) => {
            let text = bytes_to_text(&line);
            let published = reg.publish_output(id, stream, text);
            proof {
                if published {
                    assert(reg.history_of(id@).subrange(0, pre.history_of(id@).len() as int)
                        =~= pre.history_of(id@));
                }
            }
            true
        },
        None => false,
    }
}

} // verus!
