//! Framing of OpenCode's event stream: text arrives in chunks of any size,
//! and every event block ends with a blank line (`\n\n`).
use crate::text::chars_of;
use crate::text::find_chars;
use crate::text::is_first_occurrence;
use crate::text::occurs_at;
use crate::text::slice_chars;
use crate::text::string_of;
use vstd::prelude::*;

verus! {

/// The separator that ends an event block.
pub open spec fn block_end() -> Seq<char> {
    seq!['\n', '\n']
}

/// The complete blocks at the front of `s`, in order, and what is left after
/// them: each block runs up to the first separator, which is dropped.
pub open spec fn sse_split(s: Seq<char>) -> (Seq<Seq<char>>, Seq<char>)
    decreases s.len(),
{
    if exists|i: int| is_first_occurrence(s, block_end(), i) {
        let i = choose|i: int| is_first_occurrence(s, block_end(), i);
        if 0 <= i && i + 2 <= s.len() {
            let rest = sse_split(s.subrange(i + 2, s.len() as int));
            (seq![s.subrange(0, i)] + rest.0, rest.1)
        } else {
            (seq![], s)
        }
    } else {
        (seq![], s)
    }
}

/// A pattern has at most one first occurrence.
proof fn lemma_first_occurrence_unique(s: Seq<char>, p: Seq<char>, i: int, j: int)
    requires
        is_first_occurrence(s, p, i),
        is_first_occurrence(s, p, j),
    ensures
        i == j,
{
    reveal(occurs_at);
    if i < j {
        assert(!occurs_at(s, p, i));
    } else if j < i {
        assert(!occurs_at(s, p, j));
    }
}

/// The text received so far that does not yet make a complete block.
pub struct SseBuffer {
    pending: Vec<char>,
}

impl View for SseBuffer {
    type V = Seq<char>;

    closed spec fn view(&self) -> Seq<char> {
        self.pending@
    }
}

impl SseBuffer {
    /// An empty buffer.
    pub fn new() -> (b: Self)
        ensures
            b@ == Seq::<char>::empty(),
    {
        SseBuffer { pending: Vec::new() }
    }

    /// Appends a chunk of the stream and takes out every block it completes,
    /// in order; the rest stays for the next chunk.
    pub fn push_text(&mut self, text: &str) -> (blocks: Vec<String>)
        ensures
            (blocks.deep_view(), final(self)@) == sse_split(old(self)@ + text@),
    {
        let more = chars_of(text);
        let mut buf: Vec<char> = Vec::new();
        buf.append(&mut self.pending);
        let mut k: usize = 0;
        while k < more.len()
            invariant
                k <= more.len(),
                buf@ == old(self)@ + more@.take(k as int),
            decreases more.len() - k,
        {
            buf.push(more[k]);
            assert(old(self)@ + more@.take(k + 1) =~= (old(self)@ + more@.take(k as int)).push(
                more@[k as int],
            ));
            k = k + 1;
        }
        assert(more@.take(more.len() as int) =~= more@);
        let ghost whole = old(self)@ + text@;
        let sep: Vec<char> = vec!['\n', '\n'];
        assert(sep@ =~= block_end());
        let mut blocks: Vec<String> = Vec::new();
        assert(blocks.deep_view() + sse_split(buf@).0 =~= sse_split(buf@).0);
        loop
            invariant
                sep@ == block_end(),
                sse_split(whole) == (blocks.deep_view() + sse_split(buf@).0, sse_split(buf@).1),
            ensures
                sse_split(whole) == (blocks.deep_view(), buf@),
            decreases buf@.len(),
        {
            match find_chars(&buf, &sep) {
                Some(i) => {
                    proof {
                        reveal(occurs_at);
                        let c = choose|c: int| is_first_occurrence(buf@, block_end(), c);
                        lemma_first_occurrence_unique(buf@, block_end(), i as int, c);
                    }
                    let ghost old_buf = buf@;
                    let block = slice_chars(&buf, 0, i);
                    let rest = slice_chars(&buf, i + 2, buf.len());
                    let s = string_of(&block);
                    let ghost before = blocks.deep_view();
                    blocks.push(s);
                    assert(blocks.deep_view() =~= before.push(s@));
                    buf = rest;
                    assert(sse_split(old_buf) == (
                        seq![old_buf.subrange(0, i as int)] + sse_split(buf@).0,
                        sse_split(buf@).1,
                    ));
                    assert(blocks.deep_view() + sse_split(buf@).0 =~= before + sse_split(
                        old_buf,
                    ).0);
                },
                None => {
                    assert(!exists|i: int| is_first_occurrence(buf@, block_end(), i));
                    assert(blocks.deep_view() + sse_split(buf@).0 =~= blocks.deep_view());
                    break;
                },
            }
        }
        self.pending = buf;
        blocks
    }
}

/// A first occurrence in `a` is the first occurrence in `a + b`.
proof fn lemma_first_occurrence_extends(a: Seq<char>, b: Seq<char>, p: Seq<char>, i: int)
    requires
        is_first_occurrence(a, p, i),
    ensures
        is_first_occurrence(a + b, p, i),
{
    reveal(occurs_at);
    assert((a + b).subrange(i, i + p.len()) =~= a.subrange(i, i + p.len()));
    assert forall|j: int| 0 <= j < i implies !occurs_at(a + b, p, j) by {
        if occurs_at(a + b, p, j) {
            assert((a + b).subrange(j, j + p.len()) =~= a.subrange(j, j + p.len()));
            assert(occurs_at(a, p, j));
        }
    }
}

/// Feeding the stream in two chunks frames it exactly as feeding it in one:
/// the blocks of the first chunk followed by those the second completes are
/// the blocks of the whole, and what is left over is the same.
pub proof fn law_chunking_does_not_matter(a: Seq<char>, b: Seq<char>)
    ensures
        sse_split(a).0 + sse_split(sse_split(a).1 + b).0 == sse_split(a + b).0,
        sse_split(sse_split(a).1 + b).1 == sse_split(a + b).1,
    decreases a.len(),
{
    if exists|i: int| is_first_occurrence(a, block_end(), i) {
        let i = choose|i: int| is_first_occurrence(a, block_end(), i);
        reveal(occurs_at);
        lemma_first_occurrence_extends(a, b, block_end(), i);
        let c = choose|c: int| is_first_occurrence(a + b, block_end(), c);
        lemma_first_occurrence_unique(a + b, block_end(), i, c);
        let tail = a.subrange(i + 2, a.len() as int);
        assert((a + b).subrange(i + 2, (a + b).len() as int) =~= tail + b);
        assert((a + b).subrange(0, i) =~= a.subrange(0, i));
        law_chunking_does_not_matter(tail, b);
        assert(sse_split(a).0 + sse_split(sse_split(a).1 + b).0 =~= seq![a.subrange(0, i)] + (
        sse_split(tail).0 + sse_split(sse_split(tail).1 + b).0));
    } else {
        assert(sse_split(a).0 + sse_split(sse_split(a).1 + b).0 =~= sse_split(a + b).0);
    }
}

} // verus!
