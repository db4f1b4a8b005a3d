//! The context put before a prompt: each retrieved chunk's document title,
//! index, score and content between two marker lines.
use vstd::prelude::*;
use crate::document::RetrievedChunk;
use crate::rag::DocumentRag;
use crate::text::{contains_text, decimal, digit_char, matches_at, owned, push_decimal};

verus! {

/// The hundredths that a score of `m` millionths shows when rounded to two
/// decimals, ties going to the even neighbour.
pub open spec fn score_hundredths(m: int) -> nat {
    let a = if m < 0 { -m } else { m };
    let h = a / 10000;
    let rem = a % 10000;
    if rem > 5000 || (rem == 5000 && h % 2 == 1) { (h + 1) as nat } else { h as nat }
}

/// A score of `m` millionths shown with two decimals, as `{:.2}` shows it.
pub open spec fn score_text(m: int) -> Seq<char> {
    let h = score_hundredths(m);
    (if m < 0 { "-"@ } else { Seq::<char>::empty() }) + decimal(h / 100) + "."@
        + seq![digit_char(((h % 100) / 10) as int), digit_char((h % 10) as int)]
}

/// The block of the prompt context that shows one retrieved chunk.
pub open spec fn chunk_block(c: RetrievedChunk) -> Seq<char> {
    "--- Document: "@ + c.document_title@ + " (chunk "@ + decimal(c.chunk_index as nat) + ", score: "@
        + score_text(c.score_micros as int) + ") ---\n"@ + c.content@ + "\n\n"@
}

/// The blocks of the given chunks, in order.
pub open spec fn context_blocks(chunks: Seq<RetrievedChunk>) -> Seq<char>
    decreases chunks.len(),
{
    if chunks.len() == 0 {
        Seq::empty()
    } else {
        context_blocks(chunks.drop_last()) + chunk_block(chunks.last())
    }
}

/// The prompt context for the given chunks: nothing where there are none,
/// else the blocks between an opening and a closing marker line.
pub open spec fn rag_context(chunks: Seq<RetrievedChunk>) -> Seq<char> {
    if chunks.len() == 0 {
        Seq::empty()
    } else {
        "[RAG Context]\n"@ + context_blocks(chunks) + "[/RAG Context]\n"@
    }
}

/// Appends a score in millionths, shown with two decimals.
fn push_score(out: &mut String, m: i64)
    ensures
        final(out)@ == old(out)@ + score_text(m as int),
{
    proof {
        reveal_strlit("-");
        reveal_strlit(".");
        reveal_strlit("");
    }
    let a: u64 = if m < 0 { (-(m as i128)) as u64 } else { m as u64 };
    let h0 = a / 10000;
    let rem = a % 10000;
    let h = if rem > 5000 || (rem == 5000 && h0 % 2 == 1) { h0 + 1 } else { h0 };
    assert(h == score_hundredths(m as int));
    if m < 0 {
        out.append("-");
    }
    push_decimal(out, h / 100);
    out.append(".");
    push_decimal(out, (h % 100) / 10);
    push_decimal(out, h % 10);
    assert(decimal(((h % 100) / 10) as nat) == seq![digit_char(((h % 100) / 10) as int)]);
    assert(decimal((h % 10) as nat) == seq![digit_char((h % 10) as int)]);
    assert(final(out)@ =~= old(out)@ + score_text(m as int));
}

/// Appends the block that shows one chunk.
fn push_block(out: &mut String, c: &RetrievedChunk)
    ensures
        final(out)@ == old(out)@ + chunk_block(*c),
{
    out.append("--- Document: ");
    out.append(c.document_title.as_str());
    out.append(" (chunk ");
    push_decimal(out, c.chunk_index as u64);
    out.append(", score: ");
    push_score(out, c.score_micros);
    out.append(") ---\n");
    out.append(c.content.as_str());
    out.append("\n\n");
    assert(final(out)@ =~= old(out)@ + chunk_block(*c));
}

proof fn lemma_block_in_blocks(chunks: Seq<RetrievedChunk>, i: int)
    requires
        0 <= i < chunks.len(),
    ensures
        contains_text(context_blocks(chunks), chunk_block(chunks[i])),
    decreases chunks.len(),
{
    let b = chunk_block(chunks[i]);
    let all = context_blocks(chunks);
    if i == chunks.len() - 1 {
        let off = context_blocks(chunks.drop_last()).len() as int;
        assert(all.subrange(off, off + b.len()) =~= b);
        assert(matches_at(all, b, off));
    } else {
        lemma_block_in_blocks(chunks.drop_last(), i);
        let prev = context_blocks(chunks.drop_last());
        let off = choose|off: int| matches_at(prev, b, off);
        assert(all.subrange(off, off + b.len()) =~= prev.subrange(off, off + b.len()));
        assert(matches_at(all, b, off));
    }
}

proof fn lemma_contains_part(whole: Seq<char>, part: Seq<char>, off: int, inner: Seq<char>, at: int)
    requires
        0 <= off && off + part.len() <= whole.len(),
        whole.subrange(off, off + part.len()) == part,
        0 <= at && at + inner.len() <= part.len(),
        part.subrange(at, at + inner.len()) == inner,
    ensures
        contains_text(whole, inner),
{
    assert(whole.subrange(off + at, off + at + inner.len()) =~= inner);
    assert(matches_at(whole, inner, off + at));
}

/// The context built from retrieved chunks holds, for every one of them,
/// the title of its document and its content, and it is empty exactly when
/// there are no chunks.
pub proof fn lemma_context_shows_every_chunk(chunks: Seq<RetrievedChunk>, i: int)
    requires
        0 <= i < chunks.len(),
    ensures
        contains_text(rag_context(chunks), chunks[i].document_title@),
        contains_text(rag_context(chunks), chunks[i].content@),
        rag_context(chunks).len() > 0,
        rag_context(Seq::<RetrievedChunk>::empty()).len() == 0,
{
    let c = chunks[i];
    let b = chunk_block(c);
    lemma_block_in_blocks(chunks, i);
    let blocks = context_blocks(chunks);
    let off = choose|off: int| matches_at(blocks, b, off);
    let head = "[RAG Context]\n"@;
    let whole = rag_context(chunks);
    assert(whole.subrange(head.len() + off, head.len() + off + b.len()) =~= b);
    let pre = "--- Document: "@;
    assert(b.subrange(pre.len() as int, pre.len() + c.document_title@.len() as int) =~= c.document_title@);
    lemma_contains_part(whole, b, head.len() + off, c.document_title@, pre.len() as int);
    let before_content = "--- Document: "@ + c.document_title@ + " (chunk "@ + decimal(c.chunk_index as nat)
        + ", score: "@ + score_text(c.score_micros as int) + ") ---\n"@;
    assert(b.subrange(before_content.len() as int, before_content.len() + c.content@.len() as int) =~= c.content@);
    lemma_contains_part(whole, b, head.len() + off, c.content@, before_content.len() as int);
}

impl DocumentRag {
    /// The context to put before a prompt: empty where no chunks were
    /// retrieved, else each chunk's title, index, score and content between
    /// the `[RAG Context]` and `[/RAG Context]` lines.
    pub fn build_context(chunks: &[RetrievedChunk]) -> (r: String)
        ensures
            r@ == rag_context(chunks@),
    {
        if chunks.len() == 0 {
            return String::new();
        }
        proof {
            reveal_strlit("[RAG Context]\n");
        }
        let mut ctx = owned("[RAG Context]\n");
        let mut i: usize = 0;
        while i < chunks.len()
            invariant
                i <= chunks@.len(),
                ctx@ == "[RAG Context]\n"@ + context_blocks(chunks@.take(i as int)),
            decreases chunks@.len() - i,
        {
            assert(chunks@.take(i + 1).drop_last() =~= chunks@.take(i as int));
            push_block(&mut ctx, &chunks[i]);
            i = i + 1;
        }
        assert(chunks@.take(chunks@.len() as int) =~= chunks@);
        ctx.append("[/RAG Context]\n");
        ctx
    }
}

} // verus!
