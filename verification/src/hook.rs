//! The prompt hook that puts retrieved document context before a prompt.
use vstd::prelude::*;
use std::sync::Arc;
use crate::document::{RagError, RetrievedChunk};
use crate::context::{lemma_context_shows_every_chunk, rag_context};
use crate::text::{contains_text, matches_at};
use crate::rag::DocumentRag;

verus! {

/// A hook that, before a prompt is built, queries the index with the
/// prompt and puts the retrieved context in front of it.
pub struct DocumentRagHook {
    rag: Arc<DocumentRag>,
}

/// The prompt that goes on after the hook: the context of the retrieved
/// chunks, a blank line and the prompt where chunks were retrieved; the
/// prompt unchanged where none were or the query failed.
pub open spec fn augmented_prompt(outcome: Result<Vec<RetrievedChunk>, RagError>, prompt: Seq<char>) -> Seq<char> {
    match outcome {
        Ok(chunks) => if chunks@.len() > 0 {
            rag_context(chunks@) + "\n\n"@ + prompt
        } else {
            prompt
        },
        Err(_) => prompt,
    }
}

impl DocumentRagHook {
    /// A hook over the given index.
    pub fn new(rag: Arc<DocumentRag>) -> (r: DocumentRagHook)
        ensures
            r.rag() == rag,
    {
        DocumentRagHook { rag }
    }

    /// The index the hook queries.
    pub closed spec fn rag(&self) -> Arc<DocumentRag> {
        self.rag
    }

    /// The index the hook queries.
    pub fn index(&self) -> (r: &Arc<DocumentRag>)
        ensures
            *r == self.rag(),
    {
        &self.rag
    }

    /// The hook's name.
    pub fn name(&self) -> (r: &'static str)
        ensures
            r@ == "document-rag-hook"@,
    {
        "document-rag-hook"
    }

    /// The hook's priority: it runs early, so that the context is there for
    /// the hooks after it.
    pub fn priority(&self) -> (r: i32)
        ensures
            r == 10,
    {
        10
    }

    /// The number of chunks and least relevance the hook queries with: the
    /// index's settings.
    pub fn query_settings(&self) -> (r: (usize, i64))
        ensures
            r.0 == self.rag().config.max_chunks,
            r.1 == self.rag().config.min_relevance_micros,
    {
        (self.rag.config.max_chunks, self.rag.config.min_relevance_micros)
    }

    /// The prompt that goes on after the hook, given what the query with the
    /// prompt gave.
    pub fn augment_prompt(outcome: Result<Vec<RetrievedChunk>, RagError>, prompt: String) -> (r: String)
        ensures
            r@ == augmented_prompt(outcome, prompt@),
    {
        match outcome {
            Ok(chunks) => {
                if chunks.len() > 0 {
                    let mut r = DocumentRag::build_context(chunks.as_slice());
                    r.append("\n\n");
                    r.append(prompt.as_str());
                    r
                } else {
                    prompt
                }
            },
            Err(_) => prompt,
        }
    }
}

/// Text found in `a` is found in `a` followed by anything.
proof fn lemma_contains_in_prefix(a: Seq<char>, b: Seq<char>, x: Seq<char>)
    requires
        contains_text(a, x),
    ensures
        contains_text(a + b, x),
{
    let off = choose|off: int| matches_at(a, x, off);
    assert((a + b).subrange(off, off + x.len()) =~= a.subrange(off, off + x.len()));
    assert(matches_at(a + b, x, off));
}

/// Whenever the query gives chunks, however many, the prompt that goes on
/// is the context built from all of them, a blank line, then the prompt: it
/// differs from the prompt, ends with it, and holds the title and content
/// of every chunk retrieved.
pub proof fn lemma_context_put_before_prompt(chunks: Vec<RetrievedChunk>, prompt: Seq<char>)
    requires
        chunks@.len() > 0,
    ensures
        augmented_prompt(Ok(chunks), prompt) == rag_context(chunks@) + "\n\n"@ + prompt,
        augmented_prompt(Ok(chunks), prompt) != prompt,
        forall|i: int| 0 <= i < chunks@.len() ==> contains_text(augmented_prompt(Ok(chunks), prompt), (#[trigger] chunks@[i]).content@)
            && contains_text(augmented_prompt(Ok(chunks), prompt), chunks@[i].document_title@),
{
    let ctx = rag_context(chunks@);
    lemma_context_shows_every_chunk(chunks@, 0);
    assert(ctx.len() > 0);
    assert(augmented_prompt(Ok(chunks), prompt).len() > prompt.len());
    assert forall|i: int| 0 <= i < chunks@.len() implies contains_text(augmented_prompt(Ok(chunks), prompt), (#[trigger] chunks@[i]).content@)
        && contains_text(augmented_prompt(Ok(chunks), prompt), chunks@[i].document_title@) by {
        lemma_context_shows_every_chunk(chunks@, i);
        lemma_contains_in_prefix(ctx, "\n\n"@ + prompt, chunks@[i].content@);
        lemma_contains_in_prefix(ctx, "\n\n"@ + prompt, chunks@[i].document_title@);
        assert(ctx + "\n\n"@ + prompt =~= ctx + ("\n\n"@ + prompt));
    }
}

/// A failed or empty query leaves the prompt as it was.
pub proof fn lemma_prompt_kept_without_context(outcome: Result<Vec<RetrievedChunk>, RagError>, prompt: Seq<char>)
    requires
        outcome is Err || (outcome matches Ok(chunks) && chunks@.len() == 0),
    ensures
        augmented_prompt(outcome, prompt) == prompt,
{
}

/// Where chunks were retrieved, the prompt comes whole at the end of what
/// goes on.
pub proof fn lemma_prompt_is_suffix(outcome: Result<Vec<RetrievedChunk>, RagError>, prompt: Seq<char>)
    ensures
        ({
            let out = augmented_prompt(outcome, prompt);
            out.len() >= prompt.len() && out.subrange(out.len() - prompt.len(), out.len() as int) == prompt
        }),
{
    let out = augmented_prompt(outcome, prompt);
    if out != prompt {
        let c = match outcome { Ok(chunks) => rag_context(chunks@) + "\n\n"@, Err(_) => Seq::empty() };
        assert(out == c + prompt);
        assert(out.subrange(out.len() - prompt.len(), out.len() as int) =~= prompt);
    } else {
        assert(out.subrange(0, out.len() as int) =~= out);
    }
}

} // verus!
