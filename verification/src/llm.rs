//! The shapes of the prompts sent to the model gateway and of the pieces of
//! the gateway's reply that the engine reads, together with the verified
//! assembly of a reply's text fragments into one response string.

use vstd::prelude::*;

verus! {

/// One text fragment of a prompt.
#[derive(Debug, Clone)]
pub struct MessagePartText {
    pub text: String,
}

/// One content block of a prompt.
#[derive(Debug, Clone)]
pub struct MessagePart {
    pub parts: Vec<MessagePartText>,
}

/// A prompt for the model gateway.
#[derive(Debug, Clone)]
pub struct Message {
    pub contents: Vec<MessagePart>,
}

/// Token accounting attached to a gateway reply; carried for audit only.
#[derive(Debug, Clone)]
pub struct TokenDetails {
    pub modality: Option<String>,
    pub token_count: Option<u32>,
}

/// Usage accounting attached to a gateway reply; carried for audit only.
#[derive(Debug, Clone)]
pub struct UsageMetadata {
    pub prompt_token_count: Option<u32>,
    pub candidates_token_count: Option<u32>,
    pub total_token_count: Option<u32>,
    pub prompt_tokens_details: Option<Vec<TokenDetails>>,
    pub candidates_tokens_details: Option<Vec<TokenDetails>>,
}

/// One text fragment of a gateway reply; the text may be absent.
#[derive(Debug, Clone)]
pub struct ResponseContentPartsText {
    pub text: Option<String>,
}

/// The fragments of one reply candidate.
#[derive(Debug, Clone)]
pub struct ResponseContentParts {
    pub parts: Vec<ResponseContentPartsText>,
    pub role: Option<String>,
}

/// The text a reply fragment contributes: its text if present, else nothing.
pub open spec fn fragment_text(p: ResponseContentPartsText) -> Seq<char> {
    match p.text {
        Some(t) => t@,
        None => Seq::empty(),
    }
}

/// The concatenated text of a candidate's fragments, in order.
pub open spec fn fragments_text(ps: Seq<ResponseContentPartsText>) -> Seq<char>
    decreases ps.len(),
{
    if ps.len() == 0 {
        Seq::empty()
    } else {
        fragments_text(ps.drop_last()) + fragment_text(ps.last())
    }
}

/// The concatenated text of all candidates, in order.
pub open spec fn candidates_text(cs: Seq<ResponseContentParts>) -> Seq<char>
    decreases cs.len(),
{
    if cs.len() == 0 {
        Seq::empty()
    } else {
        candidates_text(cs.drop_last()) + fragments_text(cs.last().parts@)
    }
}

proof fn lemma_fragments_text_take_step(ps: Seq<ResponseContentPartsText>, j: int)
    requires
        0 <= j < ps.len(),
    ensures
        fragments_text(ps.take(j + 1)) == fragments_text(ps.take(j)) + fragment_text(ps[j]),
{
    assert(ps.take(j + 1).drop_last() =~= ps.take(j));
    assert(ps.take(j + 1).last() == ps[j]);
}

proof fn lemma_candidates_text_take_step(cs: Seq<ResponseContentParts>, i: int)
    requires
        0 <= i < cs.len(),
    ensures
        candidates_text(cs.take(i + 1)) == candidates_text(cs.take(i)) + fragments_text(
            cs[i].parts@,
        ),
{
    assert(cs.take(i + 1).drop_last() =~= cs.take(i));
    assert(cs.take(i + 1).last() == cs[i]);
}

/// Assembles the single response string from a reply's candidates: the texts
/// of all present fragments, concatenated in order.
pub fn collect_response_text(candidates: &Vec<ResponseContentParts>) -> (r: String)
    ensures
        r@ == candidates_text(candidates@),
{
    let mut r = String::new();
    let mut i: usize = 0;
    while i < candidates.len()
        invariant
            i <= candidates@.len(),
            r@ == candidates_text(candidates@.take(i as int)),
        decreases candidates@.len() - i,
    {
        let parts = &candidates[i].parts;
        let mut j: usize = 0;
        while j < parts.len()
            invariant
                j <= parts@.len(),
                parts == &candidates@[i as int].parts,
                i < candidates@.len(),
                r@ == candidates_text(candidates@.take(i as int)) + fragments_text(
                    parts@.take(j as int),
                ),
            decreases parts@.len() - j,
        {
            match &parts[j].text {
                Some(t) => {
                    r.append(t.as_str());
                },
                None => {},
            }
            proof {
                lemma_fragments_text_take_step(parts@, j as int);
            }
            j += 1;
        }
        proof {
            assert(parts@.take(parts@.len() as int) =~= parts@);
            lemma_candidates_text_take_step(candidates@, i as int);
        }
        i += 1;
    }
    proof {
        assert(candidates@.take(candidates@.len() as int) =~= candidates@);
    }
    r
}

} // verus!
