use vstd::prelude::*;
use vstd::utf8::{encode_utf8, encode_scalar};
use crate::text::push_char;

verus! {

broadcast use vstd::string::group_string_axioms;

/// The service parameters of a moderation request: the text to review.
pub struct ShenchaRequestServiceParameters {
    pub content: String,
}

/// The moderation service's answer.
#[allow(non_snake_case)]
pub struct ShenchasResponse {
    pub RequestId: String,
    pub Code: i32,
    pub Msg: Option<String>,
    pub Message: Option<String>,
    pub Data: Option<ShenchasResponseData>,
}

/// The findings of a review: why the text was flagged, if it was.
pub struct ShenchasResponseData {
    pub reason: String,
    pub labels: String,
}

/// The code of an answer that carries a verdict.
pub const SHENCHA_OK_CODE: i32 = 200;

/// A text goes to review in chunks; a chunk is closed once it reaches this many bytes.
pub const SHENCHA_CHUNK_BYTES: usize = 500;

/// The service parameters that carry `content`.
pub fn service_parameters_for(content: &str) -> (params: ShenchaRequestServiceParameters)
    ensures
        params.content@ == content@,
{
    ShenchaRequestServiceParameters { content: content.to_owned() }
}

/// A text passes review when the service answered with code 200 and findings whose
/// reason is empty; any other answer means it does not pass.
pub open spec fn passes_review(response: ShenchasResponse) -> bool {
    &&& response.Code == SHENCHA_OK_CODE
    &&& response.Data is Some
    &&& response.Data->0.reason@.len() == 0
}

/// Reads the service's answer: whether the reviewed text passes.
pub fn shencha_verdict(response: &ShenchasResponse) -> (passes: bool)
    ensures
        passes == passes_review(*response),
        passes == (response.Code == 200 && response.Data is Some && response.Data->0.reason@.len() == 0),
{
    if response.Code == SHENCHA_OK_CODE {
        match &response.Data {
            Some(data) => data.reason.as_str().is_empty(),
            None => false,
        }
    } else {
        false
    }
}

/// The number of bytes of the UTF-8 encoding of a text.
pub open spec fn byte_len(s: Seq<char>) -> nat {
    encode_utf8(s).len()
}

/// Chunking a text, character by character: the chunks closed so far and the open one.
/// A character joins the open chunk; the chunk is closed once it holds 500 bytes or more.
pub open spec fn chunk_fold(s: Seq<char>) -> (Seq<Seq<char>>, Seq<char>)
    decreases s.len(),
{
    if s.len() == 0 {
        (Seq::empty(), Seq::empty())
    } else {
        let (done, open) = chunk_fold(s.drop_last());
        let grown = open.push(s.last());
        if byte_len(grown) >= SHENCHA_CHUNK_BYTES {
            (done.push(grown), Seq::empty())
        } else {
            (done, grown)
        }
    }
}

/// The chunks in which a text goes to review: the closed chunks, then the open one if it
/// is not empty.
pub open spec fn text_chunks_spec(s: Seq<char>) -> Seq<Seq<char>> {
    let (done, open) = chunk_fold(s);
    if open.len() > 0 {
        done.push(open)
    } else {
        done
    }
}

/// The texts of a list of strings.
pub open spec fn texts(v: Seq<String>) -> Seq<Seq<char>> {
    v.map_values(|x: String| x@)
}

/// Splits a text into the chunks in which it goes to review.
pub fn text_chunks(text: &str) -> (chunks: Vec<String>)
    ensures
        texts(chunks@) == text_chunks_spec(text@),
{
    let mut chunks: Vec<String> = Vec::new();
    let mut current = String::new();
    for c in it: text.chars()
        invariant
            it.seq() == text@,
            (texts(chunks@), current@) == chunk_fold(text@.take(it.index() as int)),
    {
        let ghost prefix = text@.take(it.index() as int);
        assert(text@.take(it.index() + 1).drop_last() == prefix);
        assert(text@.take(it.index() + 1).last() == c);
        let ghost open_before = current@;
        proof {
            lemma_chunk_fold_ok(prefix);
            lemma_encode_push(open_before, c);
            lemma_scalar_width(c);
        }
        push_char(&mut current, c);
        assert(byte_len(current@) < SHENCHA_CHUNK_BYTES + 4);
        if current.as_str().len() >= SHENCHA_CHUNK_BYTES {
            let ghost before = chunks@;
            chunks.push(current);
            assert(texts(chunks@) == texts(before).push(current@));
            current = String::new();
        }
    }
    assert(text@.take(text@.len() as int) == text@);
    if !current.as_str().is_empty() {
        let ghost before = chunks@;
        chunks.push(current);
        assert(texts(chunks@) == texts(before).push(current@));
    }
    chunks
}

/// What a review came to: a verdict, or a failure to get one.
pub enum ReviewOutcome {
    Verdict(bool),
    Failed,
}

/// After the review of one chunk, the text's review goes on exactly when the chunk passed;
/// a chunk that did not pass, or whose review failed, decides that the text does not pass.
pub fn review_goes_on(review: &ReviewOutcome) -> (goes_on: bool)
    ensures
        goes_on == (*review == ReviewOutcome::Verdict(true)),
{
    match review {
        ReviewOutcome::Verdict(passed) => *passed,
        ReviewOutcome::Failed => false,
    }
}

proof fn lemma_encode_push(s: Seq<char>, c: char)
    ensures
        encode_utf8(s.push(c)) == encode_utf8(s) + encode_scalar(c as u32),
    decreases s.len(),
{
    if s.len() == 0 {
        assert(s.push(c).drop_first() == Seq::<char>::empty());
        assert(encode_utf8(Seq::<char>::empty()) == Seq::<u8>::empty());
    } else {
        lemma_encode_push(s.drop_first(), c);
        assert(s.push(c).drop_first() == s.drop_first().push(c));
        assert(s.push(c)[0] == s[0]);
    }
}

proof fn lemma_scalar_width(c: char)
    ensures
        1 <= encode_scalar(c as u32).len() <= 4,
{
}

/// The chunk state: the closed chunks and the open one together spell the text read so
/// far; each closed chunk holds at least 500 and fewer than 504 bytes; the open chunk
/// holds fewer than 500.
pub open spec fn chunk_state_ok(s: Seq<char>, done: Seq<Seq<char>>, open: Seq<char>) -> bool {
    &&& done.flatten() + open == s
    &&& forall|i: int|
        0 <= i < done.len() ==> SHENCHA_CHUNK_BYTES <= byte_len(#[trigger] done[i])
            < SHENCHA_CHUNK_BYTES + 4
    &&& byte_len(open) < SHENCHA_CHUNK_BYTES
}

proof fn lemma_chunk_fold_ok(s: Seq<char>)
    ensures
        chunk_state_ok(s, chunk_fold(s).0, chunk_fold(s).1),
    decreases s.len(),
{
    broadcast use Seq::lemma_flatten_push;

    if s.len() == 0 {
        assert(Seq::<Seq<char>>::empty().flatten() == Seq::<char>::empty());
        assert(Seq::<char>::empty() + Seq::<char>::empty() =~= s);
        assert(encode_utf8(Seq::<char>::empty()).len() == 0);
    } else {
        lemma_chunk_fold_ok(s.drop_last());
        let (done, open) = chunk_fold(s.drop_last());
        let grown = open.push(s.last());
        lemma_encode_push(open, s.last());
        lemma_scalar_width(s.last());
        assert(s.drop_last().push(s.last()) == s);
        assert(done.flatten() + grown =~= (done.flatten() + open).push(s.last()));
        if byte_len(grown) >= SHENCHA_CHUNK_BYTES {
            assert(done.push(grown).flatten() == done.flatten() + grown);
            assert(done.push(grown).flatten() + Seq::<char>::empty() == s);
            assert(encode_utf8(Seq::<char>::empty()).len() == 0);
            assert forall|i: int| 0 <= i < done.push(grown).len() implies SHENCHA_CHUNK_BYTES
                <= byte_len(#[trigger] done.push(grown)[i]) < SHENCHA_CHUNK_BYTES + 4 by {
                if i < done.len() {
                    assert(done.push(grown)[i] == done[i]);
                }
            }
        } else {
            assert(done.flatten() + grown == s);
        }
    }
}

/// The chunks spell the text again, none is empty, and each but the last holds at least
/// 500 bytes; no chunk holds more than 503.
pub proof fn law_text_chunks(s: Seq<char>)
    ensures
        text_chunks_spec(s).flatten() == s,
        forall|i: int|
            0 <= i < text_chunks_spec(s).len() ==> #[trigger] text_chunks_spec(s)[i].len() > 0
                && byte_len(text_chunks_spec(s)[i]) < SHENCHA_CHUNK_BYTES + 4,
        forall|i: int|
            0 <= i < text_chunks_spec(s).len() - 1 ==> SHENCHA_CHUNK_BYTES <= byte_len(
                #[trigger] text_chunks_spec(s)[i],
            ),
{
    broadcast use Seq::lemma_flatten_push;

    lemma_chunk_fold_ok(s);
    let (done, open) = chunk_fold(s);
    let chunks = text_chunks_spec(s);
    assert forall|i: int| 0 <= i < done.len() implies #[trigger] done[i].len() > 0 by {
        if done[i].len() == 0 {
            assert(done[i] == Seq::<char>::empty());
            assert(encode_utf8(Seq::<char>::empty()).len() == 0);
        }
    }
    if open.len() > 0 {
        assert(chunks.flatten() == done.flatten() + open);
        assert forall|i: int| 0 <= i < chunks.len() implies #[trigger] chunks[i].len() > 0
            && byte_len(chunks[i]) < SHENCHA_CHUNK_BYTES + 4 by {
            if i < done.len() {
                assert(chunks[i] == done[i]);
            }
        }
    } else {
        assert(open == Seq::<char>::empty());
        assert(done.flatten() + Seq::<char>::empty() == done.flatten());
    }
}

} // verus!

verus! {

/// Where the review of a text, chunk by chunk, stands.
pub enum TextReviewState {
    /// Chunk `at` of the `chunks` chunks is under review.
    Reviewing { at: usize, chunks: usize },
    Done,
}

/// What the outside world is to do next while a text is reviewed.
pub enum TextReviewAction {
    /// Have the chunk with this index reviewed.
    ReviewChunk(usize),
    /// The review is over: whether the text passes.
    Decide(bool),
}

/// How the review of a text of `chunks` chunks opens: a text without chunks passes;
/// otherwise the first chunk is reviewed.
pub open spec fn text_review_start_spec(chunks: usize) -> (TextReviewState, TextReviewAction) {
    if chunks == 0 {
        (TextReviewState::Done, TextReviewAction::Decide(true))
    } else {
        (TextReviewState::Reviewing { at: 0, chunks }, TextReviewAction::ReviewChunk(0))
    }
}

/// One step of the review of a text: a chunk that passed leads to the next one, or to the
/// verdict that the text passes after the last; a chunk that did not pass, or whose review
/// failed, ends the review with the verdict that the text does not pass.
pub open spec fn text_review_step_spec(state: TextReviewState, outcome: ReviewOutcome) -> (TextReviewState, TextReviewAction) {
    match state {
        TextReviewState::Reviewing { at, chunks } => if outcome == ReviewOutcome::Verdict(true) {
            if at + 1 >= chunks {
                (TextReviewState::Done, TextReviewAction::Decide(true))
            } else {
                (
                    TextReviewState::Reviewing { at: (at + 1) as usize, chunks },
                    TextReviewAction::ReviewChunk((at + 1) as usize),
                )
            }
        } else {
            (TextReviewState::Done, TextReviewAction::Decide(false))
        },
        TextReviewState::Done => (TextReviewState::Done, TextReviewAction::Decide(false)),
    }
}

/// Opens the review of a text of `chunks` chunks.
pub fn text_review_start(chunks: usize) -> (next: (TextReviewState, TextReviewAction))
    ensures
        next == text_review_start_spec(chunks),
{
    if chunks == 0 {
        (TextReviewState::Done, TextReviewAction::Decide(true))
    } else {
        (TextReviewState::Reviewing { at: 0, chunks }, TextReviewAction::ReviewChunk(0))
    }
}

/// One step of the review of a text, after the review of the chunk under review.
pub fn text_review_step(state: TextReviewState, outcome: ReviewOutcome) -> (next: (TextReviewState, TextReviewAction))
    requires
        state matches TextReviewState::Reviewing { at, chunks } && at < chunks,
    ensures
        next == text_review_step_spec(state, outcome),
{
    match state {
        TextReviewState::Reviewing { at, chunks } => {
            if review_goes_on(&outcome) {
                if at + 1 >= chunks {
                    (TextReviewState::Done, TextReviewAction::Decide(true))
                } else {
                    (TextReviewState::Reviewing { at: at + 1, chunks }, TextReviewAction::ReviewChunk(at + 1))
                }
            } else {
                (TextReviewState::Done, TextReviewAction::Decide(false))
            }
        },
        TextReviewState::Done => (TextReviewState::Done, TextReviewAction::Decide(false)),
    }
}

/// Where the review of a text of `chunks` chunks stands once the chunks it asked for were
/// reviewed with these outcomes, in order; outcomes after the end change nothing.
pub open spec fn text_review_run(chunks: usize, outcomes: Seq<ReviewOutcome>) -> (TextReviewState, TextReviewAction)
    decreases outcomes.len(),
{
    if outcomes.len() == 0 {
        text_review_start_spec(chunks)
    } else {
        let before = text_review_run(chunks, outcomes.drop_last());
        if before.0 is Reviewing {
            text_review_step_spec(before.0, outcomes.last())
        } else {
            before
        }
    }
}

/// The first `j` outcomes are all passes.
pub open spec fn all_pass(outcomes: Seq<ReviewOutcome>, j: int) -> bool {
    forall|i: int| 0 <= i < j ==> #[trigger] outcomes[i] == ReviewOutcome::Verdict(true)
}

/// The smaller of two integers.
pub open spec fn min_int(a: int, b: int) -> int {
    if a <= b {
        a
    } else {
        b
    }
}

proof fn lemma_text_review_run(chunks: usize, o: Seq<ReviewOutcome>)
    ensures
        all_pass(o, min_int(o.len() as int, chunks as int)) && o.len() < chunks ==> text_review_run(chunks, o)
            == (TextReviewState::Reviewing { at: o.len() as usize, chunks }, TextReviewAction::ReviewChunk(o.len() as usize)),
        all_pass(o, min_int(o.len() as int, chunks as int)) && o.len() >= chunks ==> text_review_run(chunks, o)
            == (TextReviewState::Done, TextReviewAction::Decide(true)),
        !all_pass(o, min_int(o.len() as int, chunks as int)) ==> text_review_run(chunks, o)
            == (TextReviewState::Done, TextReviewAction::Decide(false)),
    decreases o.len(),
{
    if o.len() > 0 {
        let p = o.drop_last();
        lemma_text_review_run(chunks, p);
        let k = o.len() as int;
        assert(forall|i: int| 0 <= i < k - 1 ==> p[i] == o[i]);
        if all_pass(p, min_int(k - 1, chunks as int)) {
            if k - 1 < chunks {
                if o.last() == ReviewOutcome::Verdict(true) {
                    assert(all_pass(o, min_int(k, chunks as int)));
                } else {
                    assert(o[k - 1] != ReviewOutcome::Verdict(true));
                    assert(!all_pass(o, min_int(k, chunks as int)));
                }
            } else {
                assert(all_pass(o, min_int(k, chunks as int)));
            }
        } else {
            let f = choose|f: int| 0 <= f < min_int(k - 1, chunks as int) && p[f] != ReviewOutcome::Verdict(true);
            assert(o[f] != ReviewOutcome::Verdict(true));
            assert(!all_pass(o, min_int(k, chunks as int)));
        }
    }
}

/// A text of `chunks` chunks passes review exactly when each of its chunks passed; the
/// first chunk that does not pass, or whose review fails, ends the review with the verdict
/// that it does not pass; until then the chunks are asked for one after the other, in order.
pub proof fn law_text_passes_when_every_chunk_passes(chunks: usize, o: Seq<ReviewOutcome>)
    ensures
        text_review_run(chunks, o).1 == TextReviewAction::Decide(true) <==> (o.len() >= chunks && all_pass(o, chunks as int)),
        text_review_run(chunks, o).1 == TextReviewAction::Decide(false) <==> exists|f: int|
            0 <= f < chunks && f < o.len() && all_pass(o, f) && #[trigger] o[f] != ReviewOutcome::Verdict(true),
        o.len() < chunks && all_pass(o, o.len() as int) ==> text_review_run(chunks, o).1
            == TextReviewAction::ReviewChunk(o.len() as usize),
        text_review_run(chunks, o).0 is Done ==> forall|x: ReviewOutcome| #[trigger] text_review_run(chunks, o.push(x))
            == text_review_run(chunks, o),
{
    lemma_text_review_run(chunks, o);
    let m = min_int(o.len() as int, chunks as int);
    if !all_pass(o, m) {
        let g = choose|g: int| 0 <= g < m && o[g] != ReviewOutcome::Verdict(true);
        let f = first_failure(o, g);
        assert(0 <= f < chunks && f < o.len() && all_pass(o, f) && o[f] != ReviewOutcome::Verdict(true));
        assert(!(o.len() >= chunks && all_pass(o, chunks as int)));
    } else {
        assert forall|f: int| 0 <= f < chunks && f < o.len() && all_pass(o, f) implies #[trigger] o[f]
            == ReviewOutcome::Verdict(true) by {
            assert(f < m);
        }
    }
    assert forall|x: ReviewOutcome| text_review_run(chunks, o).0 is Done implies #[trigger] text_review_run(
        chunks,
        o.push(x),
    ) == text_review_run(chunks, o) by {
        assert(o.push(x).drop_last() == o);
    }
}

/// The first outcome that is no pass, found at or before `g`.
proof fn first_failure(o: Seq<ReviewOutcome>, g: int) -> (f: int)
    requires
        0 <= g < o.len(),
        o[g] != ReviewOutcome::Verdict(true),
    ensures
        0 <= f <= g,
        all_pass(o, f),
        o[f] != ReviewOutcome::Verdict(true),
    decreases g,
{
    if all_pass(o, g) {
        g
    } else {
        let h = choose|h: int| 0 <= h < g && o[h] != ReviewOutcome::Verdict(true);
        first_failure(o, h)
    }
}

} // verus!

verus! {

/// Whether a moderation answer passes depends on its code and its findings alone: an answer
/// passes exactly when its code is 200 and it carries findings with an empty reason, whatever
/// its request id, `Msg` and `Message` hold; two answers that agree in code and findings get
/// the same verdict.
pub proof fn law_verdict_reads_code_and_findings(r: ShenchasResponse, other: ShenchasResponse)
    ensures
        passes_review(r) == (r.Code == 200 && r.Data is Some && r.Data->0.reason@.len() == 0),
        r.Code == other.Code && r.Data == other.Data ==> passes_review(r) == passes_review(other),
        r.Code != 200 ==> !passes_review(r),
        r.Data is None ==> !passes_review(r),
{
}

} // verus!
