//! What holds of every step and of every run of the extraction pipeline.

use crate::gemini_client::ClientErrorView;
use crate::model::{validated, ExtractedQuestionView};
use crate::processor::{ActionView, EventView, PipelineView, ProcessingErrorView, Stage};
use vstd::prelude::*;

verus! {

/// The state that a run reaches from `state` when `events` come in, in
/// order, the step for `events[i]` being given the identifier `ids[i]`.
pub open spec fn run(state: PipelineView, events: Seq<EventView>, ids: Seq<u128>) -> PipelineView
    decreases events.len(),
{
    if events.len() == 0 {
        state
    } else {
        run(state.next(events[0], ids[0]).0, events.drop_first(), ids.drop_first())
    }
}

/// A run starts in a well-formed state.
pub proof fn lemma_initial_wf(material_id: u128)
    ensures
        PipelineView::initial(material_id).wf(),
{
}

/// Every step keeps the state well-formed, whatever comes in and whatever
/// identifier is drawn.
pub proof fn lemma_next_preserves_wf(state: PipelineView, event: EventView, fresh: u128)
    requires
        state.wf(),
    ensures
        state.next(event, fresh).0.wf(),
{
    let after = state.next(event, fresh).0;
    match (state.stage, event) {
        (Stage::StoringQuestion, EventView::QuestionStored { result: Ok(_) }) => {
            assert(after.questions.take(after.cursor as int) == state.questions);
        },
        (Stage::StoringEmbedding, EventView::EmbeddingStored { result: Ok(_) }) => {
            assert(state.questions.take(state.cursor + 1 as int) == state.questions);
            assert(state.questions.take(state.cursor as int).push(state.current_id)
                == state.questions);
        },
        _ => {},
    }
}

/// Every state that a run passes through is well-formed.
pub proof fn lemma_run_wf(state: PipelineView, events: Seq<EventView>, ids: Seq<u128>)
    requires
        state.wf(),
        ids.len() >= events.len(),
    ensures
        run(state, events, ids).wf(),
    decreases events.len(),
{
    if events.len() > 0 {
        lemma_next_preserves_wf(state, events[0], ids[0]);
        lemma_run_wf(state.next(events[0], ids[0]).0, events.drop_first(), ids.drop_first());
    }
}

/// A step never touches the material's identifier, and never takes back a
/// row that the store has accepted: the ledger only grows, by at most one
/// question or one embedding.
pub proof fn lemma_ledger_only_grows(state: PipelineView, event: EventView, fresh: u128)
    requires
        state.wf(),
    ensures
        ({
            let after = state.next(event, fresh).0;
            &&& after.material_id == state.material_id
            &&& state.questions.is_prefix_of(after.questions)
            &&& state.embeddings.is_prefix_of(after.embeddings)
            &&& after.questions.len() + after.embeddings.len() <= state.questions.len()
                + state.embeddings.len() + 1
        }),
{
}

/// The identifier that a step is given matters only where one is drawn.
pub proof fn lemma_id_used_only_when_drawn(
    state: PipelineView,
    event: EventView,
    first: u128,
    second: u128,
)
    requires
        !state.draws_id(event),
    ensures
        state.next(event, first) == state.next(event, second),
{
}

/// A finished run has stored one question per record and one embedding per
/// question, and the material is marked.
pub proof fn lemma_finished_run_stored_all(state: PipelineView)
    requires
        state.wf(),
        state.stage == Stage::Finished,
    ensures
        state.questions.len() == state.records.len(),
        state.embeddings == state.questions,
        state.processed,
        state.failure is None,
{
    assert(state.questions.take(state.cursor as int) == state.questions);
}

/// The material is marked in no state but the finished one: a run that was
/// given up, or is still under way, leaves it unmarked.
pub proof fn lemma_marked_only_when_finished(state: PipelineView)
    requires
        state.wf(),
    ensures
        state.processed <==> state.stage == Stage::Finished,
        state.processed ==> state.questions.len() == state.records.len() && state.embeddings
            == state.questions,
{
    if state.processed {
        lemma_finished_run_stored_all(state);
    }
}

/// Where the embedding of the question at position `cursor` failed, the
/// questions before it have their embeddings, that question is stored
/// without one, nothing after it is stored, and the material is unmarked.
pub proof fn lemma_embedding_failure_keeps_prefix(state: PipelineView)
    requires
        state.wf(),
        state.failure is Some,
        state.failure->0 is EmbeddingFailed,
    ensures
        state.stage == Stage::Failed,
        state.questions.len() == state.cursor + 1,
        state.embeddings.len() == state.cursor,
        state.embeddings == state.questions.drop_last(),
        state.questions.len() <= state.records.len(),
        !state.processed,
{
}

/// Where the extraction failed or was malformed, nothing is stored and the
/// material is unmarked.
pub proof fn lemma_no_extraction_stores_nothing(state: PipelineView)
    requires
        state.wf(),
        state.failure is Some,
        state.failure->0 is MalformedExtraction || state.failure->0 is ExtractionFailed,
    ensures
        state.stage == Stage::Failed,
        state.questions.len() == 0,
        state.embeddings.len() == 0,
        !state.processed,
{
}

/// Whatever way a run was given up, embeddings are a prefix of the stored
/// questions, at most one question is without its embedding, and the
/// material is unmarked.
pub proof fn lemma_failed_run_is_unmarked(state: PipelineView)
    requires
        state.wf(),
        state.stage == Stage::Failed,
    ensures
        state.failure is Some,
        !state.processed,
        state.embeddings.is_prefix_of(state.questions),
        state.questions.len() <= state.embeddings.len() + 1,
{
    assert(state.embeddings =~= state.questions.subrange(0, state.embeddings.len() as int));
}

/// A run that is over stays as it is, and answers every further event with
/// its outcome.
pub proof fn lemma_terminal_states_absorb(state: PipelineView, event: EventView, fresh: u128)
    requires
        state.wf(),
        state.is_terminal(),
    ensures
        state.next(event, fresh).0 == state,
        state.next(event, fresh).1 is Finish,
        (state.next(event, fresh).1->outcome is Ok) == (state.stage == Stage::Finished),
{
}

/// How far a run has come: it grows with every step of a run that is not
/// over, and never exceeds `3 * records + 4`.
pub open spec fn progress(state: PipelineView) -> nat {
    match state.stage {
        Stage::Extracting => 0,
        Stage::Parsing => 1,
        Stage::StoringQuestion => 3 * state.cursor + 2,
        Stage::Embedding => 3 * state.cursor + 3,
        Stage::StoringEmbedding => 3 * state.cursor + 4,
        Stage::Marking => 3 * state.records.len() + 2,
        Stage::Finished => 3 * state.records.len() + 3,
        Stage::Failed => 3 * state.records.len() + 4,
    }
}

/// Every step of a run that is not over either ends it or brings it
/// forward, so no stage is entered twice for the same record and a run of a
/// material with `n` records is over after at most `3 * n + 4` steps.
pub proof fn lemma_steps_make_progress(state: PipelineView, event: EventView, fresh: u128)
    requires
        state.wf(),
        !state.is_terminal(),
    ensures
        ({
            let after = state.next(event, fresh).0;
            after.stage == Stage::Failed || (progress(after) > progress(state) && (
            state.records.len() > 0 ==> after.records == state.records))
        }),
{
}

/// The request to mark the material is handed out on entering the marking
/// stage and at no other step: with the progress that every step makes, at
/// most once in a run, and only when every record is stored with its
/// embedding.
pub proof fn lemma_mark_requested_when_all_stored(
    state: PipelineView,
    event: EventView,
    fresh: u128,
)
    requires
        state.wf(),
    ensures
        ({
            let (after, action) = state.next(event, fresh);
            &&& action is MarkProcessed <==> state.stage != Stage::Marking && after.stage
                == Stage::Marking
            &&& action is MarkProcessed ==> action->MarkProcessed_material_id == state.material_id
                && after.questions.len() == after.records.len() && after.embeddings
                == after.questions
        }),
{
    let after = state.next(event, fresh).0;
    lemma_next_preserves_wf(state, event, fresh);
    if after.stage == Stage::Marking {
        assert(after.questions.take(after.cursor as int) == after.questions);
    }
}

/// A question is requested to be stored only for the record at the cursor,
/// with the material's identifier, and an embedding only for the question
/// that was stored last.
pub proof fn lemma_requests_follow_records(state: PipelineView, event: EventView, fresh: u128)
    requires
        state.wf(),
    ensures
        ({
            let (after, action) = state.next(event, fresh);
            &&& action is InsertQuestion ==> after.stage == Stage::StoringQuestion && action
                == after.insert_question(after.cursor as int, fresh) && after.questions.len()
                == after.cursor
            &&& action is InsertEmbedding ==> after.stage == Stage::StoringEmbedding
                && action->question_id == after.questions.last() && action->source_text
                == after.records[after.cursor as int].text_for_embedding
            &&& action is Embed ==> after.stage == Stage::Embedding && action->Embed_text
                == after.records[after.cursor as int].text_for_embedding
        }),
{
}

/// A run over events in two parts is the run over the second part from where
/// the first part leads.
pub proof fn lemma_run_in_two_parts(
    state: PipelineView,
    first: Seq<EventView>,
    second: Seq<EventView>,
    ids: Seq<u128>,
)
    requires
        ids.len() >= first.len(),
    ensures
        run(state, first + second, ids) == run(
            run(state, first, ids),
            second,
            ids.skip(first.len() as int),
        ),
    decreases first.len(),
{
    if first.len() == 0 {
        assert(first + second == second);
        assert(ids.skip(0) == ids);
    } else {
        let after = state.next(first[0], ids[0]).0;
        assert((first + second)[0] == first[0]);
        assert((first + second).drop_first() == first.drop_first() + second);
        lemma_run_in_two_parts(after, first.drop_first(), second, ids.drop_first());
        assert(ids.drop_first().skip(first.drop_first().len() as int) =~= ids.skip(
            first.len() as int,
        ));
    }
}

/// A run over one event is one step.
pub proof fn lemma_run_of_one(state: PipelineView, event: EventView, ids: Seq<u128>)
    ensures
        run(state, seq![event], ids) == state.next(event, ids[0]).0,
{
    let events = seq![event];
    let after = state.next(events[0], ids[0]).0;
    assert(events.drop_first().len() == 0);
    assert(run(after, events.drop_first(), ids.drop_first()) == after);
}

/// A run over two events is two steps.
pub proof fn lemma_run_of_two(
    state: PipelineView,
    first: EventView,
    second: EventView,
    ids: Seq<u128>,
)
    requires
        ids.len() >= 2,
    ensures
        run(state, seq![first, second], ids) == state.next(first, ids[0]).0.next(
            second,
            ids[1],
        ).0,
{
    let events = seq![first, second];
    let middle = state.next(events[0], ids[0]).0;
    assert(events.drop_first() =~= seq![second]);
    lemma_run_of_one(middle, second, ids.drop_first());
    assert(ids.drop_first()[0] == ids[1]);
}

/// The events of storing one record without a failure: the store accepts the
/// question, the backend embeds it as `vector`, the store accepts the
/// embedding.
pub open spec fn record_stored(vector: Seq<u32>) -> Seq<EventView> {
    seq![
        EventView::QuestionStored { result: Ok(()) },
        EventView::Embedded { vector: Ok(vector) },
        EventView::EmbeddingStored { result: Ok(()) },
    ]
}

/// The events of storing one record after another without a failure, the
/// record at position `i` being embedded as `vectors[i]`.
pub open spec fn records_stored(vectors: Seq<Seq<u32>>) -> Seq<EventView>
    decreases vectors.len(),
{
    if vectors.len() == 0 {
        Seq::empty()
    } else {
        record_stored(vectors[0]) + records_stored(vectors.drop_first())
    }
}

/// The events of a run in which nothing fails: the backend answers with
/// `text`, which decodes to `list`; every record is stored with its
/// embedding; the store accepts the mark.
pub open spec fn successful_events(
    text: Seq<char>,
    list: Seq<ExtractedQuestionView>,
    vectors: Seq<Seq<u32>>,
) -> Seq<EventView> {
    seq![
        EventView::Extracted { text: Ok(text) },
        EventView::Parsed { records: Some(list) },
    ] + records_stored(vectors) + seq![EventView::Marked { result: Ok(()) }]
}

/// The events of a run in which the embedding of the record at position
/// `vectors.len()` fails for `cause`, and nothing fails before it.
pub open spec fn events_until_embedding_fails(
    text: Seq<char>,
    list: Seq<ExtractedQuestionView>,
    vectors: Seq<Seq<u32>>,
    cause: ClientErrorView,
) -> Seq<EventView> {
    seq![
        EventView::Extracted { text: Ok(text) },
        EventView::Parsed { records: Some(list) },
    ] + records_stored(vectors) + seq![
        EventView::QuestionStored { result: Ok(()) },
        EventView::Embedded { vector: Err(cause) },
    ]
}

/// How many events it takes to store `count` records.
pub proof fn lemma_records_stored_len(vectors: Seq<Seq<u32>>)
    ensures
        records_stored(vectors).len() == 3 * vectors.len(),
    decreases vectors.len(),
{
    if vectors.len() > 0 {
        lemma_records_stored_len(vectors.drop_first());
    }
}

/// Storing one record without a failure brings the cursor forward by one,
/// with one more question and one more embedding in the ledger.
proof fn lemma_one_record_stored(state: PipelineView, vector: Seq<u32>, ids: Seq<u128>)
    requires
        state.wf(),
        state.stage == Stage::StoringQuestion,
        ids.len() >= 3,
    ensures
        ({
            let after = run(state, record_stored(vector), ids);
            &&& after.wf()
            &&& after.cursor == state.cursor + 1
            &&& after.records == state.records
            &&& after.material_id == state.material_id
            &&& after.questions == state.questions.push(state.current_id)
            &&& after.stage == if after.cursor < after.records.len() {
                Stage::StoringQuestion
            } else {
                Stage::Marking
            }
        }),
{
    let events = record_stored(vector);
    let s1 = state.next(events[0], ids[0]).0;
    let s2 = s1.next(events[1], ids[1]).0;
    let s3 = s2.next(events[2], ids[2]).0;
    lemma_next_preserves_wf(state, events[0], ids[0]);
    lemma_next_preserves_wf(s1, events[1], ids[1]);
    lemma_next_preserves_wf(s2, events[2], ids[2]);
    let e1 = events.drop_first();
    let e2 = e1.drop_first();
    let e3 = e2.drop_first();
    let i1 = ids.drop_first();
    let i2 = i1.drop_first();
    assert(e1[0] == events[1]);
    assert(e2[0] == events[2]);
    assert(e3.len() == 0);
    assert(i1[0] == ids[1]);
    assert(i2[0] == ids[2]);
    assert(run(s3, e3, i2.drop_first()) == s3);
    assert(run(s2, e2, i2) == s3);
    assert(run(s1, e1, i1) == s3);
    assert(run(state, events, ids) == s3);
}

/// Storing the next records without a failure brings the cursor forward by
/// their number; every question stored has its embedding.
pub proof fn lemma_records_stored_in_order(
    state: PipelineView,
    vectors: Seq<Seq<u32>>,
    ids: Seq<u128>,
)
    requires
        state.wf(),
        state.stage == Stage::StoringQuestion,
        state.cursor + vectors.len() <= state.records.len(),
        ids.len() >= 3 * vectors.len(),
    ensures
        ({
            let after = run(state, records_stored(vectors), ids);
            &&& after.wf()
            &&& after.cursor == state.cursor + vectors.len()
            &&& after.records == state.records
            &&& after.material_id == state.material_id
            &&& after.questions.len() == after.cursor
            &&& after.embeddings == after.questions
            &&& state.questions.is_prefix_of(after.questions)
            &&& after.stage == if after.cursor < after.records.len() {
                Stage::StoringQuestion
            } else {
                Stage::Marking
            }
        }),
    decreases vectors.len(),
{
    if vectors.len() == 0 {
        assert(state.questions.take(state.cursor as int) == state.questions);
        assert(state.questions =~= state.questions.subrange(0, state.questions.len() as int));
    } else {
        let first = record_stored(vectors[0]);
        let rest = records_stored(vectors.drop_first());
        lemma_one_record_stored(state, vectors[0], ids);
        let middle = run(state, first, ids);
        lemma_run_in_two_parts(state, first, rest, ids);
        if vectors.len() == 1 {
            assert(rest.len() == 0);
            assert(middle.questions.take(middle.cursor as int) == middle.questions);
            assert(state.questions =~= middle.questions.subrange(0, state.questions.len() as int));
        } else {
            lemma_records_stored_in_order(middle, vectors.drop_first(), ids.skip(3));
            let after = run(middle, rest, ids.skip(3));
            assert(state.questions =~= after.questions.subrange(0, state.questions.len() as int))
                by {
                assert(middle.questions =~= after.questions.subrange(
                    0,
                    middle.questions.len() as int,
                ));
            }
        }
    }
}

/// The state of a run once the extraction has arrived and decoded to valid
/// records: the first record is taken up, or the mark is asked for where
/// there is none.
proof fn lemma_extraction_accepted(
    material_id: u128,
    text: Seq<char>,
    list: Seq<ExtractedQuestionView>,
    ids: Seq<u128>,
)
    requires
        validated(list) is Some,
        ids.len() >= 2,
    ensures
        ({
            let head = seq![
                EventView::Extracted { text: Ok(text) },
                EventView::Parsed { records: Some(list) },
            ];
            let after = run(PipelineView::initial(material_id), head, ids);
            &&& after.wf()
            &&& after.material_id == material_id
            &&& after.records == validated(list)->0
            &&& after.cursor == 0
            &&& after.questions.len() == 0
            &&& after.stage == if list.len() > 0 {
                Stage::StoringQuestion
            } else {
                Stage::Marking
            }
        }),
{
    let start = PipelineView::initial(material_id);
    let first = EventView::Extracted { text: Ok(text) };
    let second = EventView::Parsed { records: Some(list) };
    let s1 = start.next(first, ids[0]).0;
    lemma_next_preserves_wf(start, first, ids[0]);
    lemma_next_preserves_wf(s1, second, ids[1]);
    lemma_run_of_two(start, first, second, ids);
}

/// A run in which nothing fails stores one question per record of the
/// extraction, one embedding per question, and marks the material: for
/// every material, every reply that decodes to valid records, every
/// embedding that the backend computes and every identifier that is drawn.
pub proof fn lemma_successful_run_stores_all(
    material_id: u128,
    text: Seq<char>,
    list: Seq<ExtractedQuestionView>,
    vectors: Seq<Seq<u32>>,
    ids: Seq<u128>,
)
    requires
        validated(list) is Some,
        vectors.len() == list.len(),
        ids.len() >= 3 * list.len() + 3,
    ensures
        ({
            let end = run(
                PipelineView::initial(material_id),
                successful_events(text, list, vectors),
                ids,
            );
            &&& end.stage == Stage::Finished
            &&& end.processed
            &&& end.failure is None
            &&& end.material_id == material_id
            &&& end.records.len() == list.len()
            &&& end.questions.len() == list.len()
            &&& end.embeddings == end.questions
        }),
{
    let start = PipelineView::initial(material_id);
    let head = seq![
        EventView::Extracted { text: Ok(text) },
        EventView::Parsed { records: Some(list) },
    ];
    let body = records_stored(vectors);
    let tail = seq![EventView::Marked { result: Ok(()) }];
    lemma_extraction_accepted(material_id, text, list, ids);
    lemma_records_stored_len(vectors);
    let accepted = run(start, head, ids);
    let stored = run(accepted, body, ids.skip(2));
    if list.len() > 0 {
        lemma_records_stored_in_order(accepted, vectors, ids.skip(2));
    } else {
        assert(body.len() == 0);
        assert(accepted.questions.take(0) =~= accepted.questions);
    }
    assert(stored.stage == Stage::Marking);
    let rest_ids = ids.skip(2).skip(body.len() as int);
    let end = stored.next(tail[0], rest_ids[0]).0;
    lemma_next_preserves_wf(stored, tail[0], rest_ids[0]);
    lemma_run_of_one(stored, tail[0], rest_ids);
    assert(tail =~= seq![tail[0]]);
    lemma_run_in_two_parts(start, head, body, ids);
    lemma_run_in_two_parts(start, head + body, tail, ids);
    assert(run(start, head + body, ids) == stored);
    assert(ids.skip((head + body).len() as int) =~= rest_ids);
    lemma_finished_run_stored_all(end);
}

/// Where the embedding of the record at position `k` fails and nothing
/// fails before it, the run ends with that failure: `k + 1` questions are
/// stored, the first `k` of them with their embeddings, and the material is
/// unmarked. Whatever comes in afterwards changes nothing.
pub proof fn lemma_failed_embedding_stops_run(
    material_id: u128,
    text: Seq<char>,
    list: Seq<ExtractedQuestionView>,
    vectors: Seq<Seq<u32>>,
    cause: ClientErrorView,
    ids: Seq<u128>,
    later: Seq<EventView>,
    later_ids: Seq<u128>,
)
    requires
        validated(list) is Some,
        vectors.len() < list.len(),
        ids.len() >= 3 * vectors.len() + 4,
        later_ids.len() >= later.len(),
    ensures
        ({
            let end = run(
                PipelineView::initial(material_id),
                events_until_embedding_fails(text, list, vectors, cause),
                ids,
            );
            &&& end.stage == Stage::Failed
            &&& end.failure == Some(ProcessingErrorView::EmbeddingFailed { cause })
            &&& !end.processed
            &&& end.questions.len() == vectors.len() + 1
            &&& end.embeddings.len() == vectors.len()
            &&& end.embeddings == end.questions.drop_last()
            &&& run(end, later, later_ids) == end
        }),
{
    let start = PipelineView::initial(material_id);
    let head = seq![
        EventView::Extracted { text: Ok(text) },
        EventView::Parsed { records: Some(list) },
    ];
    let body = records_stored(vectors);
    let tail = seq![
        EventView::QuestionStored { result: Ok(()) },
        EventView::Embedded { vector: Err(cause) },
    ];
    lemma_extraction_accepted(material_id, text, list, ids);
    lemma_records_stored_len(vectors);
    let accepted = run(start, head, ids);
    let stored = run(accepted, body, ids.skip(2));
    lemma_records_stored_in_order(accepted, vectors, ids.skip(2));
    assert(stored.stage == Stage::StoringQuestion);
    let rest_ids = ids.skip(2).skip(body.len() as int);
    let s1 = stored.next(tail[0], rest_ids[0]).0;
    let end = s1.next(tail[1], rest_ids[1]).0;
    lemma_next_preserves_wf(stored, tail[0], rest_ids[0]);
    lemma_next_preserves_wf(s1, tail[1], rest_ids[1]);
    lemma_run_of_two(stored, tail[0], tail[1], rest_ids);
    assert(tail =~= seq![tail[0], tail[1]]);
    lemma_run_in_two_parts(start, head, body, ids);
    lemma_run_in_two_parts(start, head + body, tail, ids);
    assert(run(start, head + body, ids) == stored);
    assert(ids.skip((head + body).len() as int) =~= rest_ids);
    lemma_embedding_failure_keeps_prefix(end);
    lemma_run_that_is_over_stays(end, later, later_ids);
}

/// A run that is over is not changed by anything that comes in afterwards.
pub proof fn lemma_run_that_is_over_stays(state: PipelineView, later: Seq<EventView>, ids: Seq<u128>)
    requires
        state.wf(),
        state.is_terminal(),
        ids.len() >= later.len(),
    ensures
        run(state, later, ids) == state,
    decreases later.len(),
{
    if later.len() > 0 {
        lemma_terminal_states_absorb(state, later[0], ids[0]);
        lemma_run_that_is_over_stays(state, later.drop_first(), ids.drop_first());
    }
}

/// A reply that does not decode to a list of valid records ends the run at
/// once: nothing is stored and the material is unmarked.
pub proof fn lemma_malformed_extraction_stops_run(
    material_id: u128,
    text: Seq<char>,
    records: Option<Seq<ExtractedQuestionView>>,
    ids: Seq<u128>,
)
    requires
        records is None || validated(records->0) is None,
        ids.len() >= 2,
    ensures
        ({
            let end = run(
                PipelineView::initial(material_id),
                seq![EventView::Extracted { text: Ok(text) }, EventView::Parsed { records }],
                ids,
            );
            &&& end.stage == Stage::Failed
            &&& end.failure == Some(ProcessingErrorView::MalformedExtraction)
            &&& end.questions.len() == 0
            &&& end.embeddings.len() == 0
            &&& !end.processed
        }),
{
    lemma_run_of_two(
        PipelineView::initial(material_id),
        EventView::Extracted { text: Ok(text) },
        EventView::Parsed { records },
        ids,
    );
}

/// A count of writes: questions, embeddings, and marks on the material.
pub struct Tally {
    pub questions: nat,
    pub embeddings: nat,
    pub marks: nat,
}

impl Tally {
    /// The sum of two counts.
    pub open spec fn plus(self, other: Tally) -> Tally {
        Tally {
            questions: self.questions + other.questions,
            embeddings: self.embeddings + other.embeddings,
            marks: self.marks + other.marks,
        }
    }

    /// Whether each count is at least that of `low` and at most one more.
    pub open spec fn within_one_above(self, low: Tally) -> bool {
        &&& low.questions <= self.questions <= low.questions + 1
        &&& low.embeddings <= self.embeddings <= low.embeddings + 1
        &&& low.marks <= self.marks <= low.marks + 1
    }
}

/// The write that `action` asks for, as a count.
pub open spec fn write_asked(action: ActionView) -> Tally {
    Tally {
        questions: if action is InsertQuestion {
            1
        } else {
            0
        },
        embeddings: if action is InsertEmbedding {
            1
        } else {
            0
        },
        marks: if action is MarkProcessed {
            1
        } else {
            0
        },
    }
}

/// The writes that are asked for in the course of a run from `state` over
/// `events`.
pub open spec fn writes_asked(state: PipelineView, events: Seq<EventView>, ids: Seq<u128>) -> Tally
    decreases events.len(),
{
    if events.len() == 0 {
        Tally { questions: 0, embeddings: 0, marks: 0 }
    } else {
        let (after, action) = state.next(events[0], ids[0]);
        write_asked(action).plus(writes_asked(after, events.drop_first(), ids.drop_first()))
    }
}

/// The writes that the store has accepted in `state`.
pub open spec fn writes_accepted(state: PipelineView) -> Tally {
    Tally {
        questions: state.questions.len(),
        embeddings: state.embeddings.len(),
        marks: if state.processed {
            1
        } else {
            0
        },
    }
}

/// The writes that have been asked for up to `state` in a run that has not
/// been given up: those that the store has accepted, and the one that is
/// pending.
pub open spec fn writes_owed(state: PipelineView) -> Tally {
    writes_accepted(state).plus(
        Tally {
            questions: if state.stage == Stage::StoringQuestion {
                1
            } else {
                0
            },
            embeddings: if state.stage == Stage::StoringEmbedding {
                1
            } else {
                0
            },
            marks: if state.stage == Stage::Marking {
                1
            } else {
                0
            },
        },
    )
}

/// A run that is over asks for no further write.
pub proof fn lemma_no_writes_after_the_end(
    state: PipelineView,
    events: Seq<EventView>,
    ids: Seq<u128>,
)
    requires
        state.wf(),
        state.is_terminal(),
    ensures
        writes_asked(state, events, ids) == (Tally { questions: 0, embeddings: 0, marks: 0 }),
    decreases events.len(),
{
    if events.len() > 0 {
        lemma_terminal_states_absorb(state, events[0], ids[0]);
        lemma_no_writes_after_the_end(state, events.drop_first(), ids.drop_first());
    }
}

/// Every write that a run asks for is accounted for. As long as the run has
/// not been given up, the writes asked for are exactly those that the store
/// has accepted and the one that is pending. In any case the store has
/// accepted all of them but at most one of each sort: no write is asked for
/// twice, and none is asked for behind a failure.
pub proof fn lemma_writes_are_accounted_for(
    state: PipelineView,
    events: Seq<EventView>,
    ids: Seq<u128>,
)
    requires
        state.wf(),
        state.stage != Stage::Failed,
        ids.len() >= events.len(),
    ensures
        ({
            let end = run(state, events, ids);
            let asked = writes_owed(state).plus(writes_asked(state, events, ids));
            &&& end.stage != Stage::Failed ==> asked == writes_owed(end)
            &&& asked.within_one_above(writes_accepted(end))
        }),
    decreases events.len(),
{
    if events.len() > 0 {
        let (after, action) = state.next(events[0], ids[0]);
        let rest = events.drop_first();
        let rest_ids = ids.drop_first();
        lemma_next_preserves_wf(state, events[0], ids[0]);
        if after.stage == Stage::Failed {
            lemma_run_that_is_over_stays(after, rest, rest_ids);
            lemma_no_writes_after_the_end(after, rest, rest_ids);
        } else {
            assert(writes_owed(after) == writes_owed(state).plus(write_asked(action)));
            lemma_writes_are_accounted_for(after, rest, rest_ids);
        }
    }
}

/// In a whole run, from its start, the store is asked to mark the material
/// at most once, and has accepted every question and every embedding that
/// it was asked to store but at most the last one. Where the run is
/// finished, it was asked for exactly one question and one embedding per
/// record, and for the mark exactly once.
pub proof fn lemma_whole_run_writes(
    material_id: u128,
    events: Seq<EventView>,
    ids: Seq<u128>,
)
    requires
        ids.len() >= events.len(),
    ensures
        ({
            let end = run(PipelineView::initial(material_id), events, ids);
            let asked = writes_asked(PipelineView::initial(material_id), events, ids);
            &&& asked.marks <= 1
            &&& end.questions.len() <= asked.questions <= end.questions.len() + 1
            &&& end.embeddings.len() <= asked.embeddings <= end.embeddings.len() + 1
            &&& end.stage == Stage::Finished ==> asked.questions == end.records.len()
                && asked.embeddings == end.records.len() && asked.marks == 1
            &&& end.stage != Stage::Finished ==> !end.processed
        }),
{
    let start = PipelineView::initial(material_id);
    let end = run(start, events, ids);
    lemma_run_wf(start, events, ids);
    lemma_writes_are_accounted_for(start, events, ids);
    if end.stage == Stage::Finished {
        lemma_finished_run_stored_all(end);
    }
}

} // verus!
