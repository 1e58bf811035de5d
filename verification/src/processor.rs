//! The extraction pipeline: one raw material is turned into stored questions
//! with their embeddings, and then marked as processed.
//!
//! The pipeline decides; it does not perform. Each step hands out the next
//! `Action` for the caller to carry out against the backend or the store, and
//! takes the outcome back as an `Event`.

use crate::gemini_client::{text_result_view, vector_result_view, ClientError, ClientErrorView};
use crate::ids::fresh_id;
use crate::pipeline_laws::lemma_next_preserves_wf;
use crate::model::{
    draft_views,
    extracted_views,
    validate_all,
    validated,
    Difficulty,
    ExtractedQuestion,
    ExtractedQuestionView,
    QuestionDraft,
    QuestionDraftView,
};
use crate::text::{strip_fences, without_fences};
use vstd::prelude::*;
use vstd::string::*;

verus! {

/// The instruction that precedes the material's text in the extraction prompt.
pub const EXTRACTION_INSTRUCTION: &'static str =
    "Analyze the following text and extract practice questions for CU-TEP. Return a JSON object with a key 'questions', which is a list of objects. Each object must have: 'topic' (reading, listening, error_id), 'difficulty' (easy, medium, hard), 'content' (the actual question structure), and 'text_for_embedding' (a summary or the question text itself). \n\n TEXT: ";

/// The prompt that asks the backend to extract questions from `content`.
pub open spec fn extraction_prompt(content: Seq<char>) -> Seq<char> {
    EXTRACTION_INSTRUCTION@ + content
}

/// Why a run of the pipeline ended without marking its material.
#[derive(Debug)]
pub enum ProcessingError {
    /// The backend gave no extraction.
    ExtractionFailed { cause: ClientError },
    /// The extraction was not a list of valid question records.
    MalformedExtraction,
    /// The backend gave no embedding for a question that is already stored.
    EmbeddingFailed { cause: ClientError },
    /// The store refused a write.
    PersistenceFailed { reason: String },
    /// An outcome came in for a request that was not pending.
    UnexpectedEvent,
}

/// The mathematical value of a `ProcessingError`.
pub enum ProcessingErrorView {
    ExtractionFailed { cause: ClientErrorView },
    MalformedExtraction,
    EmbeddingFailed { cause: ClientErrorView },
    PersistenceFailed { reason: Seq<char> },
    UnexpectedEvent,
}

impl View for ProcessingError {
    type V = ProcessingErrorView;

    open spec fn view(&self) -> ProcessingErrorView {
        match *self {
            ProcessingError::ExtractionFailed { cause } => ProcessingErrorView::ExtractionFailed {
                cause: cause@,
            },
            ProcessingError::MalformedExtraction => ProcessingErrorView::MalformedExtraction,
            ProcessingError::EmbeddingFailed { cause } => ProcessingErrorView::EmbeddingFailed {
                cause: cause@,
            },
            ProcessingError::PersistenceFailed { reason } => ProcessingErrorView::PersistenceFailed {
                reason: reason@,
            },
            ProcessingError::UnexpectedEvent => ProcessingErrorView::UnexpectedEvent,
        }
    }
}

impl ProcessingErrorView {
    /// The text that describes the error to a reader.
    pub open spec fn message(self) -> Seq<char> {
        match self {
            ProcessingErrorView::ExtractionFailed { cause } => "extraction failed: "@
                + cause.message(),
            ProcessingErrorView::MalformedExtraction => "malformed extraction"@,
            ProcessingErrorView::EmbeddingFailed { cause } => "embedding failed: "@
                + cause.message(),
            ProcessingErrorView::PersistenceFailed { reason } => "persistence failed: "@ + reason,
            ProcessingErrorView::UnexpectedEvent => "unexpected event"@,
        }
    }
}

impl ProcessingError {
    /// A second value of the same error.
    pub fn duplicate(&self) -> (r: ProcessingError)
        ensures
            r@ == self@,
    {
        match self {
            ProcessingError::ExtractionFailed { cause } => ProcessingError::ExtractionFailed {
                cause: cause.duplicate(),
            },
            ProcessingError::MalformedExtraction => ProcessingError::MalformedExtraction,
            ProcessingError::EmbeddingFailed { cause } => ProcessingError::EmbeddingFailed {
                cause: cause.duplicate(),
            },
            ProcessingError::PersistenceFailed { reason } => ProcessingError::PersistenceFailed {
                reason: reason.clone(),
            },
            ProcessingError::UnexpectedEvent => ProcessingError::UnexpectedEvent,
        }
    }

    /// The text that describes the error to a reader.
    pub fn message(&self) -> (r: String)
        ensures
            r@ == self@.message(),
    {
        match self {
            ProcessingError::ExtractionFailed { cause } => {
                let mut out = String::from_str("extraction failed: ");
                out.append(cause.message().as_str());
                out
            },
            ProcessingError::MalformedExtraction => String::from_str("malformed extraction"),
            ProcessingError::EmbeddingFailed { cause } => {
                let mut out = String::from_str("embedding failed: ");
                out.append(cause.message().as_str());
                out
            },
            ProcessingError::PersistenceFailed { reason } => {
                let mut out = String::from_str("persistence failed: ");
                out.append(reason.as_str());
                out
            },
            ProcessingError::UnexpectedEvent => String::from_str("unexpected event"),
        }
    }
}

/// What the pipeline is waiting for.
#[derive(Clone, Copy, Debug, PartialEq, Eq, Structural)]
pub enum Stage {
    /// The backend's extraction of the material.
    Extracting,
    /// The records that the extraction decodes to.
    Parsing,
    /// The store's answer on the question in progress.
    StoringQuestion,
    /// The backend's embedding of the question in progress.
    Embedding,
    /// The store's answer on the embedding of the question in progress.
    StoringEmbedding,
    /// The store's answer on marking the material.
    Marking,
    /// Nothing: the material is marked.
    Finished,
    /// Nothing: the run was given up.
    Failed,
}

/// What the caller is asked to do next.
#[derive(Debug)]
pub enum Action {
    /// Ask the backend for a structured completion of `prompt`.
    GenerateStructured { prompt: String },
    /// Decode `text` as an object whose field `questions` lists the records.
    ParseExtraction { text: String },
    /// Store a question.
    InsertQuestion {
        id: u128,
        material_id: u128,
        topic: String,
        content: serde_json::Value,
        difficulty: Difficulty,
    },
    /// Ask the backend for the embedding of `text`.
    Embed { text: String },
    /// Store the embedding of a question.
    InsertEmbedding { question_id: u128, source_text: String, vector: Vec<u32> },
    /// Mark the material as processed.
    MarkProcessed { material_id: u128 },
    /// Stop: the run is over, with this outcome.
    Finish { outcome: Result<(), ProcessingError> },
}

/// The mathematical value of an `Action`.
pub enum ActionView {
    GenerateStructured { prompt: Seq<char> },
    ParseExtraction { text: Seq<char> },
    InsertQuestion {
        id: u128,
        material_id: u128,
        topic: Seq<char>,
        content: serde_json::Value,
        difficulty: Difficulty,
    },
    Embed { text: Seq<char> },
    InsertEmbedding { question_id: u128, source_text: Seq<char>, vector: Seq<u32> },
    MarkProcessed { material_id: u128 },
    Finish { outcome: Result<(), ProcessingErrorView> },
}

impl View for Action {
    type V = ActionView;

    open spec fn view(&self) -> ActionView {
        match *self {
            Action::GenerateStructured { prompt } => ActionView::GenerateStructured {
                prompt: prompt@,
            },
            Action::ParseExtraction { text } => ActionView::ParseExtraction { text: text@ },
            Action::InsertQuestion {
                id,
                material_id,
                topic,
                content,
                difficulty,
            } => ActionView::InsertQuestion {
                id,
                material_id,
                topic: topic@,
                content,
                difficulty,
            },
            Action::Embed { text } => ActionView::Embed { text: text@ },
            Action::InsertEmbedding {
                question_id,
                source_text,
                vector,
            } => ActionView::InsertEmbedding {
                question_id,
                source_text: source_text@,
                vector: vector@,
            },
            Action::MarkProcessed { material_id } => ActionView::MarkProcessed { material_id },
            Action::Finish { outcome } => ActionView::Finish {
                outcome: match outcome {
                    Ok(_) => Ok(()),
                    Err(e) => Err(e@),
                },
            },
        }
    }
}

/// The outcome of the action that was handed out last.
#[derive(Debug)]
pub enum Event {
    /// The backend's answer to `GenerateStructured`.
    Extracted { text: Result<String, ClientError> },
    /// The records that the text of `ParseExtraction` decodes to, or nothing
    /// where it does not have the expected shape.
    Parsed { records: Option<Vec<ExtractedQuestion>> },
    /// The store's answer to `InsertQuestion`.
    QuestionStored { result: Result<(), String> },
    /// The backend's answer to `Embed`.
    Embedded { vector: Result<Vec<u32>, ClientError> },
    /// The store's answer to `InsertEmbedding`.
    EmbeddingStored { result: Result<(), String> },
    /// The store's answer to `MarkProcessed`.
    Marked { result: Result<(), String> },
}

/// The mathematical value of an `Event`.
pub enum EventView {
    Extracted { text: Result<Seq<char>, ClientErrorView> },
    Parsed { records: Option<Seq<ExtractedQuestionView>> },
    QuestionStored { result: Result<(), Seq<char>> },
    Embedded { vector: Result<Seq<u32>, ClientErrorView> },
    EmbeddingStored { result: Result<(), Seq<char>> },
    Marked { result: Result<(), Seq<char>> },
}

/// The view of a store's answer.
pub open spec fn write_view(result: Result<(), String>) -> Result<(), Seq<char>> {
    match result {
        Ok(_) => Ok(()),
        Err(reason) => Err(reason@),
    }
}

impl View for Event {
    type V = EventView;

    open spec fn view(&self) -> EventView {
        match *self {
            Event::Extracted { text } => EventView::Extracted { text: text_result_view(text) },
            Event::Parsed { records } => EventView::Parsed {
                records: match records {
                    Some(list) => Some(extracted_views(list@)),
                    None => None,
                },
            },
            Event::QuestionStored { result } => EventView::QuestionStored {
                result: write_view(result),
            },
            Event::Embedded { vector } => EventView::Embedded { vector: vector_result_view(vector) },
            Event::EmbeddingStored { result } => EventView::EmbeddingStored {
                result: write_view(result),
            },
            Event::Marked { result } => EventView::Marked { result: write_view(result) },
        }
    }
}

/// The mathematical value of a `Pipeline`: where a run stands and what it
/// has been told is stored.
pub struct PipelineView {
    /// The material that the run is for.
    pub material_id: u128,
    /// What the run is waiting for.
    pub stage: Stage,
    /// The drafts of the extraction, in the order received.
    pub records: Seq<QuestionDraftView>,
    /// How many drafts are done: stored with their embedding.
    pub cursor: nat,
    /// The identifier of the question in progress.
    pub current_id: u128,
    /// The identifiers of the questions that the store accepted, in order.
    pub questions: Seq<u128>,
    /// The identifiers of the questions whose embedding the store accepted,
    /// in order.
    pub embeddings: Seq<u128>,
    /// Whether the store accepted the mark on the material.
    pub processed: bool,
    /// Why the run was given up, if it was.
    pub failure: Option<ProcessingErrorView>,
}

impl PipelineView {
    /// The state of a run that has not heard from the backend yet.
    pub open spec fn initial(material_id: u128) -> PipelineView {
        PipelineView {
            material_id,
            stage: Stage::Extracting,
            records: Seq::empty(),
            cursor: 0,
            current_id: 0,
            questions: Seq::empty(),
            embeddings: Seq::empty(),
            processed: false,
            failure: None,
        }
    }

    /// Whether the run is over.
    pub open spec fn is_terminal(self) -> bool {
        self.stage == Stage::Finished || self.stage == Stage::Failed
    }

    /// The state after the run was given up for `error`, and the action that
    /// says so.
    pub open spec fn fail(self, error: ProcessingErrorView) -> (PipelineView, ActionView) {
        (
            PipelineView { stage: Stage::Failed, failure: Some(error), ..self },
            ActionView::Finish { outcome: Err(error) },
        )
    }

    /// The request to store the draft at `index` under the identifier `id`.
    pub open spec fn insert_question(self, index: int, id: u128) -> ActionView
        recommends
            0 <= index < self.records.len(),
    {
        ActionView::InsertQuestion {
            id,
            material_id: self.material_id,
            topic: self.records[index].topic,
            content: self.records[index].content,
            difficulty: self.records[index].difficulty,
        }
    }

    /// The state in which the draft at `index` is in progress under the
    /// identifier `id`, or the material is about to be marked where no draft
    /// is left; and the request that goes with it.
    pub open spec fn proceed(self, index: nat, id: u128) -> (PipelineView, ActionView) {
        if index < self.records.len() {
            (
                PipelineView {
                    stage: Stage::StoringQuestion,
                    cursor: index,
                    current_id: id,
                    ..self
                },
                self.insert_question(index as int, id),
            )
        } else {
            (
                PipelineView { stage: Stage::Marking, cursor: index, ..self },
                ActionView::MarkProcessed { material_id: self.material_id },
            )
        }
    }

    /// The state that follows when `event` comes in, and the action that
    /// is handed out. `fresh` is the identifier for the next question, used
    /// only where a question is about to be stored.
    pub open spec fn next(self, event: EventView, fresh: u128) -> (PipelineView, ActionView) {
        match (self.stage, event) {
            (Stage::Finished, _) => (self, ActionView::Finish { outcome: Ok(()) }),
            (Stage::Failed, _) => (
                self,
                ActionView::Finish {
                    outcome: Err(
                        match self.failure {
                            Some(e) => e,
                            None => ProcessingErrorView::UnexpectedEvent,
                        },
                    ),
                },
            ),
            (Stage::Extracting, EventView::Extracted { text: Ok(text) }) => (
                PipelineView { stage: Stage::Parsing, ..self },
                ActionView::ParseExtraction { text: without_fences(text) },
            ),
            (Stage::Extracting, EventView::Extracted { text: Err(cause) }) => self.fail(
                ProcessingErrorView::ExtractionFailed { cause },
            ),
            (Stage::Parsing, EventView::Parsed { records: Some(list) }) => match validated(list) {
                Some(drafts) => PipelineView { records: drafts, ..self }.proceed(0, fresh),
                None => self.fail(ProcessingErrorView::MalformedExtraction),
            },
            (Stage::Parsing, EventView::Parsed { records: None }) => self.fail(
                ProcessingErrorView::MalformedExtraction,
            ),
            (Stage::StoringQuestion, EventView::QuestionStored { result: Ok(_) }) => (
                PipelineView {
                    stage: Stage::Embedding,
                    questions: self.questions.push(self.current_id),
                    ..self
                },
                ActionView::Embed { text: self.records[self.cursor as int].text_for_embedding },
            ),
            (Stage::StoringQuestion, EventView::QuestionStored { result: Err(reason) }) => self.fail(
                ProcessingErrorView::PersistenceFailed { reason },
            ),
            (Stage::Embedding, EventView::Embedded { vector: Ok(vector) }) => (
                PipelineView { stage: Stage::StoringEmbedding, ..self },
                ActionView::InsertEmbedding {
                    question_id: self.current_id,
                    source_text: self.records[self.cursor as int].text_for_embedding,
                    vector,
                },
            ),
            (Stage::Embedding, EventView::Embedded { vector: Err(cause) }) => self.fail(
                ProcessingErrorView::EmbeddingFailed { cause },
            ),
            (Stage::StoringEmbedding, EventView::EmbeddingStored { result: Ok(_) }) => PipelineView {
                embeddings: self.embeddings.push(self.current_id),
                ..self
            }.proceed(self.cursor + 1, fresh),
            (
                Stage::StoringEmbedding,
                EventView::EmbeddingStored { result: Err(reason) },
            ) => self.fail(ProcessingErrorView::PersistenceFailed { reason }),
            (Stage::Marking, EventView::Marked { result: Ok(_) }) => (
                PipelineView { stage: Stage::Finished, processed: true, ..self },
                ActionView::Finish { outcome: Ok(()) },
            ),
            (Stage::Marking, EventView::Marked { result: Err(reason) }) => self.fail(
                ProcessingErrorView::PersistenceFailed { reason },
            ),
            _ => self.fail(ProcessingErrorView::UnexpectedEvent),
        }
    }

    /// Whether a fresh identifier is drawn when `event` comes in: where
    /// records have arrived, or where a further record waits to be stored.
    pub open spec fn draws_id(self, event: EventView) -> bool {
        match (self.stage, event) {
            (Stage::Parsing, EventView::Parsed { records: Some(list) }) => list.len() > 0,
            (Stage::StoringEmbedding, EventView::EmbeddingStored { result: Ok(_) }) => self.cursor
                + 1 < self.records.len(),
            _ => false,
        }
    }

    /// What holds of every state of a run: the ledger of stored rows agrees
    /// with the stage, embeddings never run ahead of questions, and the
    /// material is marked only once everything else is stored.
    pub open spec fn wf(self) -> bool {
        &&& self.cursor <= self.records.len()
        &&& self.embeddings.len() == self.cursor
        &&& self.embeddings =~= self.questions.take(self.cursor as int)
        &&& self.cursor <= self.questions.len() <= self.records.len()
        &&& self.processed == (self.stage == Stage::Finished)
        &&& (self.failure is Some) == (self.stage == Stage::Failed)
        &&& match self.stage {
            Stage::Extracting | Stage::Parsing => self.records.len() == 0 && self.questions.len()
                == 0,
            Stage::StoringQuestion => self.cursor < self.records.len() && self.questions.len()
                == self.cursor,
            Stage::Embedding | Stage::StoringEmbedding => self.cursor < self.records.len()
                && self.questions.len() == self.cursor + 1 && self.questions.last()
                == self.current_id,
            Stage::Marking | Stage::Finished => self.cursor == self.records.len()
                && self.questions.len() == self.cursor,
            Stage::Failed => match self.failure {
                Some(ProcessingErrorView::ExtractionFailed { .. }) => self.records.len() == 0,
                Some(ProcessingErrorView::MalformedExtraction) => self.records.len() == 0,
                Some(ProcessingErrorView::EmbeddingFailed { .. }) => self.questions.len()
                    == self.cursor + 1,
                Some(ProcessingErrorView::PersistenceFailed { .. }) => self.questions.len()
                    <= self.cursor + 1,
                Some(ProcessingErrorView::UnexpectedEvent) => self.questions.len() <= self.cursor
                    + 1,
                None => false,
            },
        }
    }
}

/// A run of the pipeline for one material.
#[derive(Debug)]
pub struct Pipeline {
    material_id: u128,
    stage: Stage,
    records: Vec<QuestionDraft>,
    cursor: usize,
    current_id: u128,
    questions: Vec<u128>,
    embeddings: Vec<u128>,
    processed: bool,
    failure: Option<ProcessingError>,
}

impl View for Pipeline {
    type V = PipelineView;

    closed spec fn view(&self) -> PipelineView {
        PipelineView {
            material_id: self.material_id,
            stage: self.stage,
            records: draft_views(self.records@),
            cursor: self.cursor as nat,
            current_id: self.current_id,
            questions: self.questions@,
            embeddings: self.embeddings@,
            processed: self.processed,
            failure: match self.failure {
                Some(e) => Some(e@),
                None => None,
            },
        }
    }
}

/// Starts a run for the material `material_id` with the text `content`:
/// the run waits for the backend's extraction, and the first request asks
/// for it with the extraction prompt.
pub fn process_material(material_id: u128, content: String) -> (r: (Pipeline, Action))
    ensures
        r.0@ == PipelineView::initial(material_id),
        r.0@.wf(),
        r.1@ == (ActionView::GenerateStructured { prompt: extraction_prompt(content@) }),
{
    let mut prompt = String::from_str(EXTRACTION_INSTRUCTION);
    prompt.append(content.as_str());
    let pipeline = Pipeline {
        material_id,
        stage: Stage::Extracting,
        records: Vec::new(),
        cursor: 0,
        current_id: 0,
        questions: Vec::new(),
        embeddings: Vec::new(),
        processed: false,
        failure: None,
    };
    assert(pipeline@.records =~= Seq::empty());
    (pipeline, Action::GenerateStructured { prompt })
}

/// The state of a run that is under way, before a stage and a cursor are set.
spec fn under_way(
    material_id: u128,
    records: Vec<QuestionDraft>,
    current_id: u128,
    questions: Vec<u128>,
    embeddings: Vec<u128>,
) -> PipelineView {
    PipelineView {
        material_id,
        stage: Stage::Parsing,
        records: draft_views(records@),
        cursor: 0,
        current_id,
        questions: questions@,
        embeddings: embeddings@,
        processed: false,
        failure: None,
    }
}

/// Takes up the draft at `index` under the identifier `id`, or asks for the
/// mark where no draft is left.
fn proceed(
    material_id: u128,
    records: Vec<QuestionDraft>,
    current_id: u128,
    questions: Vec<u128>,
    embeddings: Vec<u128>,
    index: usize,
    id: u128,
) -> (r: (Pipeline, Action))
    requires
        under_way(material_id, records, current_id, questions, embeddings).proceed(
            index as nat,
            id,
        ).0.wf(),
    ensures
        (r.0@, r.1@) == under_way(material_id, records, current_id, questions, embeddings).proceed(
            index as nat,
            id,
        ),
{
    if index < records.len() {
        let action = Action::InsertQuestion {
            id,
            material_id,
            topic: records[index].topic.clone(),
            content: records[index].content.clone(),
            difficulty: records[index].difficulty,
        };
        (
            Pipeline {
                material_id,
                stage: Stage::StoringQuestion,
                records,
                cursor: index,
                current_id: id,
                questions,
                embeddings,
                processed: false,
                failure: None,
            },
            action,
        )
    } else {
        (
            Pipeline {
                material_id,
                stage: Stage::Marking,
                records,
                cursor: index,
                current_id,
                questions,
                embeddings,
                processed: false,
                failure: None,
            },
            Action::MarkProcessed { material_id },
        )
    }
}

impl Pipeline {
    #[verifier::type_invariant]
    spec fn inv(self) -> bool {
        self@.wf()
    }

    /// The material that the run is for.
    pub fn material_id(&self) -> (r: u128)
        ensures
            r == self@.material_id,
    {
        self.material_id
    }

    /// What the run is waiting for. The state of a pipeline is well-formed
    /// at all times.
    pub fn stage(&self) -> (r: Stage)
        ensures
            r == self@.stage,
            self@.wf(),
    {
        proof {
            use_type_invariant(self);
        }
        self.stage
    }

    /// Whether the run is over.
    pub fn is_over(&self) -> (r: bool)
        ensures
            r == self@.is_terminal(),
    {
        match self.stage {
            Stage::Finished => true,
            Stage::Failed => true,
            _ => false,
        }
    }

    /// How many records the extraction held.
    pub fn record_count(&self) -> (r: usize)
        ensures
            r == self@.records.len(),
    {
        self.records.len()
    }

    /// The identifiers of the questions that the store accepted, in order.
    pub fn questions(&self) -> (r: &Vec<u128>)
        ensures
            r@ == self@.questions,
    {
        &self.questions
    }

    /// The identifiers of the questions whose embedding the store accepted,
    /// in order.
    pub fn embeddings(&self) -> (r: &Vec<u128>)
        ensures
            r@ == self@.embeddings,
    {
        &self.embeddings
    }

    /// Whether the store accepted the mark on the material.
    pub fn is_processed(&self) -> (r: bool)
        ensures
            r == self@.processed,
    {
        self.processed
    }

    /// Why the run was given up, if it was.
    pub fn failure(&self) -> (r: Option<ProcessingError>)
        ensures
            match r {
                Some(e) => self@.failure == Some(e@),
                None => self@.failure is None,
            },
    {
        match &self.failure {
            Some(e) => Some(e.duplicate()),
            None => None,
        }
    }

    /// Whether a fresh identifier is drawn when `event` comes in.
    pub fn draws_id(&self, event: &Event) -> (r: bool)
        ensures
            r == self@.draws_id(event@),
    {
        proof {
            use_type_invariant(self);
            assert(self@.records.len() == self.records@.len());
        }
        let count = self.records.len();
        match (self.stage, event) {
            (Stage::Parsing, Event::Parsed { records: Some(list) }) => list.len() > 0,
            (Stage::StoringEmbedding, Event::EmbeddingStored { result: Ok(_) }) => self.cursor + 1
                < count,
            _ => false,
        }
    }

    /// Gives the run up for `error`.
    fn fail(self, error: ProcessingError) -> (r: (Pipeline, Action))
        requires
            self@.fail(error@).0.wf(),
        ensures
            (r.0@, r.1@) == self@.fail(error@),
    {
        let Pipeline {
            material_id,
            stage: _,
            records,
            cursor,
            current_id,
            questions,
            embeddings,
            processed,
            failure: _,
        } = self;
        let kept = error.duplicate();
        (
            Pipeline {
                material_id,
                stage: Stage::Failed,
                records,
                cursor,
                current_id,
                questions,
                embeddings,
                processed,
                failure: Some(kept),
            },
            Action::Finish { outcome: Err(error) },
        )
    }

    /// Takes the outcome of the pending request and hands out the next one.
    /// `fresh` is the identifier for the next question; it is used only
    /// where one is drawn. The step is exactly the one that the model makes.
    pub fn step_with(self, event: Event, fresh: u128) -> (r: (Pipeline, Action))
        ensures
            (r.0@, r.1@) == self@.next(event@, fresh),
            r.0@.wf(),
    {
        proof {
            use_type_invariant(&self);
            lemma_next_preserves_wf(self@, event@, fresh);
            assert(self@.records.len() == self.records@.len());
        }
        match self.stage {
            Stage::Finished => (self, Action::Finish { outcome: Ok(()) }),
            Stage::Failed => {
                let outcome = match &self.failure {
                    Some(e) => Err(e.duplicate()),
                    None => Err(ProcessingError::UnexpectedEvent),
                };
                (self, Action::Finish { outcome })
            },
            Stage::Extracting => match event {
                Event::Extracted { text: Ok(text) } => {
                    let clean = String::from_str(strip_fences(text.as_str()));
                    let mut after = self;
                    after.stage = Stage::Parsing;
                    (after, Action::ParseExtraction { text: clean })
                },
                Event::Extracted { text: Err(cause) } => self.fail(
                    ProcessingError::ExtractionFailed { cause },
                ),
                _ => self.fail(ProcessingError::UnexpectedEvent),
            },
            Stage::Parsing => match event {
                Event::Parsed { records: Some(list) } => match validate_all(list) {
                    Some(drafts) => proceed(
                        self.material_id,
                        drafts,
                        self.current_id,
                        self.questions,
                        self.embeddings,
                        0,
                        fresh,
                    ),
                    None => self.fail(ProcessingError::MalformedExtraction),
                },
                Event::Parsed { records: None } => self.fail(ProcessingError::MalformedExtraction),
                _ => self.fail(ProcessingError::UnexpectedEvent),
            },
            Stage::StoringQuestion => match event {
                Event::QuestionStored { result: Ok(_) } => {
                    let text = self.records[self.cursor].text_for_embedding.clone();
                    let Pipeline {
                        material_id,
                        stage: _,
                        records,
                        cursor,
                        current_id,
                        questions,
                        embeddings,
                        processed,
                        failure,
                    } = self;
                    let mut questions = questions;
                    questions.push(current_id);
                    (
                        Pipeline {
                            material_id,
                            stage: Stage::Embedding,
                            records,
                            cursor,
                            current_id,
                            questions,
                            embeddings,
                            processed,
                            failure,
                        },
                        Action::Embed { text },
                    )
                },
                Event::QuestionStored { result: Err(reason) } => self.fail(
                    ProcessingError::PersistenceFailed { reason },
                ),
                _ => self.fail(ProcessingError::UnexpectedEvent),
            },
            Stage::Embedding => match event {
                Event::Embedded { vector: Ok(vector) } => {
                    let source_text = self.records[self.cursor].text_for_embedding.clone();
                    let question_id = self.current_id;
                    let mut after = self;
                    after.stage = Stage::StoringEmbedding;
                    (after, Action::InsertEmbedding { question_id, source_text, vector })
                },
                Event::Embedded { vector: Err(cause) } => self.fail(
                    ProcessingError::EmbeddingFailed { cause },
                ),
                _ => self.fail(ProcessingError::UnexpectedEvent),
            },
            Stage::StoringEmbedding => match event {
                Event::EmbeddingStored { result: Ok(_) } => {
                    let count = self.records.len();
                    assert(self.cursor < count);
                    let index = self.cursor + 1;
                    let Pipeline {
                        material_id,
                        stage: _,
                        records,
                        cursor: _,
                        current_id,
                        questions,
                        embeddings,
                        processed: _,
                        failure: _,
                    } = self;
                    let mut embeddings = embeddings;
                    embeddings.push(current_id);
                    proceed(
                        material_id,
                        records,
                        current_id,
                        questions,
                        embeddings,
                        index,
                        fresh,
                    )
                },
                Event::EmbeddingStored { result: Err(reason) } => self.fail(
                    ProcessingError::PersistenceFailed { reason },
                ),
                _ => self.fail(ProcessingError::UnexpectedEvent),
            },
            Stage::Marking => match event {
                Event::Marked { result: Ok(_) } => {
                    let after = Pipeline { stage: Stage::Finished, processed: true, ..self };
                    (after, Action::Finish { outcome: Ok(()) })
                },
                Event::Marked { result: Err(reason) } => self.fail(
                    ProcessingError::PersistenceFailed { reason },
                ),
                _ => self.fail(ProcessingError::UnexpectedEvent),
            },
        }
    }

    /// Takes the outcome of the pending request and hands out the next one,
    /// drawing a fresh identifier where a question is about to be stored.
    /// Whatever identifier is drawn, the step is the one that the model
    /// makes with it.
    pub fn step(self, event: Event) -> (r: (Pipeline, Action))
        ensures
            exists|fresh: u128| (r.0@, r.1@) == #[trigger] self@.next(event@, fresh),
            !self@.draws_id(event@) ==> (r.0@, r.1@) == self@.next(event@, 0),
            r.0@.wf(),
    {
        let fresh: u128 = if self.draws_id(&event) {
            fresh_id()
        } else {
            0
        };
        self.step_with(event, fresh)
    }
}

} // verus!
