use exam_backend::gemini_client::ClientError;
use exam_backend::model::{Difficulty, ExtractedQuestion};
use exam_backend::processor::{
    process_material, Action, Event, Pipeline, ProcessingError, Stage, EXTRACTION_INSTRUCTION,
};
use serde_json::Value;

fn record(topic: &str, difficulty: &str, text: &str) -> ExtractedQuestion {
    ExtractedQuestion {
        topic: topic.to_string(),
        difficulty: difficulty.to_string(),
        content: Value::from(format!("content of {}", text)),
        text_for_embedding: text.to_string(),
    }
}

/// What the store holds after a run, as a driver that obeys every request sees it.
struct Store {
    questions: Vec<(u128, u128, String, Value, Difficulty)>,
    embeddings: Vec<(u128, String, Vec<u32>)>,
    marked: Vec<u128>,
    prompts: Vec<String>,
    parsed: Vec<String>,
}

/// Carries a run out against a store that accepts every write, a backend that answers
/// `reply` to the extraction and embeds every text but the one at `failing_embed`.
fn drive(
    material_id: u128,
    content: &str,
    reply: Result<String, ClientError>,
    records: Option<Vec<ExtractedQuestion>>,
    failing_embed: Option<usize>,
    failing_mark: bool,
) -> (Pipeline, Result<(), ProcessingError>, Store) {
    let mut store = Store {
        questions: vec![],
        embeddings: vec![],
        marked: vec![],
        prompts: vec![],
        parsed: vec![],
    };
    let mut reply = Some(reply);
    let mut records = Some(records);
    let mut embeds = 0usize;
    let (mut pipeline, mut action) = process_material(material_id, content.to_string());
    let mut steps = 0;
    loop {
        steps += 1;
        assert!(steps < 1000);
        let event = match action {
            Action::GenerateStructured { prompt } => {
                store.prompts.push(prompt);
                Event::Extracted { text: reply.take().unwrap() }
            }
            Action::ParseExtraction { text } => {
                store.parsed.push(text);
                Event::Parsed { records: records.take().unwrap() }
            }
            Action::InsertQuestion { id, material_id, topic, content, difficulty } => {
                store.questions.push((id, material_id, topic, content, difficulty));
                Event::QuestionStored { result: Ok(()) }
            }
            Action::Embed { text } => {
                let k = embeds;
                embeds += 1;
                if failing_embed == Some(k) {
                    Event::Embedded {
                        vector: Err(ClientError::Upstream { status: 503, body: text }),
                    }
                } else {
                    Event::Embedded { vector: Ok(vec![k as u32, 0x3f80_0000]) }
                }
            }
            Action::InsertEmbedding { question_id, source_text, vector } => {
                store.embeddings.push((question_id, source_text, vector));
                Event::EmbeddingStored { result: Ok(()) }
            }
            Action::MarkProcessed { material_id } => {
                if failing_mark {
                    Event::Marked { result: Err("connection closed".to_string()) }
                } else {
                    store.marked.push(material_id);
                    Event::Marked { result: Ok(()) }
                }
            }
            Action::Finish { outcome } => return (pipeline, outcome, store),
        };
        let (next, request) = pipeline.step(event);
        pipeline = next;
        action = request;
    }
}

#[test]
fn start_asks_for_extraction_with_prompt() {
    let (pipeline, action) = process_material(7, "The sky is blue.".to_string());
    assert_eq!(pipeline.stage(), Stage::Extracting);
    assert_eq!(pipeline.material_id(), 7);
    assert!(!pipeline.is_processed());
    assert!(!pipeline.is_over());
    assert_eq!(pipeline.record_count(), 0);
    match action {
        Action::GenerateStructured { prompt } => {
            assert_eq!(
                prompt,
                "Analyze the following text and extract practice questions for CU-TEP. \
                 Return a JSON object with a key 'questions', which is a list of objects. \
                 Each object must have: 'topic' (reading, listening, error_id), 'difficulty' (easy, medium, hard), \
                 'content' (the actual question structure), and 'text_for_embedding' (a summary or the question text itself). \
                 \n\n TEXT: The sky is blue."
            );
            assert_eq!(prompt, format!("{}{}", EXTRACTION_INSTRUCTION, "The sky is blue."));
        }
        other => panic!("unexpected action {:?}", other),
    }
}

#[test]
fn two_records_are_stored_with_embeddings_and_material_is_marked() {
    let records = vec![
        record("reading", "easy", "Why is the sky blue?"),
        record("error_identification", "hard", "The sky are blue."),
    ];
    let (pipeline, outcome, store) = drive(
        42,
        "The sky is blue.",
        Ok("```json\n{\"questions\": []}\n```".to_string()),
        Some(records),
        None,
        false,
    );
    assert!(outcome.is_ok());
    assert_eq!(pipeline.stage(), Stage::Finished);
    assert!(pipeline.is_over());
    assert!(pipeline.is_processed());
    assert!(pipeline.failure().is_none());
    assert_eq!(pipeline.record_count(), 2);
    assert_eq!(store.questions.len(), 2);
    assert_eq!(store.embeddings.len(), 2);
    assert_eq!(store.marked, vec![42]);
    assert_eq!(store.parsed, vec!["\n{\"questions\": []}\n".to_string()]);
    assert_eq!(store.questions[0].1, 42);
    assert_eq!(store.questions[0].2, "reading");
    assert_eq!(store.questions[0].3, Value::from("content of Why is the sky blue?"));
    assert_eq!(store.questions[0].4, Difficulty::Easy);
    assert_eq!(store.questions[1].1, 42);
    assert_eq!(store.questions[1].2, "error_identification");
    assert_eq!(store.questions[1].4, Difficulty::Hard);
    assert_eq!(store.embeddings[0].0, store.questions[0].0);
    assert_eq!(store.embeddings[0].1, "Why is the sky blue?");
    assert_eq!(store.embeddings[0].2, vec![0, 0x3f80_0000]);
    assert_eq!(store.embeddings[1].0, store.questions[1].0);
    assert_eq!(store.embeddings[1].1, "The sky are blue.");
    assert_eq!(store.embeddings[1].2, vec![1, 0x3f80_0000]);
    let ids: Vec<u128> = store.questions.iter().map(|q| q.0).collect();
    assert_eq!(pipeline.questions(), &ids);
    assert_eq!(pipeline.embeddings(), &ids);
}

#[test]
fn drawn_identifiers_are_version_four_and_differ() {
    let records = vec![
        record("reading", "easy", "a"),
        record("reading", "medium", "b"),
        record("listening", "hard", "c"),
    ];
    let (_, outcome, store) = drive(1, "text", Ok("{}".to_string()), Some(records), None, false);
    assert!(outcome.is_ok());
    let ids: Vec<u128> = store.questions.iter().map(|q| q.0).collect();
    assert_eq!(ids.len(), 3);
    for id in &ids {
        assert_eq!(uuid::Uuid::from_u128(*id).get_version_num(), 4);
    }
    assert_ne!(ids[0], ids[1]);
    assert_ne!(ids[1], ids[2]);
    assert_ne!(ids[0], ids[2]);
}

#[test]
fn empty_extraction_is_a_success() {
    let (pipeline, outcome, store) =
        drive(5, "nothing to ask", Ok("{\"questions\":[]}".to_string()), Some(vec![]), None, false);
    assert!(outcome.is_ok());
    assert_eq!(store.questions.len(), 0);
    assert_eq!(store.embeddings.len(), 0);
    assert_eq!(store.marked, vec![5]);
    assert!(pipeline.is_processed());
    assert_eq!(pipeline.stage(), Stage::Finished);
    assert_eq!(pipeline.questions().len(), 0);
    assert_eq!(pipeline.embeddings().len(), 0);
}

#[test]
fn failed_embedding_of_second_record_keeps_first_and_stops() {
    let records = vec![
        record("reading", "easy", "first"),
        record("reading", "medium", "second"),
        record("reading", "hard", "third"),
    ];
    let (pipeline, outcome, store) =
        drive(9, "text", Ok("{}".to_string()), Some(records), Some(1), false);
    match outcome {
        Err(ProcessingError::EmbeddingFailed { cause: ClientError::Upstream { status, body } }) => {
            assert_eq!(status, 503);
            assert_eq!(body, "second");
        }
        other => panic!("unexpected outcome {:?}", other),
    }
    assert_eq!(store.questions.len(), 2);
    assert_eq!(store.embeddings.len(), 1);
    assert_eq!(store.embeddings[0].0, store.questions[0].0);
    assert!(store.marked.is_empty());
    assert_eq!(pipeline.stage(), Stage::Failed);
    assert!(!pipeline.is_processed());
    assert_eq!(pipeline.questions().len(), 2);
    assert_eq!(pipeline.embeddings().len(), 1);
    assert_eq!(pipeline.embeddings()[0], pipeline.questions()[0]);
    assert!(matches!(pipeline.failure(), Some(ProcessingError::EmbeddingFailed { .. })));
}

#[test]
fn failed_embedding_of_first_record_leaves_one_question_without_embedding() {
    let records = vec![record("reading", "easy", "first"), record("reading", "easy", "second")];
    let (pipeline, outcome, store) =
        drive(9, "text", Ok("{}".to_string()), Some(records), Some(0), false);
    assert!(matches!(outcome, Err(ProcessingError::EmbeddingFailed { .. })));
    assert_eq!(store.questions.len(), 1);
    assert_eq!(store.embeddings.len(), 0);
    assert!(store.marked.is_empty());
    assert!(!pipeline.is_processed());
}

#[test]
fn unparseable_extraction_stores_nothing() {
    let (pipeline, outcome, store) =
        drive(3, "text", Ok("I cannot help with that".to_string()), None, None, false);
    assert!(matches!(outcome, Err(ProcessingError::MalformedExtraction)));
    assert_eq!(store.questions.len(), 0);
    assert_eq!(store.embeddings.len(), 0);
    assert!(store.marked.is_empty());
    assert_eq!(store.parsed, vec!["I cannot help with that".to_string()]);
    assert_eq!(pipeline.stage(), Stage::Failed);
    assert!(!pipeline.is_processed());
    assert!(matches!(pipeline.failure(), Some(ProcessingError::MalformedExtraction)));
}

#[test]
fn record_with_unknown_difficulty_makes_extraction_malformed() {
    let records = vec![record("reading", "easy", "first"), record("reading", "extreme", "second")];
    let (pipeline, outcome, store) =
        drive(3, "text", Ok("{}".to_string()), Some(records), None, false);
    assert!(matches!(outcome, Err(ProcessingError::MalformedExtraction)));
    assert_eq!(store.questions.len(), 0);
    assert!(store.marked.is_empty());
    assert_eq!(pipeline.record_count(), 0);
}

#[test]
fn record_with_empty_topic_makes_extraction_malformed() {
    let records = vec![record("", "easy", "first")];
    let (_, outcome, store) = drive(3, "text", Ok("{}".to_string()), Some(records), None, false);
    assert!(matches!(outcome, Err(ProcessingError::MalformedExtraction)));
    assert_eq!(store.questions.len(), 0);
}

#[test]
fn failed_extraction_ends_the_run() {
    let (pipeline, outcome, store) = drive(
        3,
        "text",
        Err(ClientError::Transport { reason: "timed out".to_string() }),
        None,
        None,
        false,
    );
    match outcome {
        Err(ProcessingError::ExtractionFailed { cause: ClientError::Transport { reason } }) => {
            assert_eq!(reason, "timed out")
        }
        other => panic!("unexpected outcome {:?}", other),
    }
    assert!(store.parsed.is_empty());
    assert_eq!(store.questions.len(), 0);
    assert!(store.marked.is_empty());
    assert!(!pipeline.is_processed());
}

#[test]
fn failed_mark_keeps_rows_and_leaves_material_unprocessed() {
    let records = vec![record("reading", "easy", "first")];
    let (pipeline, outcome, store) =
        drive(3, "text", Ok("{}".to_string()), Some(records), None, true);
    match outcome {
        Err(ProcessingError::PersistenceFailed { reason }) => {
            assert_eq!(reason, "connection closed")
        }
        other => panic!("unexpected outcome {:?}", other),
    }
    assert_eq!(store.questions.len(), 1);
    assert_eq!(store.embeddings.len(), 1);
    assert!(!pipeline.is_processed());
    assert_eq!(pipeline.stage(), Stage::Failed);
    assert_eq!(pipeline.questions().len(), 1);
    assert_eq!(pipeline.embeddings().len(), 1);
}

#[test]
fn refused_question_write_is_a_persistence_failure() {
    let (pipeline, _) = process_material(1, "t".to_string());
    let (pipeline, _) = pipeline.step_with(Event::Extracted { text: Ok("{}".to_string()) }, 0);
    let (pipeline, action) = pipeline
        .step_with(Event::Parsed { records: Some(vec![record("reading", "easy", "q")]) }, 77);
    match action {
        Action::InsertQuestion { id, material_id, .. } => {
            assert_eq!(id, 77);
            assert_eq!(material_id, 1);
        }
        other => panic!("unexpected action {:?}", other),
    }
    assert_eq!(pipeline.stage(), Stage::StoringQuestion);
    let (pipeline, action) =
        pipeline.step_with(Event::QuestionStored { result: Err("disk full".to_string()) }, 0);
    match action {
        Action::Finish { outcome: Err(ProcessingError::PersistenceFailed { reason }) } => {
            assert_eq!(reason, "disk full")
        }
        other => panic!("unexpected action {:?}", other),
    }
    assert_eq!(pipeline.questions().len(), 0);
    assert_eq!(pipeline.embeddings().len(), 0);
    assert!(!pipeline.is_processed());
}

#[test]
fn refused_embedding_write_is_a_persistence_failure() {
    let (pipeline, _) = process_material(1, "t".to_string());
    let (pipeline, _) = pipeline.step_with(Event::Extracted { text: Ok("{}".to_string()) }, 0);
    let (pipeline, _) = pipeline
        .step_with(Event::Parsed { records: Some(vec![record("reading", "easy", "q")]) }, 77);
    let (pipeline, action) = pipeline.step_with(Event::QuestionStored { result: Ok(()) }, 0);
    match action {
        Action::Embed { text } => assert_eq!(text, "q"),
        other => panic!("unexpected action {:?}", other),
    }
    let (pipeline, action) = pipeline.step_with(Event::Embedded { vector: Ok(vec![1, 2, 3]) }, 0);
    match action {
        Action::InsertEmbedding { question_id, source_text, vector } => {
            assert_eq!(question_id, 77);
            assert_eq!(source_text, "q");
            assert_eq!(vector, vec![1, 2, 3]);
        }
        other => panic!("unexpected action {:?}", other),
    }
    let (pipeline, action) =
        pipeline.step_with(Event::EmbeddingStored { result: Err("refused".to_string()) }, 0);
    assert!(matches!(
        action,
        Action::Finish { outcome: Err(ProcessingError::PersistenceFailed { .. }) }
    ));
    assert_eq!(pipeline.questions(), &vec![77]);
    assert_eq!(pipeline.embeddings().len(), 0);
    assert!(!pipeline.is_processed());
}

#[test]
fn step_with_uses_the_identifiers_it_is_given() {
    let (pipeline, _) = process_material(10, "t".to_string());
    let (pipeline, _) = pipeline.step_with(Event::Extracted { text: Ok("{}".to_string()) }, 1);
    let records = vec![record("reading", "easy", "a"), record("listening", "medium", "b")];
    let (pipeline, _) = pipeline.step_with(Event::Parsed { records: Some(records) }, 100);
    let (pipeline, _) = pipeline.step_with(Event::QuestionStored { result: Ok(()) }, 101);
    let (pipeline, _) = pipeline.step_with(Event::Embedded { vector: Ok(vec![]) }, 102);
    let (pipeline, action) = pipeline.step_with(Event::EmbeddingStored { result: Ok(()) }, 200);
    match action {
        Action::InsertQuestion { id, material_id, topic, content, difficulty } => {
            assert_eq!(id, 200);
            assert_eq!(material_id, 10);
            assert_eq!(topic, "listening");
            assert_eq!(content, Value::from("content of b"));
            assert_eq!(difficulty, Difficulty::Medium);
        }
        other => panic!("unexpected action {:?}", other),
    }
    let (pipeline, _) = pipeline.step_with(Event::QuestionStored { result: Ok(()) }, 0);
    let (pipeline, _) = pipeline.step_with(Event::Embedded { vector: Ok(vec![]) }, 0);
    let (pipeline, action) = pipeline.step_with(Event::EmbeddingStored { result: Ok(()) }, 300);
    match action {
        Action::MarkProcessed { material_id } => assert_eq!(material_id, 10),
        other => panic!("unexpected action {:?}", other),
    }
    assert_eq!(pipeline.stage(), Stage::Marking);
    let (pipeline, action) = pipeline.step_with(Event::Marked { result: Ok(()) }, 0);
    assert!(matches!(action, Action::Finish { outcome: Ok(()) }));
    assert_eq!(pipeline.questions(), &vec![100, 200]);
    assert_eq!(pipeline.embeddings(), &vec![100, 200]);
    assert!(pipeline.is_processed());
}

#[test]
fn event_out_of_turn_ends_the_run() {
    let (pipeline, _) = process_material(1, "t".to_string());
    let (pipeline, action) = pipeline.step(Event::Marked { result: Ok(()) });
    assert!(matches!(action, Action::Finish { outcome: Err(ProcessingError::UnexpectedEvent) }));
    assert_eq!(pipeline.stage(), Stage::Failed);
    assert!(!pipeline.is_processed());
}

#[test]
fn finished_run_answers_further_events_with_its_outcome() {
    let (pipeline, outcome, _) =
        drive(5, "t", Ok("{}".to_string()), Some(vec![]), None, false);
    assert!(outcome.is_ok());
    let (pipeline, action) = pipeline.step(Event::Marked { result: Err("late".to_string()) });
    assert!(matches!(action, Action::Finish { outcome: Ok(()) }));
    assert_eq!(pipeline.stage(), Stage::Finished);
    assert!(pipeline.is_processed());
}

#[test]
fn failed_run_answers_further_events_with_its_error() {
    let (pipeline, outcome, _) = drive(5, "t", Ok("x".to_string()), None, None, false);
    assert!(outcome.is_err());
    let (pipeline, action) = pipeline.step(Event::Marked { result: Ok(()) });
    assert!(matches!(action, Action::Finish { outcome: Err(ProcessingError::MalformedExtraction) }));
    assert_eq!(pipeline.stage(), Stage::Failed);
    assert!(!pipeline.is_processed());
}

#[test]
fn fenced_reply_reaches_the_parser_without_fences() {
    let (pipeline, _) = process_material(1, "t".to_string());
    let (_, action) = pipeline
        .step(Event::Extracted { text: Ok("  ```json{\"questions\":[]}```\n".to_string()) });
    match action {
        Action::ParseExtraction { text } => assert_eq!(text, "{\"questions\":[]}"),
        other => panic!("unexpected action {:?}", other),
    }
}

#[test]
fn processing_error_messages() {
    assert_eq!(ProcessingError::MalformedExtraction.message(), "malformed extraction");
    assert_eq!(ProcessingError::UnexpectedEvent.message(), "unexpected event");
    assert_eq!(
        ProcessingError::PersistenceFailed { reason: "disk full".to_string() }.message(),
        "persistence failed: disk full"
    );
    assert_eq!(
        ProcessingError::ExtractionFailed { cause: ClientError::MalformedResponse }.message(),
        "extraction failed: No content generated"
    );
    assert_eq!(
        ProcessingError::EmbeddingFailed {
            cause: ClientError::Upstream { status: 500, body: "boom".to_string() }
        }
        .message(),
        "embedding failed: Gemini API Error: boom"
    );
    let copy = ProcessingError::PersistenceFailed { reason: "x".to_string() }.duplicate();
    assert!(matches!(copy, ProcessingError::PersistenceFailed { reason } if reason == "x"));
}

#[test]
fn test_process_material_with_mock_gemini() {
    let raw_id = uuid::Uuid::new_v4();
    let records = vec![record("reading", "medium", "Unit Test Content for Processor Verification")];
    let (pipeline, result, store) = drive(
        raw_id.as_u128(),
        "Unit Test Content",
        Ok("{\"questions\": [{}]}".to_string()),
        Some(records),
        None,
        false,
    );
    assert!(result.is_ok(), "Processor failed: {:?}", result.err());
    let questions_count =
        store.questions.iter().filter(|q| q.1 == raw_id.as_u128()).count() as i64;
    assert!(questions_count > 0, "No questions were generated");
    let embeddings_count = store
        .embeddings
        .iter()
        .filter(|e| store.questions.iter().any(|q| q.0 == e.0 && q.1 == raw_id.as_u128()))
        .count() as i64;
    assert!(embeddings_count > 0, "No embeddings were generated");
    assert!(store.prompts[0].ends_with(" TEXT: Unit Test Content"));
    assert_eq!(store.marked, vec![raw_id.as_u128()]);
    assert!(pipeline.is_processed());
}
