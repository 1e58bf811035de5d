use exam_backend::ingest::{
    ingest_handler, IngestBody, IngestRequest, STATUS_CREATED, STATUS_INTERNAL_SERVER_ERROR,
};
use exam_backend::processor::{Action, Stage};

fn submission() -> IngestRequest {
    IngestRequest {
        url: "http://test.com/unit-test".to_string(),
        raw_content: "Unit Test Content".to_string(),
        source_type: "unit-test".to_string(),
    }
}

#[test]
fn stored_submission_is_queued_and_a_run_is_started() {
    let outcome = ingest_handler(submission(), Ok(0xABCD));
    assert_eq!(outcome.status, 201);
    assert_eq!(outcome.status, STATUS_CREATED);
    match outcome.body {
        IngestBody::Queued { id, status } => {
            assert_eq!(id, 0xABCD);
            assert_eq!(status, "queued");
        }
        other => panic!("unexpected body {:?}", other),
    }
    let (pipeline, action) = outcome.job.unwrap();
    assert_eq!(pipeline.material_id(), 0xABCD);
    assert_eq!(pipeline.stage(), Stage::Extracting);
    match action {
        Action::GenerateStructured { prompt } => assert!(prompt.ends_with(" TEXT: Unit Test Content")),
        other => panic!("unexpected action {:?}", other),
    }
}

#[test]
fn refused_submission_reports_database_error_and_starts_nothing() {
    let outcome = ingest_handler(submission(), Err("relation does not exist".to_string()));
    assert_eq!(outcome.status, 500);
    assert_eq!(outcome.status, STATUS_INTERNAL_SERVER_ERROR);
    match outcome.body {
        IngestBody::Failed { error } => assert_eq!(error, "Database error"),
        other => panic!("unexpected body {:?}", other),
    }
    assert!(outcome.job.is_none());
}
