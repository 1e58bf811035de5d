//! Intake of raw material: what is answered to a submission, and the run
//! that is started for it.

use crate::processor::{extraction_prompt, process_material, Action, ActionView, Pipeline, PipelineView};
use vstd::prelude::*;
use vstd::string::*;

verus! {

/// A submission of raw material.
#[derive(Clone, Debug)]
pub struct IngestRequest {
    pub url: String,
    pub raw_content: String,
    pub source_type: String,
}

/// The body of the answer to a submission.
#[derive(Clone, Debug)]
pub enum IngestBody {
    /// The material is stored under `id` and waits to be processed.
    Queued { id: u128, status: String },
    /// The material could not be stored.
    Failed { error: String },
}

/// The mathematical value of an `IngestBody`.
pub enum IngestBodyView {
    Queued { id: u128, status: Seq<char> },
    Failed { error: Seq<char> },
}

impl View for IngestBody {
    type V = IngestBodyView;

    open spec fn view(&self) -> IngestBodyView {
        match *self {
            IngestBody::Queued { id, status } => IngestBodyView::Queued { id, status: status@ },
            IngestBody::Failed { error } => IngestBodyView::Failed { error: error@ },
        }
    }
}

/// What follows from a submission: the answer to the submitter, and the run
/// to carry out in the background, with its first request.
#[derive(Debug)]
pub struct IngestOutcome {
    pub status: u16,
    pub body: IngestBody,
    pub job: Option<(Pipeline, Action)>,
}

/// The status that answers a submission that was stored.
pub const STATUS_CREATED: u16 = 201;

/// The status that answers a submission that could not be stored.
pub const STATUS_INTERNAL_SERVER_ERROR: u16 = 500;

/// The run that an outcome starts, as a mathematical value.
pub open spec fn job_view(job: Option<(Pipeline, Action)>) -> Option<(PipelineView, ActionView)> {
    match job {
        Some((pipeline, action)) => Some((pipeline@, action@)),
        None => None,
    }
}

/// What follows from the submission `payload` once the store has answered
/// with `stored`: the identifier under which the material is stored, or why
/// it is not.
pub open spec fn ingest_outcome(payload: IngestRequest, stored: Result<u128, String>) -> (
    u16,
    IngestBodyView,
    Option<(PipelineView, ActionView)>,
) {
    match stored {
        Ok(id) => (
            STATUS_CREATED,
            IngestBodyView::Queued { id, status: "queued"@ },
            Some(
                (
                    PipelineView::initial(id),
                    ActionView::GenerateStructured {
                        prompt: extraction_prompt(payload.raw_content@),
                    },
                ),
            ),
        ),
        Err(_) => (
            STATUS_INTERNAL_SERVER_ERROR,
            IngestBodyView::Failed { error: "Database error"@ },
            None,
        ),
    }
}

/// Answers a submission once the store has been asked to keep it. Where the
/// material is stored, the submitter is told that it is queued, and a run of
/// the pipeline is started for it; where it is not, the submitter is told of
/// a database error, whatever the store's reason, and nothing is started.
pub fn ingest_handler(payload: IngestRequest, stored: Result<u128, String>) -> (r: IngestOutcome)
    ensures
        (r.status, r.body@, job_view(r.job)) == ingest_outcome(payload, stored),
{
    match stored {
        Ok(id) => IngestOutcome {
            status: STATUS_CREATED,
            body: IngestBody::Queued { id, status: String::from_str("queued") },
            job: Some(process_material(id, payload.raw_content)),
        },
        Err(_) => IngestOutcome {
            status: STATUS_INTERNAL_SERVER_ERROR,
            body: IngestBody::Failed { error: String::from_str("Database error") },
            job: None,
        },
    }
}

} // verus!
