//! The three capabilities that the exam workflow is composed of. Each is a
//! contract that any number of engines may meet; the workflow never asks
//! which engine it holds.

use vstd::prelude::*;

verus! {

/// A request for a personalized exam.
#[derive(Clone, Debug)]
pub struct ExamRequest {
    pub user_id: String,
}

/// Why an exam could not be generated.
#[derive(Clone, Debug)]
pub struct GenerationError {
    pub message: String,
}

/// Why a user's weak points could not be determined.
#[derive(Clone, Debug)]
pub struct PersonalizationError {
    pub message: String,
}

/// Why similar questions could not be looked up.
#[derive(Clone, Debug)]
pub struct AccessorError {
    pub message: String,
}

/// The view of an exam result: the artifact, or the error's message.
pub open spec fn exam_view(r: Result<serde_json::Value, GenerationError>) -> Result<
    serde_json::Value,
    Seq<char>,
> {
    match r {
        Ok(exam) => Ok(exam),
        Err(e) => Err(e.message@),
    }
}

/// The view of a weak-point result: the topic tags in order, or the error's
/// message.
pub open spec fn weak_points_view(r: Result<Vec<String>, PersonalizationError>) -> Result<
    Seq<Seq<char>>,
    Seq<char>,
> {
    match r {
        Ok(topics) => Ok(topics.deep_view()),
        Err(e) => Err(e.message@),
    }
}

/// The view of a lookup result: the payloads in order, or the error's
/// message.
pub open spec fn similar_view(r: Result<Vec<serde_json::Value>, AccessorError>) -> Result<
    Seq<serde_json::Value>,
    Seq<char>,
> {
    match r {
        Ok(found) => Ok(found@),
        Err(e) => Err(e.message@),
    }
}

/// Produces a new exam item for a topic and a difficulty.
pub trait ExamGenerationEngine {
    /// Whether the engine may give `outcome` when asked for an exam on
    /// `topic` at `difficulty`. An engine that says nothing of itself may
    /// give any outcome.
    open spec fn may_generate(
        &self,
        topic: Seq<char>,
        difficulty: Seq<char>,
        outcome: Result<serde_json::Value, Seq<char>>,
    ) -> bool {
        true
    }

    /// Generates an exam item. What comes back is one of the outcomes that
    /// the engine declares.
    fn generate_exam(&self, topic: &str, difficulty: &str) -> (r: Result<
        serde_json::Value,
        GenerationError,
    >)
        ensures
            self.may_generate(topic@, difficulty@, exam_view(r)),
    ;
}

/// Determines the topics that a user is weak on, most pressing first. An
/// empty list means that nothing is known of the user yet; it is no error.
pub trait PersonalizationEngine {
    /// Whether the engine may give `outcome` when asked about `user_id`. An
    /// engine that says nothing of itself may give any outcome.
    open spec fn may_determine(
        &self,
        user_id: Seq<char>,
        outcome: Result<Seq<Seq<char>>, Seq<char>>,
    ) -> bool {
        true
    }

    /// Determines the weak points of a user. What comes back is one of the
    /// outcomes that the engine declares.
    fn determine_weak_points(&self, user_id: &str) -> (r: Result<Vec<String>, PersonalizationError>)
        ensures
            self.may_determine(user_id@, weak_points_view(r)),
    ;
}

/// Finds stored questions that are close to a vector. The vector's
/// components are the bit patterns of single-precision numbers. No match,
/// or an index that holds nothing yet, gives an empty list; it is no error.
pub trait VectorAccessor {
    /// Whether the accessor may give `outcome` when asked for at most
    /// `limit` questions close to `vector`. An accessor that says nothing of
    /// itself may give any outcome.
    open spec fn may_find(
        &self,
        vector: Seq<u32>,
        limit: i64,
        outcome: Result<Seq<serde_json::Value>, Seq<char>>,
    ) -> bool {
        true
    }

    /// Looks up similar questions. What comes back is one of the outcomes
    /// that the accessor declares.
    fn find_similar_questions(&self, vector: &[u32], limit: i64) -> (r: Result<
        Vec<serde_json::Value>,
        AccessorError,
    >)
        ensures
            self.may_find(vector@, limit, similar_view(r)),
    ;
}

} // verus!
