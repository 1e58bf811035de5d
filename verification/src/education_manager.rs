//! The exam workflow: personalize, choose a topic, generate.

use crate::engines::{has_history, lemma_no_history_no_weak_points, RandomPersonalizationEngine};
use crate::traits::{
    exam_view,
    weak_points_view,
    ExamGenerationEngine,
    GenerationError,
    PersonalizationEngine,
    PersonalizationError,
    VectorAccessor,
};
use vstd::prelude::*;
use vstd::string::*;

verus! {

/// Why the workflow gave no exam: the error of the engine that failed first.
#[derive(Clone, Debug)]
pub enum WorkflowError {
    Personalization { cause: PersonalizationError },
    Generation { cause: GenerationError },
}

/// The mathematical value of a `WorkflowError`.
pub enum WorkflowErrorView {
    Personalization { message: Seq<char> },
    Generation { message: Seq<char> },
}

impl View for WorkflowError {
    type V = WorkflowErrorView;

    open spec fn view(&self) -> WorkflowErrorView {
        match *self {
            WorkflowError::Personalization { cause } => WorkflowErrorView::Personalization {
                message: cause.message@,
            },
            WorkflowError::Generation { cause } => WorkflowErrorView::Generation {
                message: cause.message@,
            },
        }
    }
}

impl WorkflowError {
    /// The message of the engine that failed.
    pub fn message(&self) -> (r: String)
        ensures
            r@ == match self@ {
                WorkflowErrorView::Personalization { message } => message,
                WorkflowErrorView::Generation { message } => message,
            },
    {
        match self {
            WorkflowError::Personalization { cause } => cause.message.clone(),
            WorkflowError::Generation { cause } => cause.message.clone(),
        }
    }
}

/// The view of a workflow result.
pub open spec fn workflow_view(r: Result<serde_json::Value, WorkflowError>) -> Result<
    serde_json::Value,
    WorkflowErrorView,
> {
    match r {
        Ok(exam) => Ok(exam),
        Err(e) => Err(e@),
    }
}

/// The topic that exams are generated on where nothing is known of the user.
pub open spec fn default_topic() -> Seq<char> {
    "general"@
}

/// The difficulty that the workflow asks for.
pub open spec fn workflow_difficulty() -> Seq<char> {
    "medium"@
}

/// The topic chosen from a list of weak points: the first of the list, or
/// the default topic where the list is empty.
pub open spec fn chosen_topic(weak_points: Seq<Seq<char>>) -> Seq<char> {
    if weak_points.len() > 0 {
        weak_points[0]
    } else {
        default_topic()
    }
}

/// What the workflow returns once the exam engine has answered: the exam
/// unchanged, or the engine's error as the cause.
pub open spec fn workflow_outcome(exam: Result<serde_json::Value, Seq<char>>) -> Result<
    serde_json::Value,
    WorkflowErrorView,
> {
    match exam {
        Ok(artifact) => Ok(artifact),
        Err(message) => Err(WorkflowErrorView::Generation { message }),
    }
}

/// An empty list of weak points selects the default topic.
pub proof fn lemma_empty_profile_selects_default()
    ensures
        chosen_topic(Seq::empty()) == "general"@,
{
}

/// A non-empty list of weak points selects its first topic.
pub proof fn lemma_first_weak_point_is_chosen(weak_points: Seq<Seq<char>>)
    requires
        weak_points.len() > 0,
    ensures
        chosen_topic(weak_points) == weak_points[0],
{
}

/// Chooses the topic of the exam from the user's weak points.
pub fn select_topic(weak_points: &Vec<String>) -> (r: String)
    ensures
        r@ == chosen_topic(weak_points.deep_view()),
{
    if weak_points.len() > 0 {
        assert(weak_points.deep_view()[0] == weak_points@[0]@);
        weak_points[0].clone()
    } else {
        String::from_str("general")
    }
}

/// Composes the three capabilities into the exam workflow. The engines are
/// handed in when the manager is made, and are used only through their
/// contracts.
pub struct EducationManager<E: ExamGenerationEngine, P: PersonalizationEngine, V: VectorAccessor> {
    exam_engine: E,
    personalization_engine: P,
    vector_accessor: V,
}

impl<E: ExamGenerationEngine, P: PersonalizationEngine, V: VectorAccessor> EducationManager<
    E,
    P,
    V,
> {
    /// The engine that generates exams.
    pub closed spec fn exam_engine(&self) -> E {
        self.exam_engine
    }

    /// The engine that determines weak points.
    pub closed spec fn personalization_engine(&self) -> P {
        self.personalization_engine
    }

    /// The accessor that finds similar questions.
    pub closed spec fn vector_accessor(&self) -> V {
        self.vector_accessor
    }

    /// A manager that works with the three engines given.
    pub fn new(exam_engine: E, personalization_engine: P, vector_accessor: V) -> (r: Self)
        ensures
            r.exam_engine() == exam_engine,
            r.personalization_engine() == personalization_engine,
            r.vector_accessor() == vector_accessor,
    {
        EducationManager { exam_engine, personalization_engine, vector_accessor }
    }

    /// Whether the workflow for `user_id` may end in `outcome`: either the
    /// personalization engine fails and its error is the cause, or it gives
    /// weak points and the outcome is what the exam engine makes of the
    /// chosen topic at the workflow's difficulty.
    pub open spec fn may_return(
        &self,
        user_id: Seq<char>,
        outcome: Result<serde_json::Value, WorkflowErrorView>,
    ) -> bool {
        exists|weak: Result<Seq<Seq<char>>, Seq<char>>| #[trigger]
            self.personalization_engine().may_determine(user_id, weak) && match weak {
                Err(message) => outcome == Err::<serde_json::Value, WorkflowErrorView>(
                    WorkflowErrorView::Personalization { message },
                ),
                Ok(topics) => exists|exam: Result<serde_json::Value, Seq<char>>| #[trigger]
                    self.exam_engine().may_generate(chosen_topic(topics), workflow_difficulty(), exam)
                        && outcome == workflow_outcome(exam),
            }
    }

    /// Builds an exam for a user: determines the user's weak points, chooses
    /// the topic, and has the exam engine generate an exam on it at medium
    /// difficulty. The first engine that fails ends the workflow with its
    /// error; the exam is returned as the engine gave it.
    pub fn generate_personalized_exam(&self, user_id: &str) -> (r: Result<
        serde_json::Value,
        WorkflowError,
    >)
        ensures
            self.may_return(user_id@, workflow_view(r)),
    {
        let weak = self.personalization_engine.determine_weak_points(user_id);
        let ghost weak_seen = weak_points_view(weak);
        let weak_points = match weak {
            Ok(topics) => topics,
            Err(cause) => {
                let failed = Err(WorkflowError::Personalization { cause });
                assert(self.personalization_engine().may_determine(user_id@, weak_seen));
                return failed;
            },
        };
        let topic = select_topic(&weak_points);
        let exam = self.exam_engine.generate_exam(topic.as_str(), "medium");
        let ghost exam_seen = exam_view(exam);
        let r = match exam {
            Ok(artifact) => Ok(artifact),
            Err(cause) => Err(WorkflowError::Generation { cause }),
        };
        proof {
            assert(self.personalization_engine().may_determine(user_id@, weak_seen));
            assert(self.exam_engine().may_generate(
                chosen_topic(weak_seen->Ok_0),
                workflow_difficulty(),
                exam_seen,
            ));
            assert(workflow_view(r) == workflow_outcome(exam_seen));
        }
        r
    }
}

/// Where the personalization engine knows nothing of the user and answers
/// with an empty list, the workflow asks for an exam on the default topic,
/// and returns the exam that the exam engine generates for it.
pub proof fn lemma_empty_profile_still_yields_exam<
    E: ExamGenerationEngine,
    P: PersonalizationEngine,
    V: VectorAccessor,
>(manager: EducationManager<E, P, V>, user_id: Seq<char>, exam: serde_json::Value)
    requires
        manager.personalization_engine().may_determine(
            user_id,
            Ok::<Seq<Seq<char>>, Seq<char>>(Seq::empty()),
        ),
        manager.exam_engine().may_generate(
            "general"@,
            "medium"@,
            Ok::<serde_json::Value, Seq<char>>(exam),
        ),
    ensures
        manager.may_return(user_id, Ok::<serde_json::Value, WorkflowErrorView>(exam)),
{
    let weak = Ok::<Seq<Seq<char>>, Seq<char>>(Seq::empty());
    let generated = Ok::<serde_json::Value, Seq<char>>(exam);
    assert(manager.personalization_engine().may_determine(user_id, weak));
    assert(manager.exam_engine().may_generate(
        chosen_topic(weak->Ok_0),
        workflow_difficulty(),
        generated,
    ));
    assert(workflow_outcome(generated) == Ok::<serde_json::Value, WorkflowErrorView>(exam));
}

/// A failure of the personalization engine is the workflow's failure, with
/// the engine's error as the cause.
pub proof fn lemma_personalization_failure_propagates<
    E: ExamGenerationEngine,
    P: PersonalizationEngine,
    V: VectorAccessor,
>(manager: EducationManager<E, P, V>, user_id: Seq<char>, message: Seq<char>)
    requires
        manager.personalization_engine().may_determine(
            user_id,
            Err::<Seq<Seq<char>>, Seq<char>>(message),
        ),
    ensures
        manager.may_return(
            user_id,
            Err::<serde_json::Value, WorkflowErrorView>(
                WorkflowErrorView::Personalization { message },
            ),
        ),
{
    let weak = Err::<Seq<Seq<char>>, Seq<char>>(message);
    assert(manager.personalization_engine().may_determine(user_id, weak));
}

/// With the personalization that answers from what is on record, a user of
/// whom nothing is on record gets an exam on the default topic: the workflow
/// returns the exam that the exam engine generates for it.
pub proof fn lemma_user_without_history_gets_default_exam<
    E: ExamGenerationEngine,
    V: VectorAccessor,
>(
    manager: EducationManager<E, RandomPersonalizationEngine, V>,
    user_id: Seq<char>,
    exam: serde_json::Value,
)
    requires
        !has_history(manager.personalization_engine().history(), user_id),
        manager.exam_engine().may_generate(
            "general"@,
            "medium"@,
            Ok::<serde_json::Value, Seq<char>>(exam),
        ),
    ensures
        manager.may_return(user_id, Ok::<serde_json::Value, WorkflowErrorView>(exam)),
{
    lemma_no_history_no_weak_points(manager.personalization_engine().history(), user_id);
    lemma_empty_profile_still_yields_exam(manager, user_id, exam);
}

} // verus!
