//! The engines that come with the service: exam generation through the
//! generative backend, and a fixed personalization.

use crate::gemini_client::{
    generated_text,
    generation_url,
    is_user_text,
    read_generated_text,
    structured_prompt,
    GeminiClient,
    GenerationCall,
    GenerationReply,
};
use crate::json::{parse_json, parse_view, parsed_json};
use crate::text::{strip_fences, without_fences};
use crate::traits::{exam_view, GenerationError, PersonalizationEngine, PersonalizationError};
use vstd::prelude::*;
use vstd::string::*;

verus! {

/// The prompt that asks for one exam question on `topic` at `difficulty`.
pub open spec fn exam_prompt(difficulty: Seq<char>, topic: Seq<char>) -> Seq<char> {
    "Generate a "@ + difficulty + " difficulty exam question for topic: "@ + topic
        + ". Return as JSON."@
}

/// What a backend reply means for an exam request: the text is read from the
/// reply, freed of its decoration, and parsed as JSON. A reply that gives no
/// text fails with the client error's message, a text that is no JSON with
/// the parser's.
pub open spec fn exam_of_reply(reply: GenerationReply) -> Result<serde_json::Value, Seq<char>> {
    match generated_text(reply) {
        Ok(text) => parsed_json(without_fences(text)),
        Err(e) => Err(e.message()),
    }
}

/// Turns the parser's verdict on a reply into the engine's result.
pub fn exam_from_parse(parsed: Result<serde_json::Value, String>) -> (r: Result<
    serde_json::Value,
    GenerationError,
>)
    ensures
        exam_view(r) == parse_view(parsed),
{
    match parsed {
        Ok(exam) => Ok(exam),
        Err(message) => Err(GenerationError { message }),
    }
}

/// Generates exams by asking the generative backend.
#[derive(Clone, Debug)]
pub struct GeminiExamEngine {
    client: GeminiClient,
}

impl GeminiExamEngine {
    /// The client that requests are made with.
    pub closed spec fn client(&self) -> GeminiClient {
        self.client
    }

    /// An engine that asks the backend through `client`.
    pub fn new(client: GeminiClient) -> (r: GeminiExamEngine)
        ensures
            r.client() == client,
    {
        GeminiExamEngine { client }
    }

    /// The request that asks the backend for one exam question on `topic`
    /// at `difficulty`: a structured completion of the exam prompt.
    pub fn exam_request(&self, topic: &str, difficulty: &str) -> (r: GenerationCall)
        ensures
            r.url@ == generation_url(self.client().base(), self.client().api_key()),
            r.body.contents@.len() == 1,
            is_user_text(r.body.contents@[0], structured_prompt(exam_prompt(difficulty@, topic@))),
            r.body.generation_config.response_mime_type is Some,
            r.body.generation_config.response_mime_type->0@ == "application/json"@,
    {
        let mut prompt = String::from_str("Generate a ");
        prompt.append(difficulty);
        prompt.append(" difficulty exam question for topic: ");
        prompt.append(topic);
        prompt.append(". Return as JSON.");
        self.client.generate_json(prompt.as_str())
    }

    /// Reads the backend's reply to an exam request.
    pub fn read_exam(&self, reply: GenerationReply) -> (r: Result<serde_json::Value, GenerationError>)
        ensures
            exam_view(r) == exam_of_reply(reply),
    {
        match read_generated_text(reply) {
            Ok(text) => exam_from_parse(parse_json(strip_fences(text.as_str()))),
            Err(e) => Err(GenerationError { message: e.message() }),
        }
    }
}

/// What is on record of one user: the topics that the user is weak on, most
/// pressing first.
#[derive(Clone, Debug)]
pub struct UserHistory {
    pub user_id: String,
    pub weak_points: Vec<String>,
}

/// The mathematical value of a `UserHistory`.
pub struct UserHistoryView {
    pub user_id: Seq<char>,
    pub weak_points: Seq<Seq<char>>,
}

impl View for UserHistory {
    type V = UserHistoryView;

    open spec fn view(&self) -> UserHistoryView {
        UserHistoryView { user_id: self.user_id@, weak_points: self.weak_points.deep_view() }
    }
}

/// The values of a list of histories.
pub open spec fn history_views(history: Seq<UserHistory>) -> Seq<UserHistoryView> {
    history.map_values(|h: UserHistory| h@)
}

/// Whether `history` holds an entry for `user_id`.
pub open spec fn has_history(history: Seq<UserHistoryView>, user_id: Seq<char>) -> bool {
    exists|i: int| 0 <= i < history.len() && (#[trigger] history[i]).user_id == user_id
}

/// The weak points on record for `user_id`: those of the first entry for
/// that user, and the empty list where there is no entry.
pub open spec fn recorded_weak_points(
    history: Seq<UserHistoryView>,
    user_id: Seq<char>,
) -> Seq<Seq<char>>
    decreases history.len(),
{
    if history.len() == 0 {
        Seq::empty()
    } else if history[0].user_id == user_id {
        history[0].weak_points
    } else {
        recorded_weak_points(history.drop_first(), user_id)
    }
}

/// A personalization that answers from what is on record: a user's weak
/// points as recorded, and an empty list for a user of whom nothing is
/// known. It never fails.
#[derive(Clone, Debug)]
pub struct RandomPersonalizationEngine {
    history: Vec<UserHistory>,
}

impl RandomPersonalizationEngine {
    /// What the engine has on record, in the order given.
    pub closed spec fn history(&self) -> Seq<UserHistoryView> {
        history_views(self.history@)
    }

    /// An engine that has nothing on record of anyone.
    pub fn new() -> (r: RandomPersonalizationEngine)
        ensures
            r.history() == Seq::<UserHistoryView>::empty(),
    {
        let r = RandomPersonalizationEngine { history: Vec::new() };
        assert(r.history() =~= Seq::<UserHistoryView>::empty());
        r
    }

    /// An engine that has `history` on record.
    pub fn with_history(history: Vec<UserHistory>) -> (r: RandomPersonalizationEngine)
        ensures
            r.history() == history_views(history@),
    {
        RandomPersonalizationEngine { history }
    }
}

/// A copy of a list of topics.
fn copy_topics(topics: &Vec<String>) -> (r: Vec<String>)
    ensures
        r.deep_view() == topics.deep_view(),
{
    let mut out: Vec<String> = Vec::new();
    let mut k: usize = 0;
    while k < topics.len()
        invariant
            k <= topics.len(),
            out.len() == k,
            forall|j: int| 0 <= j < k ==> (#[trigger] out@[j])@ == topics@[j]@,
        decreases topics.len() - k,
    {
        out.push(topics[k].clone());
        k = k + 1;
    }
    assert(out.deep_view() =~= topics.deep_view());
    out
}

impl PersonalizationEngine for RandomPersonalizationEngine {
    open spec fn may_determine(
        &self,
        user_id: Seq<char>,
        outcome: Result<Seq<Seq<char>>, Seq<char>>,
    ) -> bool {
        outcome == Ok::<Seq<Seq<char>>, Seq<char>>(
            recorded_weak_points(self.history(), user_id),
        )
    }

    fn determine_weak_points(&self, user_id: &str) -> (r: Result<Vec<String>, PersonalizationError>) {
        let given = String::from_str(user_id);
        let ghost all = history_views(self.history@);
        let mut i: usize = 0;
        assert(all.skip(0) =~= all);
        while i < self.history.len()
            invariant
                i <= self.history.len(),
                all == history_views(self.history@),
                given@ == user_id@,
                recorded_weak_points(all.skip(i as int), user_id@) == recorded_weak_points(
                    all,
                    user_id@,
                ),
            decreases self.history.len() - i,
        {
            let ghost rest = all.skip(i as int);
            assert(rest[0] == self.history@[i as int]@);
            if self.history[i].user_id == given {
                let topics = copy_topics(&self.history[i].weak_points);
                return Ok(topics);
            }
            assert(rest.drop_first() =~= all.skip(i + 1));
            i = i + 1;
        }
        assert(all.skip(i as int).len() == 0);
        let none: Vec<String> = Vec::new();
        assert(none.deep_view() =~= Seq::<Seq<char>>::empty());
        Ok(none)
    }
}

/// The engine never fails, whoever the user is.
pub proof fn lemma_personalization_never_fails(
    engine: RandomPersonalizationEngine,
    user_id: Seq<char>,
    outcome: Result<Seq<Seq<char>>, Seq<char>>,
)
    requires
        engine.may_determine(user_id, outcome),
    ensures
        outcome is Ok,
{
}

/// Where nothing is on record of a user, no weak points are recorded for
/// that user.
pub proof fn lemma_no_history_no_weak_points(history: Seq<UserHistoryView>, user_id: Seq<char>)
    requires
        !has_history(history, user_id),
    ensures
        recorded_weak_points(history, user_id) == Seq::<Seq<char>>::empty(),
    decreases history.len(),
{
    if history.len() > 0 {
        assert(history[0].user_id != user_id);
        assert forall|i: int| 0 <= i < history.drop_first().len() implies (
        #[trigger] history.drop_first()[i]).user_id != user_id by {
            assert(history.drop_first()[i] == history[i + 1]);
        }
        lemma_no_history_no_weak_points(history.drop_first(), user_id);
    }
}

/// A user without history gets an empty list, not an error: the only answer
/// that the engine may give for such a user is the empty list.
pub proof fn lemma_user_without_history_gets_empty_list(
    engine: RandomPersonalizationEngine,
    user_id: Seq<char>,
    outcome: Result<Seq<Seq<char>>, Seq<char>>,
)
    requires
        !has_history(engine.history(), user_id),
        engine.may_determine(user_id, outcome),
    ensures
        outcome == Ok::<Seq<Seq<char>>, Seq<char>>(Seq::empty()),
{
    lemma_no_history_no_weak_points(engine.history(), user_id);
}

/// A user with history gets the weak points of the first entry on record
/// for that user, in the order recorded.
pub proof fn lemma_user_with_history_gets_first_record(
    history: Seq<UserHistoryView>,
    user_id: Seq<char>,
    at: int,
)
    requires
        0 <= at < history.len(),
        history[at].user_id == user_id,
        forall|i: int| 0 <= i < at ==> (#[trigger] history[i]).user_id != user_id,
    ensures
        recorded_weak_points(history, user_id) == history[at].weak_points,
    decreases at,
{
    if at > 0 {
        assert(history[0].user_id != user_id);
        assert forall|i: int| 0 <= i < at - 1 implies (#[trigger] history.drop_first()[i]).user_id
            != user_id by {
            assert(history.drop_first()[i] == history[i + 1]);
        }
        lemma_user_with_history_gets_first_record(history.drop_first(), user_id, at - 1);
    }
}

} // verus!
