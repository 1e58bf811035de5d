//! The question records that an extraction yields, and the rules that a
//! record must meet before it is stored.

use vstd::prelude::*;
use vstd::string::*;

verus! {

/// How hard a question is: one of a closed set.
#[derive(Clone, Copy, Debug, PartialEq, Eq, Structural)]
pub enum Difficulty {
    Easy,
    Medium,
    Hard,
}

impl Difficulty {
    /// The tag that stands for this difficulty in text.
    pub open spec fn tag(self) -> Seq<char> {
        match self {
            Difficulty::Easy => "easy"@,
            Difficulty::Medium => "medium"@,
            Difficulty::Hard => "hard"@,
        }
    }

    /// The tag that stands for this difficulty in text.
    pub fn as_str(&self) -> (r: &'static str)
        ensures
            r@ == self.tag(),
    {
        match self {
            Difficulty::Easy => "easy",
            Difficulty::Medium => "medium",
            Difficulty::Hard => "hard",
        }
    }

    /// The difficulty that `tag` names, if it names one. Tags are matched
    /// exactly: no other spelling or case is accepted.
    pub fn parse(tag: &str) -> (r: Option<Difficulty>)
        ensures
            r == difficulty_of(tag@),
    {
        let given = String::from_str(tag);
        if given == String::from_str("easy") {
            Some(Difficulty::Easy)
        } else if given == String::from_str("medium") {
            Some(Difficulty::Medium)
        } else if given == String::from_str("hard") {
            Some(Difficulty::Hard)
        } else {
            None
        }
    }
}

/// The difficulty that `tag` names, if it names one.
pub open spec fn difficulty_of(tag: Seq<char>) -> Option<Difficulty> {
    if tag == "easy"@ {
        Some(Difficulty::Easy)
    } else if tag == "medium"@ {
        Some(Difficulty::Medium)
    } else if tag == "hard"@ {
        Some(Difficulty::Hard)
    } else {
        None
    }
}

/// Every difficulty is named by its own tag, and by no other difficulty's.
pub proof fn lemma_tag_names_difficulty(d: Difficulty)
    ensures
        difficulty_of(d.tag()) == Some(d),
{
    reveal_strlit("easy");
    reveal_strlit("medium");
    reveal_strlit("hard");
    assert("medium"@.len() != "easy"@.len());
    assert("hard"@[0] != "easy"@[0]);
    assert("hard"@.len() != "medium"@.len());
}

/// A question record as an extraction reports it, not yet checked.
#[derive(Clone, Debug)]
pub struct ExtractedQuestion {
    pub topic: String,
    pub difficulty: String,
    pub content: serde_json::Value,
    pub text_for_embedding: String,
}

/// The mathematical value of an `ExtractedQuestion`.
pub struct ExtractedQuestionView {
    pub topic: Seq<char>,
    pub difficulty: Seq<char>,
    pub content: serde_json::Value,
    pub text_for_embedding: Seq<char>,
}

impl View for ExtractedQuestion {
    type V = ExtractedQuestionView;

    open spec fn view(&self) -> ExtractedQuestionView {
        ExtractedQuestionView {
            topic: self.topic@,
            difficulty: self.difficulty@,
            content: self.content,
            text_for_embedding: self.text_for_embedding@,
        }
    }
}

/// A question record that has passed the checks and is ready to be stored.
#[derive(Clone, Debug)]
pub struct QuestionDraft {
    pub topic: String,
    pub difficulty: Difficulty,
    pub content: serde_json::Value,
    pub text_for_embedding: String,
}

/// The mathematical value of a `QuestionDraft`.
pub struct QuestionDraftView {
    pub topic: Seq<char>,
    pub difficulty: Difficulty,
    pub content: serde_json::Value,
    pub text_for_embedding: Seq<char>,
}

impl View for QuestionDraft {
    type V = QuestionDraftView;

    open spec fn view(&self) -> QuestionDraftView {
        QuestionDraftView {
            topic: self.topic@,
            difficulty: self.difficulty,
            content: self.content,
            text_for_embedding: self.text_for_embedding@,
        }
    }
}

impl ExtractedQuestionView {
    /// Whether the record may be stored: its topic is not empty and its
    /// difficulty is one of the closed set.
    pub open spec fn is_valid(self) -> bool {
        self.topic.len() > 0 && difficulty_of(self.difficulty) is Some
    }

    /// The draft that a valid record becomes.
    pub open spec fn draft(self) -> QuestionDraftView
        recommends
            self.is_valid(),
    {
        QuestionDraftView {
            topic: self.topic,
            difficulty: difficulty_of(self.difficulty)->0,
            content: self.content,
            text_for_embedding: self.text_for_embedding,
        }
    }
}

/// The values of a list of extracted records.
pub open spec fn extracted_views(records: Seq<ExtractedQuestion>) -> Seq<ExtractedQuestionView> {
    records.map_values(|r: ExtractedQuestion| r@)
}

/// The values of a list of drafts.
pub open spec fn draft_views(drafts: Seq<QuestionDraft>) -> Seq<QuestionDraftView> {
    drafts.map_values(|d: QuestionDraft| d@)
}

/// Whether every record of the list may be stored.
pub open spec fn all_valid(records: Seq<ExtractedQuestionView>) -> bool {
    forall|i: int| 0 <= i < records.len() ==> (#[trigger] records[i]).is_valid()
}

/// The drafts that a list of records becomes: one per record, in order,
/// where every record is valid; nothing where one is not.
pub open spec fn validated(records: Seq<ExtractedQuestionView>) -> Option<Seq<QuestionDraftView>> {
    if all_valid(records) {
        Some(records.map_values(|r: ExtractedQuestionView| r.draft()))
    } else {
        None
    }
}

impl ExtractedQuestion {
    /// Checks the record and turns it into a draft. The record is refused
    /// where its topic is empty or its difficulty is not one of the closed set.
    pub fn validate(self) -> (r: Option<QuestionDraft>)
        ensures
            match r {
                Some(d) => self@.is_valid() && d@ == self@.draft(),
                None => !self@.is_valid(),
            },
    {
        if self.topic.as_str().is_empty() {
            return None;
        }
        match Difficulty::parse(self.difficulty.as_str()) {
            Some(difficulty) => Some(
                QuestionDraft {
                    topic: self.topic,
                    difficulty,
                    content: self.content,
                    text_for_embedding: self.text_for_embedding,
                },
            ),
            None => None,
        }
    }
}

/// Checks every record of an extraction, in order. The whole list is
/// refused where one record is.
pub fn validate_all(records: Vec<ExtractedQuestion>) -> (r: Option<Vec<QuestionDraft>>)
    ensures
        match r {
            Some(drafts) => validated(extracted_views(records@)) == Some(draft_views(drafts@)),
            None => validated(extracted_views(records@)) is None,
        },
{
    let ghost given = extracted_views(records@);
    let mut drafts: Vec<QuestionDraft> = Vec::new();
    for record in it: records
        invariant
            extracted_views(it.seq()) == given,
            drafts@.len() == it.index(),
            forall|i: int| 0 <= i < drafts@.len() ==> (#[trigger] given[i]).is_valid(),
            forall|i: int|
                0 <= i < drafts@.len() ==> (#[trigger] drafts@[i])@ == given[i].draft(),
    {
        let ghost k = drafts@.len() as int;
        assert(record@ == given[k]);
        match record.validate() {
            Some(draft) => {
                drafts.push(draft);
            },
            None => {
                assert(!given[k].is_valid());
                return None;
            },
        }
    }
    assert(all_valid(given));
    assert(draft_views(drafts@) =~= given.map_values(|r: ExtractedQuestionView| r.draft()));
    Some(drafts)
}

} // verus!
