use exam_backend::model::{validate_all, Difficulty, ExtractedQuestion};
use serde_json::Value;

fn raw(topic: &str, difficulty: &str) -> ExtractedQuestion {
    ExtractedQuestion {
        topic: topic.to_string(),
        difficulty: difficulty.to_string(),
        content: Value::Null,
        text_for_embedding: "text".to_string(),
    }
}

#[test]
fn difficulty_tags_round_trip() {
    for d in [Difficulty::Easy, Difficulty::Medium, Difficulty::Hard] {
        assert_eq!(Difficulty::parse(d.as_str()), Some(d));
    }
    assert_eq!(Difficulty::Easy.as_str(), "easy");
    assert_eq!(Difficulty::Medium.as_str(), "medium");
    assert_eq!(Difficulty::Hard.as_str(), "hard");
}

#[test]
fn difficulty_tags_are_matched_exactly() {
    assert_eq!(Difficulty::parse("Easy"), None);
    assert_eq!(Difficulty::parse(" easy"), None);
    assert_eq!(Difficulty::parse(""), None);
    assert_eq!(Difficulty::parse("harder"), None);
}

#[test]
fn valid_record_becomes_a_draft() {
    let mut r = raw("reading", "medium");
    r.content = Value::from(3);
    let draft = r.validate().unwrap();
    assert_eq!(draft.topic, "reading");
    assert_eq!(draft.difficulty, Difficulty::Medium);
    assert_eq!(draft.content, Value::from(3));
    assert_eq!(draft.text_for_embedding, "text");
}

#[test]
fn invalid_records_are_refused() {
    assert!(raw("", "easy").validate().is_none());
    assert!(raw("reading", "trivial").validate().is_none());
}

#[test]
fn validate_all_keeps_order() {
    let drafts =
        validate_all(vec![raw("a", "easy"), raw("b", "hard"), raw("c", "medium")]).unwrap();
    let topics: Vec<&str> = drafts.iter().map(|d| d.topic.as_str()).collect();
    assert_eq!(topics, vec!["a", "b", "c"]);
    assert_eq!(drafts[1].difficulty, Difficulty::Hard);
}

#[test]
fn validate_all_refuses_the_list_for_one_bad_record() {
    assert!(validate_all(vec![raw("a", "easy"), raw("b", "nope")]).is_none());
    assert!(validate_all(vec![raw("", "easy"), raw("b", "hard")]).is_none());
    assert_eq!(validate_all(vec![]).unwrap().len(), 0);
}
