use exam_backend::config::Config;
use exam_backend::gemini_client::{
    first_candidate_text, is_success, read_embedding, read_generated_text, Candidate, ClientError,
    ContentEmbedding, ContentResponse, EmbedContentResponse, EmbeddingReply, GeminiClient,
    GenerateContentResponse, GenerationReply, PartResponse,
};

fn client() -> GeminiClient {
    let config = Config::init(
        Some("postgres://localhost/exams".to_string()),
        Some("dummy_key".to_string()),
        Some("true".to_string()),
    );
    GeminiClient::new(&config)
}

fn envelope(texts: &[&str]) -> GenerateContentResponse {
    GenerateContentResponse {
        candidates: Some(vec![Candidate {
            content: Some(ContentResponse {
                parts: Some(texts.iter().map(|t| PartResponse { text: t.to_string() }).collect()),
            }),
        }]),
    }
}

#[test]
fn config_takes_values_as_given() {
    let config =
        Config::init(Some("db".to_string()), Some("key".to_string()), Some("true".to_string()));
    assert_eq!(config.database_url, "db");
    assert_eq!(config.gemini_api_key, "key");
    assert!(config.mock_gemini);
}

#[test]
fn config_mock_switch_is_on_only_for_true() {
    for (value, expected) in [
        (Some("true"), true),
        (Some("false"), false),
        (Some("TRUE"), false),
        (Some("1"), false),
        (Some(""), false),
        (None, false),
    ] {
        let config = Config::init(
            Some("db".to_string()),
            Some("key".to_string()),
            value.map(|v| v.to_string()),
        );
        assert_eq!(config.mock_gemini, expected, "value {:?}", value);
    }
}

#[test]
fn config_with_both_required_values_does_not_need_mock_switch() {
    let config = Config::init(
        Some("postgres://u:p@host/db".to_string()),
        Some("".to_string()),
        None,
    );
    assert_eq!(config.database_url, "postgres://u:p@host/db");
    assert_eq!(config.gemini_api_key, "");
    assert!(!config.mock_gemini);
}

#[test]
fn text_request_carries_the_prompt_unchanged() {
    let call = client().generate_text("Say hello");
    assert_eq!(
        call.url,
        "https://generativelanguage.googleapis.com/v1beta/models/gemini-1.5-pro:generateContent?key=dummy_key"
    );
    assert_eq!(call.body.contents.len(), 1);
    assert_eq!(call.body.contents[0].role, "user");
    assert_eq!(call.body.contents[0].parts.len(), 1);
    assert_eq!(call.body.contents[0].parts[0].text, "Say hello");
    assert!(call.body.generation_config.response_mime_type.is_none());
}

#[test]
fn json_request_appends_directive_and_asks_for_json() {
    let call = client().generate_json("List three colours");
    assert_eq!(
        call.url,
        "https://generativelanguage.googleapis.com/v1beta/models/gemini-1.5-pro:generateContent?key=dummy_key"
    );
    assert_eq!(call.body.contents.len(), 1);
    assert_eq!(call.body.contents[0].role, "user");
    assert_eq!(call.body.contents[0].parts.len(), 1);
    assert_eq!(
        call.body.contents[0].parts[0].text,
        "List three colours \n Respond in JSON format."
    );
    assert_eq!(
        call.body.generation_config.response_mime_type.as_deref(),
        Some("application/json")
    );
}

#[test]
fn embedding_request_carries_the_text() {
    let call = client().generate_embedding("Why is the sky blue?");
    assert_eq!(
        call.url,
        "https://generativelanguage.googleapis.com/v1beta/models/text-embedding-004:embedContent?key=dummy_key"
    );
    assert_eq!(call.body.content.role, "user");
    assert_eq!(call.body.content.parts.len(), 1);
    assert_eq!(call.body.content.parts[0].text, "Why is the sky blue?");
}

#[test]
fn success_is_the_2xx_range() {
    assert!(!is_success(199));
    assert!(is_success(200));
    assert!(is_success(204));
    assert!(is_success(299));
    assert!(!is_success(300));
    assert!(!is_success(404));
    assert!(!is_success(0));
    assert!(!is_success(u16::MAX));
}

#[test]
fn first_part_of_first_candidate_is_the_answer() {
    assert_eq!(first_candidate_text(&envelope(&["one", "two"])), Some("one".to_string()));
    let two = GenerateContentResponse {
        candidates: Some(vec![
            Candidate {
                content: Some(ContentResponse {
                    parts: Some(vec![PartResponse { text: "first".to_string() }]),
                }),
            },
            Candidate {
                content: Some(ContentResponse {
                    parts: Some(vec![PartResponse { text: "second".to_string() }]),
                }),
            },
        ]),
    };
    assert_eq!(first_candidate_text(&two), Some("first".to_string()));
}

#[test]
fn envelope_without_content_has_no_answer() {
    assert_eq!(first_candidate_text(&GenerateContentResponse { candidates: None }), None);
    assert_eq!(first_candidate_text(&GenerateContentResponse { candidates: Some(vec![]) }), None);
    assert_eq!(
        first_candidate_text(&GenerateContentResponse {
            candidates: Some(vec![Candidate { content: None }])
        }),
        None
    );
    assert_eq!(
        first_candidate_text(&GenerateContentResponse {
            candidates: Some(vec![Candidate { content: Some(ContentResponse { parts: None }) }])
        }),
        None
    );
    assert_eq!(first_candidate_text(&envelope(&[])), None);
    let later_only = GenerateContentResponse {
        candidates: Some(vec![
            Candidate { content: None },
            Candidate {
                content: Some(ContentResponse {
                    parts: Some(vec![PartResponse { text: "second".to_string() }]),
                }),
            },
        ]),
    };
    assert_eq!(first_candidate_text(&later_only), None);
}

#[test]
fn generation_reply_with_text_is_read() {
    let reply = GenerationReply::Answered {
        status: 200,
        body: "{...}".to_string(),
        decoded: Ok(envelope(&["generated"])),
    };
    assert_eq!(read_generated_text(reply).unwrap(), "generated");
}

#[test]
fn generation_reply_outside_2xx_is_upstream_error() {
    let reply = GenerationReply::Answered {
        status: 429,
        body: "quota exceeded".to_string(),
        decoded: Ok(envelope(&["ignored"])),
    };
    match read_generated_text(reply) {
        Err(ClientError::Upstream { status, body }) => {
            assert_eq!(status, 429);
            assert_eq!(body, "quota exceeded");
        }
        other => panic!("unexpected result {:?}", other),
    }
}

#[test]
fn generation_reply_without_candidate_is_malformed() {
    let reply = GenerationReply::Answered {
        status: 200,
        body: "{}".to_string(),
        decoded: Ok(GenerateContentResponse { candidates: None }),
    };
    assert!(matches!(read_generated_text(reply), Err(ClientError::MalformedResponse)));
}

#[test]
fn generation_reply_that_is_no_envelope_is_transport_error() {
    let reply = GenerationReply::Answered {
        status: 200,
        body: "<html>".to_string(),
        decoded: Err("expected value at line 1 column 1".to_string()),
    };
    match read_generated_text(reply) {
        Err(ClientError::Transport { reason }) => {
            assert_eq!(reason, "expected value at line 1 column 1")
        }
        other => panic!("unexpected result {:?}", other),
    }
}

#[test]
fn unreachable_backend_is_transport_error() {
    let reply = GenerationReply::Unreachable { reason: "connection refused".to_string() };
    match read_generated_text(reply) {
        Err(ClientError::Transport { reason }) => assert_eq!(reason, "connection refused"),
        other => panic!("unexpected result {:?}", other),
    }
    let reply = EmbeddingReply::Unreachable { reason: "connection refused".to_string() };
    match read_embedding(reply) {
        Err(ClientError::Transport { reason }) => assert_eq!(reason, "connection refused"),
        other => panic!("unexpected result {:?}", other),
    }
}

#[test]
fn embedding_reply_with_vector_is_read() {
    let values: Vec<u32> = [0.5f32, -1.0, 0.0].iter().map(|x| x.to_bits()).collect();
    let reply = EmbeddingReply::Answered {
        status: 200,
        body: "{...}".to_string(),
        decoded: Ok(EmbedContentResponse {
            embedding: Some(ContentEmbedding { values: values.clone() }),
        }),
    };
    let read = read_embedding(reply).unwrap();
    assert_eq!(read, values);
    let floats: Vec<f32> = read.iter().map(|b| f32::from_bits(*b)).collect();
    assert_eq!(floats, vec![0.5f32, -1.0, 0.0]);
}

#[test]
fn embedding_reply_without_embedding_is_malformed() {
    let reply = EmbeddingReply::Answered {
        status: 200,
        body: "{}".to_string(),
        decoded: Ok(EmbedContentResponse { embedding: None }),
    };
    assert!(matches!(read_embedding(reply), Err(ClientError::MalformedResponse)));
}

#[test]
fn embedding_reply_outside_2xx_is_upstream_error() {
    let reply = EmbeddingReply::Answered {
        status: 500,
        body: "internal".to_string(),
        decoded: Err("not read".to_string()),
    };
    match read_embedding(reply) {
        Err(ClientError::Upstream { status, body }) => {
            assert_eq!(status, 500);
            assert_eq!(body, "internal");
        }
        other => panic!("unexpected result {:?}", other),
    }
}

#[test]
fn embedding_reply_that_is_no_envelope_is_transport_error() {
    let reply = EmbeddingReply::Answered {
        status: 200,
        body: "oops".to_string(),
        decoded: Err("expected value".to_string()),
    };
    assert!(matches!(read_embedding(reply), Err(ClientError::Transport { .. })));
}

#[test]
fn client_error_messages() {
    assert_eq!(ClientError::Transport { reason: "timed out".to_string() }.message(), "timed out");
    assert_eq!(
        ClientError::Upstream { status: 400, body: "bad request".to_string() }.message(),
        "Gemini API Error: bad request"
    );
    assert_eq!(ClientError::MalformedResponse.message(), "No content generated");
    let copy = ClientError::Upstream { status: 400, body: "b".to_string() }.duplicate();
    assert!(matches!(copy, ClientError::Upstream { status: 400, body } if body == "b"));
}
