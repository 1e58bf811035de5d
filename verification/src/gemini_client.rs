//! The requests that the generative backend is sent, and the reading of its
//! replies. Sending is left to the caller: this module says what goes out and
//! what a reply means.

use crate::config::Config;
use vstd::prelude::*;
use vstd::string::*;

verus! {

/// Why a call to the generative backend gave no result.
#[derive(Clone, Debug)]
pub enum ClientError {
    /// The request could not be completed, or the reply's body could not be
    /// decoded as the backend's envelope.
    Transport { reason: String },
    /// The backend answered with a status outside the 2xx range.
    Upstream { status: u16, body: String },
    /// The reply was an envelope without the content that was asked for.
    MalformedResponse,
}

/// The mathematical value of a `ClientError`.
pub enum ClientErrorView {
    Transport { reason: Seq<char> },
    Upstream { status: u16, body: Seq<char> },
    MalformedResponse,
}

impl View for ClientError {
    type V = ClientErrorView;

    open spec fn view(&self) -> ClientErrorView {
        match *self {
            ClientError::Transport { reason } => ClientErrorView::Transport { reason: reason@ },
            ClientError::Upstream { status, body } => ClientErrorView::Upstream {
                status,
                body: body@,
            },
            ClientError::MalformedResponse => ClientErrorView::MalformedResponse,
        }
    }
}

impl ClientErrorView {
    /// The text that describes the error to a reader.
    pub open spec fn message(self) -> Seq<char> {
        match self {
            ClientErrorView::Transport { reason } => reason,
            ClientErrorView::Upstream { status, body } => "Gemini API Error: "@ + body,
            ClientErrorView::MalformedResponse => "No content generated"@,
        }
    }
}

impl ClientError {
    /// A second value of the same error.
    pub fn duplicate(&self) -> (r: ClientError)
        ensures
            r@ == self@,
    {
        match self {
            ClientError::Transport { reason } => ClientError::Transport { reason: reason.clone() },
            ClientError::Upstream { status, body } => ClientError::Upstream {
                status: *status,
                body: body.clone(),
            },
            ClientError::MalformedResponse => ClientError::MalformedResponse,
        }
    }

    /// The text that describes the error to a reader.
    pub fn message(&self) -> (r: String)
        ensures
            r@ == self@.message(),
    {
        match self {
            ClientError::Transport { reason } => reason.clone(),
            ClientError::Upstream { status: _, body } => {
                let mut out = String::from_str("Gemini API Error: ");
                out.append(body.as_str());
                out
            },
            ClientError::MalformedResponse => String::from_str("No content generated"),
        }
    }
}

/// One piece of text in a request.
#[derive(Clone, Debug)]
pub struct Part {
    pub text: String,
}

/// A role-tagged list of parts.
#[derive(Clone, Debug)]
pub struct Content {
    pub parts: Vec<Part>,
    pub role: String,
}

/// The hint that asks the backend for a structured reply.
#[derive(Clone, Debug)]
pub struct GenerationConfig {
    pub response_mime_type: Option<String>,
}

/// The body of a generation request.
#[derive(Clone, Debug)]
pub struct GenerateContentRequest {
    pub contents: Vec<Content>,
    pub generation_config: GenerationConfig,
}

/// The body of an embedding request.
#[derive(Clone, Debug)]
pub struct EmbedContentRequest {
    pub content: Content,
}

/// A generation request: where to post it and what to post.
#[derive(Clone, Debug)]
pub struct GenerationCall {
    pub url: String,
    pub body: GenerateContentRequest,
}

/// An embedding request: where to post it and what to post.
#[derive(Clone, Debug)]
pub struct EmbeddingCall {
    pub url: String,
    pub body: EmbedContentRequest,
}

/// One piece of text in a reply.
#[derive(Clone, Debug)]
pub struct PartResponse {
    pub text: String,
}

/// The content of one candidate.
#[derive(Clone, Debug)]
pub struct ContentResponse {
    pub parts: Option<Vec<PartResponse>>,
}

/// One candidate answer.
#[derive(Clone, Debug)]
pub struct Candidate {
    pub content: Option<ContentResponse>,
}

/// The envelope of a generation reply.
#[derive(Clone, Debug)]
pub struct GenerateContentResponse {
    pub candidates: Option<Vec<Candidate>>,
}

/// An embedding: each component is the bit pattern of a single-precision
/// number, in the order the backend gave them.
#[derive(Clone, Debug)]
pub struct ContentEmbedding {
    pub values: Vec<u32>,
}

/// The envelope of an embedding reply.
#[derive(Clone, Debug)]
pub struct EmbedContentResponse {
    pub embedding: Option<ContentEmbedding>,
}

/// What came back for a generation request.
#[derive(Debug)]
pub enum GenerationReply {
    /// No reply arrived.
    Unreachable { reason: String },
    /// A reply arrived: its status, its body as text, and the body decoded as
    /// an envelope, or why it could not be decoded.
    Answered { status: u16, body: String, decoded: Result<GenerateContentResponse, String> },
}

/// What came back for an embedding request.
#[derive(Debug)]
pub enum EmbeddingReply {
    /// No reply arrived.
    Unreachable { reason: String },
    /// A reply arrived: its status, its body as text, and the body decoded as
    /// an envelope, or why it could not be decoded.
    Answered { status: u16, body: String, decoded: Result<EmbedContentResponse, String> },
}

/// Where the backend's models are found.
pub open spec fn base_url() -> Seq<char> {
    "https://generativelanguage.googleapis.com/v1beta/models"@
}

/// The address that generation requests are posted to.
pub open spec fn generation_url(base: Seq<char>, key: Seq<char>) -> Seq<char> {
    base + "/gemini-1.5-pro:generateContent?key="@ + key
}

/// The address that embedding requests are posted to.
pub open spec fn embedding_url(base: Seq<char>, key: Seq<char>) -> Seq<char> {
    base + "/text-embedding-004:embedContent?key="@ + key
}

/// A prompt with the directive that asks for a structured reply.
pub open spec fn structured_prompt(prompt: Seq<char>) -> Seq<char> {
    prompt + " \n Respond in JSON format."@
}

/// Whether `content` is exactly one part, holding `text`, said by the user.
pub open spec fn is_user_text(content: Content, text: Seq<char>) -> bool {
    &&& content.role@ == "user"@
    &&& content.parts@.len() == 1
    &&& content.parts@[0].text@ == text
}

/// Whether a status is in the 2xx range.
pub open spec fn is_success_status(status: u16) -> bool {
    200 <= status < 300
}

/// The text of the first part of the first candidate, where the envelope
/// holds one.
pub open spec fn first_text(envelope: GenerateContentResponse) -> Option<Seq<char>> {
    match envelope.candidates {
        Some(candidates) => if candidates@.len() > 0 {
            match candidates@[0].content {
                Some(content) => match content.parts {
                    Some(parts) => if parts@.len() > 0 {
                        Some(parts@[0].text@)
                    } else {
                        None
                    },
                    None => None,
                },
                None => None,
            }
        } else {
            None
        },
        None => None,
    }
}

/// What a generation reply means: the generated text, or the error.
pub open spec fn generated_text(reply: GenerationReply) -> Result<Seq<char>, ClientErrorView> {
    match reply {
        GenerationReply::Unreachable { reason } => Err(
            ClientErrorView::Transport { reason: reason@ },
        ),
        GenerationReply::Answered { status, body, decoded } => if !is_success_status(status) {
            Err(ClientErrorView::Upstream { status, body: body@ })
        } else {
            match decoded {
                Err(reason) => Err(ClientErrorView::Transport { reason: reason@ }),
                Ok(envelope) => match first_text(envelope) {
                    Some(text) => Ok(text),
                    None => Err(ClientErrorView::MalformedResponse),
                },
            }
        },
    }
}

/// What an embedding reply means: the vector, or the error.
pub open spec fn embedded_vector(reply: EmbeddingReply) -> Result<Seq<u32>, ClientErrorView> {
    match reply {
        EmbeddingReply::Unreachable { reason } => Err(
            ClientErrorView::Transport { reason: reason@ },
        ),
        EmbeddingReply::Answered { status, body, decoded } => if !is_success_status(status) {
            Err(ClientErrorView::Upstream { status, body: body@ })
        } else {
            match decoded {
                Err(reason) => Err(ClientErrorView::Transport { reason: reason@ }),
                Ok(envelope) => match envelope.embedding {
                    Some(embedding) => Ok(embedding.values@),
                    None => Err(ClientErrorView::MalformedResponse),
                },
            }
        },
    }
}

/// The view of a text result.
pub open spec fn text_result_view(r: Result<String, ClientError>) -> Result<
    Seq<char>,
    ClientErrorView,
> {
    match r {
        Ok(text) => Ok(text@),
        Err(e) => Err(e@),
    }
}

/// The view of a vector result.
pub open spec fn vector_result_view(r: Result<Vec<u32>, ClientError>) -> Result<
    Seq<u32>,
    ClientErrorView,
> {
    match r {
        Ok(v) => Ok(v@),
        Err(e) => Err(e@),
    }
}

/// Tests a status for the 2xx range.
pub fn is_success(status: u16) -> (r: bool)
    ensures
        r == is_success_status(status),
{
    200 <= status && status < 300
}

/// A single user part that holds `text`.
fn user_content(text: String) -> (r: Content)
    ensures
        is_user_text(r, text@),
{
    let mut parts: Vec<Part> = Vec::new();
    parts.push(Part { text });
    Content { parts, role: String::from_str("user") }
}

/// The text of the first part of the first candidate of `envelope`.
pub fn first_candidate_text(envelope: &GenerateContentResponse) -> (r: Option<String>)
    ensures
        match r {
            Some(text) => first_text(*envelope) == Some(text@),
            None => first_text(*envelope) is None,
        },
{
    match &envelope.candidates {
        Some(candidates) => {
            if candidates.len() == 0 {
                return None;
            }
            match &candidates[0].content {
                Some(content) => match &content.parts {
                    Some(parts) => {
                        if parts.len() == 0 {
                            return None;
                        }
                        Some(parts[0].text.clone())
                    },
                    None => None,
                },
                None => None,
            }
        },
        None => None,
    }
}

/// Reads a generation reply: the text that the backend generated, or the
/// error that the reply amounts to. A status outside 2xx is an upstream
/// error with the reply's body; a body that is no envelope is a transport
/// error; an envelope without a first part is malformed.
pub fn read_generated_text(reply: GenerationReply) -> (r: Result<String, ClientError>)
    ensures
        text_result_view(r) == generated_text(reply),
{
    match reply {
        GenerationReply::Unreachable { reason } => Err(ClientError::Transport { reason }),
        GenerationReply::Answered { status, body, decoded } => {
            if !is_success(status) {
                return Err(ClientError::Upstream { status, body });
            }
            match decoded {
                Err(reason) => Err(ClientError::Transport { reason }),
                Ok(envelope) => match first_candidate_text(&envelope) {
                    Some(text) => Ok(text),
                    None => Err(ClientError::MalformedResponse),
                },
            }
        },
    }
}

/// Reads an embedding reply: the vector that the backend computed, or the
/// error that the reply amounts to, classified as for generation.
pub fn read_embedding(reply: EmbeddingReply) -> (r: Result<Vec<u32>, ClientError>)
    ensures
        vector_result_view(r) == embedded_vector(reply),
{
    match reply {
        EmbeddingReply::Unreachable { reason } => Err(ClientError::Transport { reason }),
        EmbeddingReply::Answered { status, body, decoded } => {
            if !is_success(status) {
                return Err(ClientError::Upstream { status, body });
            }
            match decoded {
                Err(reason) => Err(ClientError::Transport { reason }),
                Ok(envelope) => match envelope.embedding {
                    Some(embedding) => Ok(embedding.values),
                    None => Err(ClientError::MalformedResponse),
                },
            }
        },
    }
}

/// The credentials and address under which the backend is called.
#[derive(Clone, Debug)]
pub struct GeminiClient {
    api_key: String,
    base_url: String,
}

impl GeminiClient {
    /// The key that requests are signed with.
    pub closed spec fn api_key(&self) -> Seq<char> {
        self.api_key@
    }

    /// The address that requests are sent under.
    pub closed spec fn base(&self) -> Seq<char> {
        self.base_url@
    }

    /// A client for the public backend, with the key that `config` holds.
    pub fn new(config: &Config) -> (r: GeminiClient)
        ensures
            r.api_key() == config.gemini_api_key@,
            r.base() == base_url(),
    {
        GeminiClient {
            api_key: config.gemini_api_key.clone(),
            base_url: String::from_str("https://generativelanguage.googleapis.com/v1beta/models"),
        }
    }

    /// The address of the generation endpoint for this client.
    fn generation_endpoint(&self) -> (r: String)
        ensures
            r@ == generation_url(self.base(), self.api_key()),
    {
        let mut url = self.base_url.clone();
        url.append("/gemini-1.5-pro:generateContent?key=");
        url.append(self.api_key.as_str());
        url
    }

    /// The request for a free-form completion of `prompt`: the prompt as the
    /// one user part, and no hint on the reply's shape.
    pub fn generate_text(&self, prompt: &str) -> (r: GenerationCall)
        ensures
            r.url@ == generation_url(self.base(), self.api_key()),
            r.body.contents@.len() == 1,
            is_user_text(r.body.contents@[0], prompt@),
            r.body.generation_config.response_mime_type is None,
    {
        let mut contents: Vec<Content> = Vec::new();
        contents.push(user_content(String::from_str(prompt)));
        GenerationCall {
            url: self.generation_endpoint(),
            body: GenerateContentRequest {
                contents,
                generation_config: GenerationConfig { response_mime_type: None },
            },
        }
    }

    /// The request for a structured completion of `prompt`: the prompt with
    /// the directive to answer in JSON as the one user part, and the hint
    /// that the reply be JSON.
    pub fn generate_json(&self, prompt: &str) -> (r: GenerationCall)
        ensures
            r.url@ == generation_url(self.base(), self.api_key()),
            r.body.contents@.len() == 1,
            is_user_text(r.body.contents@[0], structured_prompt(prompt@)),
            r.body.generation_config.response_mime_type is Some,
            r.body.generation_config.response_mime_type->0@ == "application/json"@,
    {
        let mut text = String::from_str(prompt);
        text.append(" \n Respond in JSON format.");
        let mut contents: Vec<Content> = Vec::new();
        contents.push(user_content(text));
        GenerationCall {
            url: self.generation_endpoint(),
            body: GenerateContentRequest {
                contents,
                generation_config: GenerationConfig {
                    response_mime_type: Some(String::from_str("application/json")),
                },
            },
        }
    }

    /// The request for the embedding of `text`: the text as the one user part.
    pub fn generate_embedding(&self, text: &str) -> (r: EmbeddingCall)
        ensures
            r.url@ == embedding_url(self.base(), self.api_key()),
            is_user_text(r.body.content, text@),
    {
        let mut url = self.base_url.clone();
        url.append("/text-embedding-004:embedContent?key=");
        url.append(self.api_key.as_str());
        EmbeddingCall {
            url,
            body: EmbedContentRequest { content: user_content(String::from_str(text)) },
        }
    }
}

} // verus!
