//! DashScope request types: messages with text or media, generation
//! parameters, and the request builder.

use vstd::prelude::*;
use crate::error::DashScopeError;
use crate::text::{contains_seq, contains_str, owned};

verus! {

/// A video: one URL, or the URLs of its frames.
#[derive(Debug, Clone)]
pub enum VideoInput {
    Single(String),
    Multiple(Vec<String>),
}

/// One element of multimodal content: an image, video, audio or text.
#[derive(Debug, Clone)]
pub struct MediaElement {
    /// Image URL, Base64 or local path.
    pub image: Option<String>,
    pub video: Option<VideoInput>,
    /// Frames per second sampled from `video`, as the bit pattern of an `f32`.
    pub fps: Option<u32>,
    /// Audio URL or Base64.
    pub audio: Option<String>,
    pub text: Option<String>,
}

impl MediaElement {
    /// An image element.
    pub fn image(url: &str) -> (r: Self)
        ensures
            r.image matches Some(u) && u@ == url@,
            r.video is None && r.fps is None && r.audio is None && r.text is None,
    {
        MediaElement { image: Some(owned(url)), video: None, fps: None, audio: None, text: None }
    }

    /// A text element.
    pub fn text(content: &str) -> (r: Self)
        ensures
            r.text matches Some(t) && t@ == content@,
            r.image is None && r.video is None && r.fps is None && r.audio is None,
    {
        MediaElement { image: None, video: None, fps: None, audio: None, text: Some(owned(content)) }
    }

    /// A video element, with an optional frame rate (bit pattern of an `f32`).
    pub fn video(urls: VideoInput, fps: Option<u32>) -> (r: Self)
        ensures
            r.video == Some(urls),
            r.fps == fps,
            r.image is None && r.audio is None && r.text is None,
    {
        MediaElement { image: None, video: Some(urls), fps, audio: None, text: None }
    }

    /// An audio element.
    pub fn audio(url: &str) -> (r: Self)
        ensures
            r.audio matches Some(u) && u@ == url@,
            r.image is None && r.video is None && r.fps is None && r.text is None,
    {
        MediaElement { image: None, video: None, fps: None, audio: Some(owned(url)), text: None }
    }
}

/// What a message says: plain text, or multimodal elements.
#[derive(Debug, Clone)]
pub enum Content {
    Text(String),
    Multimodal(Vec<MediaElement>),
}

impl Content {
    /// Plain text.
    pub fn text(s: &str) -> (r: Self)
        ensures
            r matches Content::Text(t) && t@ == s@,
    {
        Content::Text(owned(s))
    }

    /// Multimodal elements.
    pub fn multimodal(elements: Vec<MediaElement>) -> (r: Self)
        ensures
            r == Content::Multimodal(elements),
    {
        Content::Multimodal(elements)
    }
}

impl From<String> for Content {
    fn from(s: String) -> (r: Self) {
        Content::Text(s)
    }
}

impl vstd::std_specs::convert::FromSpecImpl<String> for Content {
    open spec fn obeys_from_spec() -> bool {
        true
    }

    open spec fn from_spec(s: String) -> Self {
        Content::Text(s)
    }
}

impl From<Vec<MediaElement>> for Content {
    fn from(v: Vec<MediaElement>) -> (r: Self) {
        Content::Multimodal(v)
    }
}

impl vstd::std_specs::convert::FromSpecImpl<Vec<MediaElement>> for Content {
    open spec fn obeys_from_spec() -> bool {
        true
    }

    open spec fn from_spec(v: Vec<MediaElement>) -> Self {
        Content::Multimodal(v)
    }
}

/// Who speaks in a message.
#[derive(Debug, Clone, Copy, PartialEq, Eq, Structural)]
pub enum Role {
    System,
    User,
    Assistant,
    Tool,
}

/// One message of a conversation.
#[derive(Debug, Clone)]
pub struct Message {
    pub role: Role,
    pub content: Content,
}

impl Message {
    /// A system message.
    pub fn system(content: Content) -> (r: Self)
        ensures
            r.role == Role::System && r.content == content,
    {
        Message { role: Role::System, content }
    }

    /// A user message.
    pub fn user(content: Content) -> (r: Self)
        ensures
            r.role == Role::User && r.content == content,
    {
        Message { role: Role::User, content }
    }

    /// An assistant message.
    pub fn assistant(content: Content) -> (r: Self)
        ensures
            r.role == Role::Assistant && r.content == content,
    {
        Message { role: Role::Assistant, content }
    }
}

/// The input of a request.
#[derive(Debug, Clone)]
pub struct Input {
    pub messages: Vec<Message>,
}

/// Generation parameters. Floats are given as `f32` bit patterns.
#[derive(Debug, Clone)]
pub struct Parameters {
    pub temperature: Option<u32>,
    pub top_p: Option<u32>,
    pub max_tokens: Option<u32>,
    /// Answer format; `"message"` is recommended.
    pub result_format: Option<String>,
    pub stop: Option<Vec<String>>,
    pub stream: Option<bool>,
    /// Whether a stream carries increments only.
    pub incremental_output: Option<bool>,
}

impl Parameters {
    pub open spec fn is_empty(self) -> bool {
        &&& self.temperature is None
        &&& self.top_p is None
        &&& self.max_tokens is None
        &&& self.result_format is None
        &&& self.stop is None
        &&& self.stream is None
        &&& self.incremental_output is None
    }
}

impl Default for Parameters {
    fn default() -> (r: Self)
        ensures
            r.is_empty(),
    {
        Parameters {
            temperature: None,
            top_p: None,
            max_tokens: None,
            result_format: None,
            stop: None,
            stream: None,
            incremental_output: None,
        }
    }
}

/// Which service a request goes to.
#[derive(Debug, Clone, Copy, PartialEq, Eq, Structural)]
pub enum ApiEndpoint {
    /// `/services/aigc/text-generation/generation`
    TextGeneration,
    /// `/services/aigc/multimodal-generation/generation`
    MultimodalGeneration,
}

/// A generation request.
#[derive(Debug, Clone)]
pub struct GenerationRequest {
    pub model: String,
    pub input: Input,
    pub parameters: Option<Parameters>,
    /// The endpoint asked for; chosen from the model where `None`.
    pub endpoint: Option<ApiEndpoint>,
}

/// The endpoint for a model name: multimodal where the name contains
/// `vl`, `vision` or `qwen3.5`, else text generation.
pub open spec fn endpoint_for_model(model: Seq<char>) -> ApiEndpoint {
    if contains_seq(model, "vl"@) || contains_seq(model, "vision"@) || contains_seq(model, "qwen3.5"@) {
        ApiEndpoint::MultimodalGeneration
    } else {
        ApiEndpoint::TextGeneration
    }
}

impl GenerationRequest {
    /// A builder.
    pub fn builder() -> (r: GenerationRequestBuilder)
        ensures
            r.is_empty(),
    {
        GenerationRequestBuilder::new()
    }

    /// The endpoint the request goes to: the one asked for, else the one
    /// the model name calls for.
    pub fn resolved_endpoint(&self) -> (r: ApiEndpoint)
        ensures
            r == match self.endpoint {
                Some(e) => e,
                None => endpoint_for_model(self.model@),
            },
    {
        match self.endpoint {
            Some(e) => e,
            None => {
                let m = self.model.as_str();
                if contains_str(m, "vl") || contains_str(m, "vision") || contains_str(m, "qwen3.5") {
                    ApiEndpoint::MultimodalGeneration
                } else {
                    ApiEndpoint::TextGeneration
                }
            },
        }
    }
}

/// Builds a [`GenerationRequest`]; model and messages are required.
#[derive(Debug)]
pub struct GenerationRequestBuilder {
    pub model: Option<String>,
    pub messages: Option<Vec<Message>>,
    pub parameters: Option<Parameters>,
    pub endpoint: Option<ApiEndpoint>,
}

/// The parameters, or empty ones where there are none yet.
pub open spec fn params_or_default(p: Option<Parameters>) -> Parameters {
    match p {
        Some(p) => p,
        None => Parameters {
            temperature: None,
            top_p: None,
            max_tokens: None,
            result_format: None,
            stop: None,
            stream: None,
            incremental_output: None,
        },
    }
}

/// `new` is `old` with one parameter set: `same` holds of every other field.
pub open spec fn keeps_others(new: GenerationRequestBuilder, old: GenerationRequestBuilder) -> bool {
    &&& new.model == old.model
    &&& new.messages == old.messages
    &&& new.endpoint == old.endpoint
    &&& new.parameters is Some
}

impl GenerationRequestBuilder {
    pub open spec fn is_empty(self) -> bool {
        &&& self.model is None
        &&& self.messages is None
        &&& self.parameters is None
        &&& self.endpoint is None
    }

    /// A builder with nothing set.
    pub fn new() -> (r: Self)
        ensures
            r.is_empty(),
    {
        GenerationRequestBuilder { model: None, messages: None, parameters: None, endpoint: None }
    }

    pub fn model(self, model: &str) -> (r: Self)
        ensures
            r.model matches Some(m) && m@ == model@,
            r.messages == self.messages && r.parameters == self.parameters && r.endpoint == self.endpoint,
    {
        GenerationRequestBuilder { model: Some(owned(model)), ..self }
    }

    pub fn messages(self, messages: Vec<Message>) -> (r: Self)
        ensures
            r.messages == Some(messages),
            r.model == self.model && r.parameters == self.parameters && r.endpoint == self.endpoint,
    {
        GenerationRequestBuilder { messages: Some(messages), ..self }
    }

    pub fn parameters(self, parameters: Parameters) -> (r: Self)
        ensures
            r.parameters == Some(parameters),
            r.model == self.model && r.messages == self.messages && r.endpoint == self.endpoint,
    {
        GenerationRequestBuilder { parameters: Some(parameters), ..self }
    }

    /// Splits off the parameters, empty ones where there are none yet.
    fn take_params(self) -> (r: (Parameters, Self))
        ensures
            r.0 == params_or_default(self.parameters),
            r.1.model == self.model && r.1.messages == self.messages && r.1.endpoint == self.endpoint,
    {
        let GenerationRequestBuilder { model, messages, parameters, endpoint } = self;
        let p = match parameters {
            Some(p) => p,
            None => Parameters::default(),
        };
        (p, GenerationRequestBuilder { model, messages, parameters: None, endpoint })
    }

    /// Sets the temperature (bit pattern of an `f32`).
    pub fn temperature(self, temperature: u32) -> (r: Self)
        ensures
            keeps_others(r, self),
            r.parameters->0 == (Parameters { temperature: Some(temperature), ..params_or_default(self.parameters) }),
    {
        let (p, this) = self.take_params();
        GenerationRequestBuilder { parameters: Some(Parameters { temperature: Some(temperature), ..p }), ..this }
    }

    /// Sets `top_p` (bit pattern of an `f32`).
    pub fn top_p(self, top_p: u32) -> (r: Self)
        ensures
            keeps_others(r, self),
            r.parameters->0 == (Parameters { top_p: Some(top_p), ..params_or_default(self.parameters) }),
    {
        let (p, this) = self.take_params();
        GenerationRequestBuilder { parameters: Some(Parameters { top_p: Some(top_p), ..p }), ..this }
    }

    pub fn max_tokens(self, max_tokens: u32) -> (r: Self)
        ensures
            keeps_others(r, self),
            r.parameters->0 == (Parameters { max_tokens: Some(max_tokens), ..params_or_default(self.parameters) }),
    {
        let (p, this) = self.take_params();
        GenerationRequestBuilder { parameters: Some(Parameters { max_tokens: Some(max_tokens), ..p }), ..this }
    }

    pub fn result_format(self, result_format: &str) -> (r: Self)
        ensures
            keeps_others(r, self),
            r.parameters->0.result_format matches Some(f) && f@ == result_format@,
            r.parameters->0 == (Parameters {
                result_format: r.parameters->0.result_format,
                ..params_or_default(self.parameters)
            }),
    {
        let (p, this) = self.take_params();
        GenerationRequestBuilder {
            parameters: Some(Parameters { result_format: Some(owned(result_format)), ..p }),
            ..this
        }
    }

    pub fn stop(self, stop: Vec<String>) -> (r: Self)
        ensures
            keeps_others(r, self),
            r.parameters->0 == (Parameters { stop: Some(stop), ..params_or_default(self.parameters) }),
    {
        let (p, this) = self.take_params();
        GenerationRequestBuilder { parameters: Some(Parameters { stop: Some(stop), ..p }), ..this }
    }

    pub fn stream(self, stream: bool) -> (r: Self)
        ensures
            keeps_others(r, self),
            r.parameters->0 == (Parameters { stream: Some(stream), ..params_or_default(self.parameters) }),
    {
        let (p, this) = self.take_params();
        GenerationRequestBuilder { parameters: Some(Parameters { stream: Some(stream), ..p }), ..this }
    }

    /// Asks for an endpoint, in place of the one the model calls for.
    pub fn endpoint(self, endpoint: ApiEndpoint) -> (r: Self)
        ensures
            r.endpoint == Some(endpoint),
            r.model == self.model && r.messages == self.messages && r.parameters == self.parameters,
    {
        GenerationRequestBuilder { endpoint: Some(endpoint), ..self }
    }

    /// The request; an error where the model or the messages are missing.
    pub fn build(self) -> (r: Result<GenerationRequest, DashScopeError>)
        ensures
            self.model is None ==> (r matches Err(DashScopeError::InvalidConfiguration(m)) && m@
                == "model is required"@),
            self.model is Some && self.messages is None ==> (r matches Err(DashScopeError::InvalidConfiguration(m))
                && m@ == "messages is required"@),
            self.model is Some && self.messages is Some ==> r == Ok::<GenerationRequest, DashScopeError>(
                GenerationRequest {
                    model: self.model->0,
                    input: Input { messages: self.messages->0 },
                    parameters: self.parameters,
                    endpoint: self.endpoint,
                },
            ),
    {
        let model = match self.model {
            Some(m) => m,
            None => {
                return Err(DashScopeError::InvalidConfiguration(owned("model is required")));
            },
        };
        let messages = match self.messages {
            Some(m) => m,
            None => {
                return Err(DashScopeError::InvalidConfiguration(owned("messages is required")));
            },
        };
        Ok(GenerationRequest { model, input: Input { messages }, parameters: self.parameters, endpoint: self.endpoint })
    }
}

} // verus!
