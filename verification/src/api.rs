//! Message types shared with the streaming speech-agent service and the
//! device, plus the configuration snapshot sent on the upstream handshake.
//!
//! These are plain data carriers: the transport layer turns wire JSON into
//! these types and back, while the verified state machine and router work
//! on them directly.

use vstd::prelude::*;

verus! {

/// The set of session identifiers refused at connection admission, held as
/// a list without duplicates; membership is all that matters.
pub struct Blacklist {
    pub blacklist: Vec<String>,
}

impl Blacklist {
    /// Whether `session_id` is blacklisted.
    pub open spec fn spec_contains(self, session_id: Seq<char>) -> bool {
        exists|i: int| 0 <= i < self.blacklist.len() && #[trigger] self.blacklist[i]@ == session_id
    }

    pub fn contains(&self, session_id: &String) -> (r: bool)
        ensures
            r == self.spec_contains(session_id@),
    {
        let mut i: usize = 0;
        while i < self.blacklist.len()
            invariant
                i <= self.blacklist@.len(),
                forall|j: int| 0 <= j < i ==> #[trigger] self.blacklist@[j]@ != session_id@,
            decreases self.blacklist@.len() - i,
        {
            if self.blacklist[i].eq(session_id) {
                return true;
            }
            i = i + 1;
        }
        false
    }
}

/// The query parameters a web client may supply in place of the device's
/// headers: the session identifier, the store identifier and the device
/// serial number.
pub struct NotCanonQueryParams {
    pub sid_cloud_store_uid: Option<String>,
    pub sid_cloud_store_id: Option<String>,
    pub base_sn: Option<String>,
}

/// A query against the menu-search backend: free text plus an optional
/// result-count limit and, for modifier queries, a parent item identifier.
pub struct QueryRequest {
    pub query: String,
    pub limit: Option<u64>,
    pub parent: Option<String>,
}

/// The ranked catalog items a menu-search query resolved to.
pub struct QueryResponse {
    pub items: Vec<crate::qu::Item>,
}

/// One agent-issued function call, as delivered by the speech agent.
/// `arguments` is a JSON-encoded string; only `client_side` calls are
/// handled by this gateway.
pub struct FunctionCallRequestItem {
    pub id: String,
    pub name: String,
    pub arguments: String,
    pub client_side: bool,
}

/// A text message from the speech-agent service.
pub enum ServerMessage {
    Welcome { session_id: String },
    UserStartedSpeaking,
    FunctionCallRequest { functions: Vec<FunctionCallRequestItem> },
}

/// Audio codec parameters of the upstream handshake.
pub struct Audio {
    pub input: AudioInput,
    pub output: AudioOutput,
}

pub struct AudioInput {
    pub encoding: String,
    pub sample_rate: usize,
}

pub struct AudioOutput {
    pub encoding: String,
    pub sample_rate: usize,
    pub bitrate: Option<usize>,
    pub container: String,
}

/// Holds exactly when the `container` field carries its default value and is
/// therefore left out of the serialized handshake.
pub fn should_skip_container(container: &String) -> (skip: bool)
    ensures
        skip == (container@ == "none"@),
{
    let none_text: String = "none".to_owned();
    let skip = container.eq(&none_text);
    skip
}

pub fn default_container() -> (r: String)
    ensures
        r@ == "none"@,
{
    "none".to_owned()
}

pub fn default_language() -> (r: String)
    ensures
        r@ == "en"@,
{
    "en".to_owned()
}

impl Default for Audio {
    fn default() -> (r: Self)
        ensures
            r.input.encoding@ == "linear16"@,
            r.input.sample_rate == 16000,
            r.output.encoding@ == "linear16"@,
            r.output.sample_rate == 16000,
            r.output.bitrate is None,
            r.output.container@ == "none"@,
    {
        Self {
            input: AudioInput { encoding: "linear16".to_owned(), sample_rate: 16000 },
            output: AudioOutput {
                encoding: "linear16".to_owned(),
                sample_rate: 16000,
                bitrate: None,
                container: "none".to_owned(),
            },
        }
    }
}

/// Conversation history replayed to the agent on handshake.
pub struct Context {
    pub messages: Vec<TttMessage>,
    pub replay: bool,
}

pub enum TttMessage {
    History(HistoryMessage),
}

pub enum HistoryMessage {
    UserMessage { role: String, content: String },
    AssistantMessage { role: String, content: String },
    FunctionCallMessage { function_calls: Vec<FunctionCall> },
}

pub struct FunctionCall {
    pub id: String,
    pub name: String,
    pub client_side: bool,
    pub arguments: String,
    pub response: String,
}

/// Listen (speech-to-text) provider settings of the handshake.
pub struct Listen {
    pub provider: ListenProvider,
}

pub struct ListenProvider {
    pub provider_type: String,
    pub model: String,
    pub keyterms: Vec<String>,
    pub smart_format: bool,
}

impl Default for Listen {
    fn default() -> (r: Self)
        ensures
            r.provider.provider_type@ == "deepgram"@,
            r.provider.model@ == "nova-2"@,
            r.provider.keyterms@.len() == 0,
            !r.provider.smart_format,
    {
        Self {
            provider: ListenProvider {
                provider_type: "deepgram".to_owned(),
                model: "nova-2".to_owned(),
                keyterms: Vec::new(),
                smart_format: false,
            },
        }
    }
}

/// Speak (text-to-speech) provider settings of the handshake.
pub struct Speak {
    pub provider: SpeakProvider,
    pub endpoint: Option<Endpoint>,
}

pub struct SpeakProvider {
    pub provider_type: String,
    pub model: Option<String>,
    pub model_id: Option<String>,
    pub voice: Option<VoiceConfig>,
    pub language: Option<String>,
    pub language_code: Option<String>,
    pub engine: Option<String>,
    pub credentials: Option<AwsCredentials>,
}

pub enum VoiceConfig {
    Text(String),
    Object { mode: String, id: String },
}

pub struct AwsCredentials {
    pub credential_type: String,
    pub region: String,
    pub access_key_id: String,
    pub secret_access_key: String,
    pub session_token: Option<String>,
}

impl Default for Speak {
    fn default() -> (r: Self)
        ensures
            r.provider.provider_type@ == "deepgram"@,
            r.provider.model matches Some(m) && m@ == "aura-asteria-en"@,
            r.provider.model_id is None,
            r.provider.voice is None,
            r.provider.language is None,
            r.provider.language_code is None,
            r.provider.engine is None,
            r.provider.credentials is None,
            r.endpoint is None,
    {
        Self {
            provider: SpeakProvider {
                provider_type: "deepgram".to_owned(),
                model: Some("aura-asteria-en".to_owned()),
                model_id: None,
                voice: None,
                language: None,
                language_code: None,
                engine: None,
                credentials: None,
            },
            endpoint: None,
        }
    }
}

pub enum TtsProvider {
    Deepgram,
    ElevenLabs,
    Cartesia,
}

/// A custom provider endpoint: a URL plus extra request headers.
pub struct Endpoint {
    pub url: String,
    pub headers: Vec<(String, String)>,
}

pub enum ContextLength {
    Number(u32),
    Max(String),
}

pub enum Provider {
    Anthropic,
    OpenAi,
    XAi,
    Groq,
}

} // verus!
