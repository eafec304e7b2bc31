use vstd::hash_map::StringHashMap;
use vstd::prelude::*;

use crate::deepgram_types::StreamingResponse;
use crate::texttospeech_v1_types::{
    AudioConfig, AudioConfigAudioEncoding, SynthesisInput, SynthesizeSpeechRequest,
    VoiceSelectionParams, VoiceSelectionParamsSsmlGender,
};
use crate::twilio_types::TwilioConnectPayload;

verus! {

/// Indicator of whether we are currently listening or talking
#[derive(Clone, Copy, Debug, PartialEq, Eq, Structural)]
pub enum CurrentBotAction {
    Listening,
    Talking,
}

/// A ConversationTurn represents an exchange of 1) caller inquiry and 2) bot response
pub struct ConversationTurn {
    pub caller_side: String,
    pub bot_side: String,
}

/// The model of a turn: what either side said.
pub struct ConversationTurnView {
    pub caller_side: Seq<char>,
    pub bot_side: Seq<char>,
}

impl View for ConversationTurn {
    type V = ConversationTurnView;

    open spec fn view(&self) -> ConversationTurnView {
        ConversationTurnView { caller_side: self.caller_side@, bot_side: self.bot_side@ }
    }
}

/// What either side said before the turn began: nothing.
pub open spec fn blank_turn() -> ConversationTurnView {
    ConversationTurnView { caller_side: Seq::empty(), bot_side: Seq::empty() }
}

impl ConversationTurn {
    /// A turn in which nothing has been said yet.
    pub fn new() -> (turn: Self)
        ensures
            turn@ == blank_turn(),
    {
        ConversationTurn { caller_side: String::new(), bot_side: String::new() }
    }
}

/// Message type consumed by the caller-side turn manager.  `StreamingResponse` tells the manager
/// to continue handling DG streaming responses; `Go` tells the manager to respond to the caller.
pub enum ConversationSignal {
    StreamingResponse(StreamingResponse),
    Go,
}

/// What the bot's side of a turn was about.
#[derive(Debug)]
pub struct ConversationSummary {
    /// Which turn.
    pub idx: usize,
    pub topic: String,
    pub summary: String,
}

/// The calls that came in and whose media stream has not started yet, by call sid.
pub struct Streams {
    payloads: StringHashMap<TwilioConnectPayload>,
}

impl View for Streams {
    type V = Map<Seq<char>, TwilioConnectPayload>;

    closed spec fn view(&self) -> Map<Seq<char>, TwilioConnectPayload> {
        self.payloads@
    }
}

impl Streams {
    /// No calls.
    pub fn new() -> (streams: Self)
        ensures
            streams@ == Map::<Seq<char>, TwilioConnectPayload>::empty(),
    {
        Streams { payloads: StringHashMap::new() }
    }

    /// Notes a call under its sid, in place of one that was noted under the same sid.
    pub fn insert(&mut self, payload: TwilioConnectPayload)
        ensures
            final(self)@ == old(self)@.insert(payload.call_sid@, payload),
    {
        self.payloads.insert(payload.call_sid.clone(), payload);
    }

    /// Takes a call out.
    pub fn remove(&mut self, call_sid: &str) -> (payload: Option<TwilioConnectPayload>)
        ensures
            payload == (if old(self)@.contains_key(call_sid@) {
                Some(old(self)@[call_sid@])
            } else {
                None
            }),
            final(self)@ == old(self)@.remove(call_sid@),
    {
        let payload = match self.payloads.get(call_sid) {
            Some(payload) => Some(payload.clone()),
            None => None,
        };
        self.payloads.remove(call_sid);
        payload
    }
}

/// What all calls share.
pub struct AppState {
    pub console_api_key: String,
    pub openai_api_key: String,
    pub twilio_account_sid: String,
    pub twilio_auth_token: String,
    pub streams: Streams,
}

/// `request` asks for `text` in the voice of the bot, encoded as `encoding`, at the sample rate
/// of a phone line.
pub open spec fn asks_to_speak(
    request: SynthesizeSpeechRequest,
    text: Seq<char>,
    encoding: AudioConfigAudioEncoding,
) -> bool {
    &&& request.audio_config == Some(
        AudioConfig { audio_encoding: Some(encoding), sample_rate_hertz: Some(8_000) },
    )
    &&& request.input matches Some(input)
    &&& input.text matches Some(t)
    &&& t@ == text
    &&& request.voice matches Some(voice)
    &&& voice.language_code matches Some(language)
    &&& language@ == "en-US"@
    &&& voice.name matches Some(name)
    &&& name@ == "en-US-Standard-E"@
    &&& voice.ssml_gender == Some(VoiceSelectionParamsSsmlGender::FEMALE)
}

/// The request to Google that has `text` spoken in the voice of the bot.
pub fn speech_request(text: &str, encoding: AudioConfigAudioEncoding) -> (request:
    SynthesizeSpeechRequest)
    ensures
        asks_to_speak(request, text@, encoding),
{
    let audio_config = AudioConfig {
        audio_encoding: Some(encoding),
        sample_rate_hertz: Some(8_000),
    };
    let input = SynthesisInput { text: Some(text.to_string()) };
    let voice = VoiceSelectionParams {
        language_code: Some("en-US".to_string()),
        name: Some("en-US-Standard-E".to_string()),
        ssml_gender: Some(VoiceSelectionParamsSsmlGender::FEMALE),
    };
    SynthesizeSpeechRequest {
        audio_config: Some(audio_config),
        input: Some(input),
        voice: Some(voice),
    }
}

impl AppState {
    /// The request to Google that has `text` spoken.
    pub fn get_google_tts(&self, text: &str, encoding: AudioConfigAudioEncoding) -> (request:
        SynthesizeSpeechRequest)
        ensures
            asks_to_speak(request, text@, encoding),
    {
        speech_request(text, encoding)
    }
}

} // verus!
