//! What Twilio is answered: to the call itself, and at the start of its media stream.

use vstd::prelude::*;

use crate::b64::b64_decoded;
use crate::consts::{APP_GREETING, DEEPGRAM_URL, PLAY_TEXT};
use crate::error::AppError;
use crate::texttospeech_v1_types::{AudioConfigAudioEncoding, SynthesizeSpeechRequest};
use crate::twilio_types::{
    wrap_twiml, ConnectAction, Connection, PlayAction, Response, ResponseAction, SayAction,
    StartMeta, StreamAction, StreamTrack, TwilioConnectPayload, TwilioItem, TwilioMessage,
};
use crate::types::{asks_to_speak, AppState};
use crate::utils::{b64_bytes, b64_decode_to_buf, is_b64};

verus! {

/// How waiting for the start of a media stream goes on.
pub enum StartStep {
    /// Wait for what comes next on the stream.
    Wait,
    /// The stream has started, or will not.
    Done(Result<StartMeta, AppError>),
}

/// Capture the Twilio Start media message from the beginning of a Twilio websocket stream for the
/// stream id.
pub fn get_twilio_start_meta(item: TwilioItem) -> (step: StartStep)
    ensures
        step == match item {
            TwilioItem::Text(Some(TwilioMessage::Connected { .. })) => StartStep::Wait,
            TwilioItem::Text(Some(TwilioMessage::Start { start })) => StartStep::Done(Ok(start)),
            TwilioItem::Text(Some(_)) => StartStep::Done(
                Err(
                    AppError(
                        "At this point in a stream, we only expect a Connected message or a Start message.  Any others constitute an error.",
                    ),
                ),
            ),
            TwilioItem::Text(None) => StartStep::Done(
                Err(AppError("Error deserializing twilio text message")),
            ),
            TwilioItem::Ping | TwilioItem::Other | TwilioItem::Failed => StartStep::Done(
                Err(AppError("Got unexpected websocket message type from Twilio!")),
            ),
            TwilioItem::End => StartStep::Done(Err(AppError("End of stream"))),
        },
{
    match item {
        TwilioItem::Text(Some(message)) => match message {
            TwilioMessage::Connected { .. } => StartStep::Wait,
            TwilioMessage::Start { start } => StartStep::Done(Ok(start)),
            _ => StartStep::Done(
                Err(
                    AppError(
                        "At this point in a stream, we only expect a Connected message or a Start message.  Any others constitute an error.",
                    ),
                ),
            ),
        },
        TwilioItem::Text(None) => StartStep::Done(
            Err(AppError("Error deserializing twilio text message")),
        ),
        TwilioItem::Ping | TwilioItem::Other | TwilioItem::Failed => StartStep::Done(
            Err(AppError("Got unexpected websocket message type from Twilio!")),
        ),
        TwilioItem::End => StartStep::Done(Err(AppError("End of stream"))),
    }
}

/// How to open a stream to Deepgram.
pub struct DgRequest {
    pub uri: String,
    /// The value of the header that authorizes it.
    pub authorization: String,
}

/// The request that opens a websocket connection to Deepgram.
pub fn open_dg_stream(app_state: &AppState) -> (request: DgRequest)
    ensures
        request.uri@ == DEEPGRAM_URL@,
        request.authorization@ == "Token "@ + app_state.console_api_key@,
{
    let mut authorization = "Token ".to_string();
    authorization.append(app_state.console_api_key.as_str());
    DgRequest { uri: DEEPGRAM_URL.to_string(), authorization }
}

/// The value of the header that authorizes a request to OpenAI.
pub fn openai_authorization(app_state: &AppState) -> (authorization: String)
    ensures
        authorization@ == "Bearer "@ + app_state.openai_api_key@,
{
    let mut authorization = "Bearer ".to_string();
    authorization.append(app_state.openai_api_key.as_str());
    authorization
}

/// A reply to an HTTP request: audio.
pub struct AudioReply {
    pub content_type: String,
    pub body: Vec<u8>,
}

/// The request to Google for the recording that `play_handler` sends.
pub fn play_request(app_state: &AppState) -> (request: SynthesizeSpeechRequest)
    ensures
        asks_to_speak(request, PLAY_TEXT@, AudioConfigAudioEncoding::MP3),
{
    app_state.get_google_tts(PLAY_TEXT, AudioConfigAudioEncoding::MP3)
}

/// The reply that sends MP3 audio.
pub fn audio_reply(body: Vec<u8>) -> (reply: AudioReply)
    ensures
        reply.content_type@ == "audio/mpeg"@,
        reply.body == body,
{
    AudioReply { content_type: "audio/mpeg".to_string(), body }
}

/// Sends a recording; `tts` is what Google made of `play_request`.
pub fn play_handler(tts: String) -> (reply: AudioReply)
    requires
        b64_decoded(tts@) is Some,
    ensures
        reply.content_type@ == "audio/mpeg"@,
        reply.body@ == b64_bytes(tts@),
{
    let mut body: Vec<u8> = Vec::new();
    b64_decode_to_buf(tts, &mut body);
    assert(body@ =~= b64_bytes(tts@));
    audio_reply(body)
}

/// Sends a recording as `play_handler` does; `None` where `tts` is not base64.
pub fn try_play_handler(tts: String) -> (reply: Option<AudioReply>)
    ensures
        reply is Some == b64_decoded(tts@) is Some,
        reply matches Some(r) ==> r.content_type@ == "audio/mpeg"@ && r.body@ == b64_bytes(tts@),
{
    if is_b64(tts.as_str()) {
        Some(play_handler(tts))
    } else {
        None
    }
}

/// A reply to an HTTP request: text.
pub struct HttpReply {
    pub status: u16,
    pub content_type: Option<String>,
    pub body: String,
}

/// The reply to a call that came in.
pub enum ConnectReply {
    /// The request says nothing that can be understood.
    BadRequest(HttpReply),
    /// The call is connected; `twiml_reply` makes the reply of this document.
    Twiml(Response),
}

/// `document` greets a caller, and then connects the call to the media stream of the bot at
/// `host`, which hears the caller.
pub open spec fn greets_and_connects(document: Response, host: Seq<char>) -> bool {
    &&& document.actions@.len() == 2
    &&& document.actions@[0] matches ResponseAction::Say(say)
    &&& say.text@ == APP_GREETING@
    &&& document.actions@[1] matches ResponseAction::Connect(connect)
    &&& connect.connection matches Connection::Stream(stream)
    &&& stream.url@ == "wss://"@ + host + "/connect"@
    &&& stream.track == Some(StreamTrack::Inbound)
}

/// Answers a call that came in, and notes it until its media stream starts. `payload` is what
/// Twilio posted, where it could be decoded.
pub fn twiml_start_connect(
    host: &str,
    app_state: &mut AppState,
    payload: Option<TwilioConnectPayload>,
) -> (reply: ConnectReply)
    ensures
        *final(app_state) == (AppState { streams: final(app_state).streams, ..*old(app_state) }),
        match payload {
            Some(p) => {
                &&& final(app_state).streams@ == old(app_state).streams@.insert(p.call_sid@, p)
                &&& reply matches ConnectReply::Twiml(document)
                &&& greets_and_connects(document, host@)
            },
            None => {
                &&& final(app_state).streams == old(app_state).streams
                &&& reply matches ConnectReply::BadRequest(bad)
                &&& bad.status == 400
                &&& bad.content_type is None
                &&& bad.body@ == "Bad request"@
            },
        },
{
    let payload = match payload {
        Some(payload) => payload,
        None => {
            return ConnectReply::BadRequest(
                HttpReply { status: 400, content_type: None, body: "Bad request".to_string() },
            );
        },
    };
    app_state.streams.insert(payload);

    let say_action = SayAction { text: APP_GREETING.to_string() };
    let mut url = "wss://".to_string();
    url.append(host);
    url.append("/connect");
    let stream_action = StreamAction { url, track: Some(StreamTrack::Inbound) };
    let connect_action = ConnectAction { connection: Connection::Stream(stream_action) };
    let mut actions: Vec<ResponseAction> = Vec::new();
    actions.push(ResponseAction::Say(say_action));
    actions.push(ResponseAction::Connect(connect_action));
    ConnectReply::Twiml(Response { actions })
}

/// Answers a call that came in with the recording behind `/play`.
pub fn twiml_start_play(host: &str) -> (document: Response)
    ensures
        document.actions@.len() == 1,
        document.actions@[0] matches ResponseAction::Play(play) && play.url@ == "https://"@ + host@
            + "/play"@,
{
    let mut url = "https://".to_string();
    url.append(host);
    url.append("/play");
    let mut actions: Vec<ResponseAction> = Vec::new();
    actions.push(ResponseAction::Play(PlayAction { url }));
    Response { actions }
}

/// The reply that sends a Twiml document; `xml` is the document serialized.
pub fn twiml_reply(xml: String) -> (reply: HttpReply)
    ensures
        reply.status == 200,
        reply.content_type matches Some(kind) && kind@ == "application/xml"@,
        reply.body@ == "<?xml version=\"1.0\" encoding=\"UTF-8\"?>\n"@ + xml@,
{
    HttpReply {
        status: 200,
        content_type: Some("application/xml".to_string()),
        body: wrap_twiml(xml),
    }
}

} // verus!
