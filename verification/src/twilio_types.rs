use vstd::prelude::*;

verus! {

/// What Twilio posts when a call comes in: who calls whom, and from where.
pub struct TwilioConnectPayload {
    pub call_sid: String,
    pub from: String,
    pub to: String,
    pub from_city: Option<String>,
    pub from_state: Option<String>,
    pub from_country: Option<String>,
    pub from_zip: Option<String>,
}

impl Clone for TwilioConnectPayload {
    fn clone(&self) -> (copy: Self)
        ensures
            copy == *self,
    {
        TwilioConnectPayload {
            call_sid: self.call_sid.clone(),
            from: self.from.clone(),
            to: self.to.clone(),
            from_city: self.from_city.clone(),
            from_state: self.from_state.clone(),
            from_country: self.from_country.clone(),
            from_zip: self.from_zip.clone(),
        }
    }
}

/// What Twilio says of a media stream when it starts.
#[derive(Debug)]
pub struct StartMeta {
    pub call_sid: String,
    pub stream_sid: String,
}

/// Audio of the caller, in base64.
pub struct InboundMediaMeta {
    pub payload: String,
}

/// A message that Twilio sends over a media stream.
pub enum TwilioMessage {
    Connected { protocol: String, version: String },
    Start { start: StartMeta },
    Media { media: InboundMediaMeta },
    Stop { sequence_number: String },
    Mark,
}

/// What comes next on the websocket of a media stream.
pub enum TwilioItem {
    /// A text, decoded where it could be.
    Text(Option<TwilioMessage>),
    Ping,
    /// A frame that is neither text nor ping.
    Other,
    /// Receiving failed.
    Failed,
    /// There is no more.
    End,
}

/// Audio for the caller, in base64.
pub struct OutboundMediaMeta {
    pub payload: String,
}

/// A message for Twilio: audio to play, or the order to drop what is still to be played.
pub enum TwilioOutbound {
    Media { media: OutboundMediaMeta, stream_sid: String },
    Clear { stream_sid: String },
}

impl Clone for TwilioOutbound {
    fn clone(&self) -> (copy: Self)
        ensures
            copy == *self,
    {
        match self {
            TwilioOutbound::Media { media, stream_sid } => TwilioOutbound::Media {
                media: OutboundMediaMeta { payload: media.payload.clone() },
                stream_sid: stream_sid.clone(),
            },
            TwilioOutbound::Clear { stream_sid } => TwilioOutbound::Clear {
                stream_sid: stream_sid.clone(),
            },
        }
    }
}

/// The verb that has Twilio speak a text.
pub struct SayAction {
    pub text: String,
}

/// The verb that has Twilio play the audio behind a URL.
pub struct PlayAction {
    pub url: String,
}

/// Which audio of a call a media stream carries.
pub enum StreamTrack {
    Inbound,
}

/// A media stream, and where Twilio is to open it.
pub struct StreamAction {
    pub url: String,
    pub track: Option<StreamTrack>,
}

/// What a call is connected to.
pub enum Connection {
    Stream(StreamAction),
}

/// The verb that connects a call.
pub struct ConnectAction {
    pub connection: Connection,
}

/// A verb of a Twiml document.
pub enum ResponseAction {
    Say(SayAction),
    Play(PlayAction),
    Connect(ConnectAction),
}

/// A Twiml document: the complete response to a call.
pub struct Response {
    pub actions: Vec<ResponseAction>,
}

/// Completes a serialized `Response` to an XML document.
pub fn wrap_twiml(xml: String) -> (document: String)
    ensures
        document@ == "<?xml version=\"1.0\" encoding=\"UTF-8\"?>\n"@ + xml@,
{
    let mut document = "<?xml version=\"1.0\" encoding=\"UTF-8\"?>\n".to_string();
    document.append(xml.as_str());
    document
}

} // verus!
