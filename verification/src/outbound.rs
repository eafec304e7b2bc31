//! The tasks by which messages go to Twilio.

use vstd::prelude::*;

use crate::consts::GOOGLE_WAV_HEADER_SZ;
use crate::error::AppError;
use crate::twilio_types::TwilioOutbound;
use crate::utils::{b64_bytes, google2twilio, has_google_header, is_google_tts, plays};

verus! {

/// What came of an action of the task that sends to Twilio.
pub enum WsEvent {
    /// A message to send; none where there will be no more.
    Received(Option<TwilioOutbound>),
    /// The message as JSON; none where that failed.
    Serialized(Option<String>),
    /// The message was sent, or could not be.
    Sent(bool),
}

/// What the surrounding program is to do for the task that sends to Twilio.
pub enum WsAction {
    Receive,
    Serialize(TwilioOutbound),
    Send(String),
    /// The task ends.
    Done(Result<(), AppError>),
}

/// The funnel of all TwilioOutbound messages going to Twilio.
pub fn send_twilio_ws_messages(event: WsEvent) -> (action: WsAction)
    ensures
        action == match event {
            WsEvent::Received(Some(message)) => WsAction::Serialize(message),
            WsEvent::Received(None) => WsAction::Done(Ok(())),
            WsEvent::Serialized(Some(json)) => WsAction::Send(json),
            WsEvent::Serialized(None) => WsAction::Done(
                Err(AppError("Twilio message serialization error")),
            ),
            WsEvent::Sent(true) => WsAction::Receive,
            WsEvent::Sent(false) => WsAction::Done(
                Err(AppError("Failed to send message to Twilio")),
            ),
        },
{
    match event {
        WsEvent::Received(received) => match received {
            Some(message) => WsAction::Serialize(message),
            None => WsAction::Done(Ok(())),
        },
        WsEvent::Serialized(serialized) => match serialized {
            Some(json) => WsAction::Send(json),
            None => WsAction::Done(Err(AppError("Twilio message serialization error"))),
        },
        WsEvent::Sent(sent) => if sent {
            WsAction::Receive
        } else {
            WsAction::Done(Err(AppError("Failed to send message to Twilio")))
        },
    }
}

/// What came of an action of the media message task.
pub enum MediaEvent {
    /// Audio to play, as Google sent it; none where there will be no more.
    Received(Option<String>),
    /// The message was handed on, or could not be.
    Sent(bool),
}

/// What the surrounding program is to do for the media message task.
pub enum MediaAction {
    Receive,
    Send(TwilioOutbound),
    /// The task ends.
    Done(Result<(), AppError>),
}

impl MediaEvent {
    /// Audio is base64, and has its header in front.
    pub open spec fn wf(&self) -> bool {
        self matches MediaEvent::Received(Some(tts)) ==> is_google_tts(tts@)
    }
}

/// What the media message task does about an event.
pub open spec fn media_steps(event: MediaEvent, stream_id: Seq<char>, action: MediaAction) -> bool {
    match event {
        MediaEvent::Received(Some(tts)) => {
            &&& action matches MediaAction::Send(message)
            &&& plays(
                message,
                b64_bytes(tts@).skip(GOOGLE_WAV_HEADER_SZ as int),
                stream_id,
            )
        },
        MediaEvent::Received(None) => action == MediaAction::Done(Ok(())),
        MediaEvent::Sent(true) => action is Receive,
        MediaEvent::Sent(false) => action == MediaAction::Done(
            Err(AppError("Error sending twilio outbound through channel")),
        ),
    }
}

/// Plays what the bot says, until the task is aborted.
pub fn send_twilio_media_messages_until_aborted(event: MediaEvent, stream_id: &str) -> (action:
    MediaAction)
    requires
        event.wf(),
    ensures
        media_steps(event, stream_id@, action),
{
    match event {
        MediaEvent::Received(received) => match received {
            Some(encoded_tts) => MediaAction::Send(google2twilio(encoded_tts, stream_id)),
            None => MediaAction::Done(Ok(())),
        },
        MediaEvent::Sent(sent) => if sent {
            MediaAction::Receive
        } else {
            MediaAction::Done(Err(AppError("Error sending twilio outbound through channel")))
        },
    }
}

/// Decides as `send_twilio_media_messages_until_aborted` does; `None` where audio is not base64 or
/// is shorter than its header.
pub fn try_send_twilio_media_messages_until_aborted(event: MediaEvent, stream_id: &str) -> (action:
    Option<MediaAction>)
    ensures
        action is Some == event.wf(),
        action matches Some(a) ==> media_steps(event, stream_id@, a),
{
    let ok = match &event {
        MediaEvent::Received(Some(tts)) => has_google_header(tts.as_str()),
        _ => true,
    };
    if ok {
        Some(send_twilio_media_messages_until_aborted(event, stream_id))
    } else {
        None
    }
}

} // verus!
