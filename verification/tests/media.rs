use twilio_rs::error::AppError;
use twilio_rs::handlers::{play_handler, play_request, try_play_handler};
use twilio_rs::outbound::{
    send_twilio_media_messages_until_aborted, send_twilio_ws_messages,
    try_send_twilio_media_messages_until_aborted, MediaAction, MediaEvent, WsAction, WsEvent,
};
use twilio_rs::tasks::{
    stream_twilio_audio_to_deepgram, try_stream_twilio_audio_to_deepgram, AudioStep,
};
use twilio_rs::texttospeech_v1_types::{
    AudioConfigAudioEncoding, SynthesizeSpeechRequest, VoiceSelectionParamsSsmlGender,
};
use twilio_rs::twilio_types::{
    InboundMediaMeta, StartMeta, TwilioItem, TwilioMessage, TwilioOutbound,
};
use twilio_rs::types::{AppState, Streams};
use twilio_rs::utils::{
    b64_decode_to_buf, google2twilio, has_google_header, is_b64, media_message, try_b64_decode_to_buf,
    try_google2twilio,
};

/// Base64 of 58 bytes 0 and then "asdf".
const TTS: &str = "AAAAAAAAAAAAAAAAAAAAAAAAAAAAAAAAAAAAAAAAAAAAAAAAAAAAAAAAAAAAAAAAAAAAAAAAAAAAAGFzZGY=";

fn app_state() -> AppState {
    AppState {
        console_api_key: "console".to_string(),
        openai_api_key: "openai".to_string(),
        twilio_account_sid: "AC1".to_string(),
        twilio_auth_token: "token".to_string(),
        streams: Streams::new(),
    }
}

fn played(message: &TwilioOutbound) -> (String, String) {
    match message {
        TwilioOutbound::Media { media, stream_sid } => (media.payload.clone(), stream_sid.clone()),
        TwilioOutbound::Clear { .. } => panic!("not a media message"),
    }
}

fn audio(payload: &str) -> TwilioItem {
    TwilioItem::Text(Some(TwilioMessage::Media {
        media: InboundMediaMeta { payload: payload.to_string() },
    }))
}

fn audio_error(item: TwilioItem) -> &'static str {
    match stream_twilio_audio_to_deepgram(item) {
        AudioStep::Done(Err(AppError(text))) => text,
        _ => panic!("no error"),
    }
}

#[test]
fn decodes_behind_what_is_there() {
    let mut buf = vec![1u8];
    b64_decode_to_buf("YXNkZg==".to_string(), &mut buf);
    assert_eq!(buf, vec![1, 97, 115, 100, 102]);
    assert!(try_b64_decode_to_buf("Zm9v".to_string(), &mut buf));
    assert_eq!(buf, vec![1, 97, 115, 100, 102, 102, 111, 111]);
}

#[test]
fn leaves_the_buffer_alone_when_it_cannot_decode() {
    for text in ["YXNkZg=", "YXNkZg", "YX!kZg==", "YXNkZh==", "YQ==YQ==", "===="] {
        let mut buf = vec![7u8];
        assert!(!try_b64_decode_to_buf(text.to_string(), &mut buf));
        assert_eq!(buf, vec![7]);
        assert!(!is_b64(text));
    }
    assert!(is_b64(""));
}

#[test]
fn decodes_long_texts() {
    let mut buf = Vec::new();
    b64_decode_to_buf("YWJj".repeat(5_000), &mut buf);
    assert_eq!(buf, b"abc".repeat(5_000));
    assert!(!is_b64(&("YQ==".to_string() + &"YWJj".repeat(5_000))));
}

#[test]
fn base64_has_one_text_for_each_bytes() {
    for (bytes, text) in [
        (vec![], ""),
        (vec![0u8], "AA=="),
        (vec![255u8], "/w=="),
        (vec![255u8, 255], "//8="),
        (vec![251u8, 239, 190], "++++"),
        (vec![0u8, 16, 131, 16, 81], "ABCDEFE="),
        (vec![105u8, 183, 29, 121, 248, 33, 138, 57], "abcdefghijk="),
        (vec![211u8, 93, 183, 227, 158, 187], "01234567"),
    ] {
        let mut body = vec![0u8; 58];
        body.extend(&bytes);
        assert_eq!(played(&media_message(&body, "MZ1")).0, text);
        let mut heard = Vec::new();
        assert!(try_b64_decode_to_buf(text.to_string(), &mut heard));
        assert_eq!(heard, bytes);
    }
    for text in ["/x==", "//9=", "A===", "AA=A", "-w==", "_w==", "/w== ", "\u{e9}w=="] {
        assert!(!is_b64(text));
    }
}

#[test]
fn trims_the_header_and_encodes_again() {
    let (payload, stream) = played(&google2twilio(TTS.to_string(), "MZ1"));
    assert_eq!(payload, "YXNkZg==");
    assert_eq!(stream, "MZ1");
}

#[test]
fn what_is_played_decodes_to_the_audio_behind_the_header() {
    let body: Vec<u8> = (0..=255u8).cycle().take(1_000).collect();
    let (payload, _) = played(&media_message(&body, "MZ1"));
    let mut heard = Vec::new();
    b64_decode_to_buf(payload, &mut heard);
    assert_eq!(heard, body[58..].to_vec());
}

#[test]
fn a_header_alone_plays_nothing() {
    let (payload, _) = played(&media_message(&vec![0u8; 58], "MZ1"));
    assert_eq!(payload, "");
}

#[test]
fn refuses_audio_without_a_header() {
    assert!(try_google2twilio("YXNkZg==".to_string(), "MZ1").is_none());
    assert!(try_google2twilio("not base64".to_string(), "MZ1").is_none());
    assert!(try_google2twilio(TTS.to_string(), "MZ1").is_some());
    assert!(has_google_header(TTS));
    assert!(!has_google_header("YXNkZg=="));
}

#[test]
fn asks_google_for_the_voice_of_the_bot() {
    let request: SynthesizeSpeechRequest =
        app_state().get_google_tts("Hello.", AudioConfigAudioEncoding::MULAW);
    let config = request.audio_config.unwrap();
    assert!(matches!(config.audio_encoding, Some(AudioConfigAudioEncoding::MULAW)));
    assert_eq!(config.sample_rate_hertz, Some(8_000));
    assert_eq!(request.input.unwrap().text.unwrap(), "Hello.");
    let voice = request.voice.unwrap();
    assert_eq!(voice.language_code.unwrap(), "en-US");
    assert_eq!(voice.name.unwrap(), "en-US-Standard-E");
    assert!(matches!(voice.ssml_gender, Some(VoiceSelectionParamsSsmlGender::FEMALE)));
}

#[test]
fn plays_a_recording() {
    let request = play_request(&app_state());
    assert_eq!(
        request.input.unwrap().text.unwrap(),
        "Hello. You are hearing this\n    from a Twilio Play verb. These bytes are\n    MP3 encoded."
    );
    assert!(matches!(
        request.audio_config.unwrap().audio_encoding,
        Some(AudioConfigAudioEncoding::MP3)
    ));
    let reply = play_handler("YXNkZg==".to_string());
    assert_eq!(reply.content_type, "audio/mpeg");
    assert_eq!(reply.body, b"asdf".to_vec());
    assert_eq!(try_play_handler("YXNkZg==".to_string()).unwrap().body, b"asdf".to_vec());
    assert!(try_play_handler("*".to_string()).is_none());
}

#[test]
fn media_messages_go_out_until_there_are_no_more() {
    let action = send_twilio_media_messages_until_aborted(
        MediaEvent::Received(Some(TTS.to_string())),
        "MZ1",
    );
    match action {
        MediaAction::Send(message) => {
            assert_eq!(played(&message), ("YXNkZg==".to_string(), "MZ1".to_string()))
        }
        _ => panic!("nothing sent"),
    }
    assert!(matches!(
        send_twilio_media_messages_until_aborted(MediaEvent::Sent(true), "MZ1"),
        MediaAction::Receive
    ));
    assert!(matches!(
        send_twilio_media_messages_until_aborted(MediaEvent::Sent(false), "MZ1"),
        MediaAction::Done(Err(AppError("Error sending twilio outbound through channel")))
    ));
    assert!(matches!(
        send_twilio_media_messages_until_aborted(MediaEvent::Received(None), "MZ1"),
        MediaAction::Done(Ok(()))
    ));
    assert!(try_send_twilio_media_messages_until_aborted(
        MediaEvent::Received(Some("YXNkZg==".to_string())),
        "MZ1"
    )
    .is_none());
    assert!(matches!(
        try_send_twilio_media_messages_until_aborted(MediaEvent::Sent(true), "MZ1"),
        Some(MediaAction::Receive)
    ));
}

#[test]
fn the_funnel_to_twilio() {
    let message = TwilioOutbound::Clear { stream_sid: "MZ1".to_string() };
    match send_twilio_ws_messages(WsEvent::Received(Some(message))) {
        WsAction::Serialize(TwilioOutbound::Clear { stream_sid }) => assert_eq!(stream_sid, "MZ1"),
        _ => panic!("not serialized"),
    }
    match send_twilio_ws_messages(WsEvent::Serialized(Some("{}".to_string()))) {
        WsAction::Send(json) => assert_eq!(json, "{}"),
        _ => panic!("not sent"),
    }
    assert!(matches!(send_twilio_ws_messages(WsEvent::Sent(true)), WsAction::Receive));
    assert!(matches!(
        send_twilio_ws_messages(WsEvent::Received(None)),
        WsAction::Done(Ok(()))
    ));
    assert!(matches!(
        send_twilio_ws_messages(WsEvent::Serialized(None)),
        WsAction::Done(Err(AppError("Twilio message serialization error")))
    ));
    assert!(matches!(
        send_twilio_ws_messages(WsEvent::Sent(false)),
        WsAction::Done(Err(AppError("Failed to send message to Twilio")))
    ));
}

#[test]
fn audio_of_the_caller_goes_to_deepgram() {
    match stream_twilio_audio_to_deepgram(audio("YXNkZg==")) {
        AudioStep::Send(chunk) => assert_eq!(chunk, b"asdf".to_vec()),
        _ => panic!("not sent"),
    }
    match try_stream_twilio_audio_to_deepgram(audio("YXNkZg==")) {
        Some(AudioStep::Send(chunk)) => assert_eq!(chunk, b"asdf".to_vec()),
        _ => panic!("not sent"),
    }
    assert!(try_stream_twilio_audio_to_deepgram(audio("YXNkZg")).is_none());
}

#[test]
fn the_audio_stream_passes_over_what_is_no_audio() {
    for item in [TwilioItem::Ping, TwilioItem::Other, TwilioItem::Text(Some(TwilioMessage::Mark))] {
        assert!(matches!(stream_twilio_audio_to_deepgram(item), AudioStep::Wait));
    }
}

#[test]
fn the_audio_stream_ends() {
    let stop = TwilioMessage::Stop { sequence_number: "5".to_string() };
    assert!(matches!(
        stream_twilio_audio_to_deepgram(TwilioItem::Text(Some(stop))),
        AudioStep::Done(Ok(()))
    ));
    assert!(matches!(
        stream_twilio_audio_to_deepgram(TwilioItem::End),
        AudioStep::Done(Ok(()))
    ));
    assert_eq!(
        audio_error(TwilioItem::Failed),
        "Failed to receive message from Twilio stream"
    );
    assert_eq!(audio_error(TwilioItem::Text(None)), "Failed to parse incoming text message");
    let connected = TwilioMessage::Connected {
        protocol: "Call".to_string(),
        version: "1.0.0".to_string(),
    };
    let start = TwilioMessage::Start {
        start: StartMeta { call_sid: "CA1".to_string(), stream_sid: "MZ1".to_string() },
    };
    for message in [connected, start] {
        assert_eq!(
            audio_error(TwilioItem::Text(Some(message))),
            "We should not be getting Connected or Start messages now!"
        );
    }
}
