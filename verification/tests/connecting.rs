use twilio_rs::error::AppError;
use twilio_rs::handlers::{
    get_twilio_start_meta, open_dg_stream, openai_authorization, twiml_reply, twiml_start_connect,
    twiml_start_play, ConnectReply, StartStep,
};
use twilio_rs::tasks::take_connect_payload;
use twilio_rs::twilio_types::{
    wrap_twiml, Connection, InboundMediaMeta, ResponseAction, StartMeta, StreamTrack,
    TwilioConnectPayload, TwilioItem, TwilioMessage,
};
use twilio_rs::types::{AppState, Streams};

fn app_state() -> AppState {
    AppState {
        console_api_key: "console".to_string(),
        openai_api_key: "openai".to_string(),
        twilio_account_sid: "AC1".to_string(),
        twilio_auth_token: "token".to_string(),
        streams: Streams::new(),
    }
}

fn payload(call_sid: &str, from: &str) -> TwilioConnectPayload {
    TwilioConnectPayload {
        call_sid: call_sid.to_string(),
        from: from.to_string(),
        to: "+2".to_string(),
        from_city: Some("Springfield".to_string()),
        from_state: None,
        from_country: Some("US".to_string()),
        from_zip: None,
    }
}

fn start_error(item: TwilioItem) -> &'static str {
    match get_twilio_start_meta(item) {
        StartStep::Done(Err(AppError(text))) => text,
        _ => panic!("no error"),
    }
}

#[test]
fn greets_and_connects_a_caller() {
    let mut state = app_state();
    let reply = twiml_start_connect("example.org", &mut state, Some(payload("CA1", "+1")));
    let document = match reply {
        ConnectReply::Twiml(document) => document,
        ConnectReply::BadRequest(_) => panic!("refused"),
    };
    assert_eq!(document.actions.len(), 2);
    match &document.actions[0] {
        ResponseAction::Say(say) => assert_eq!(say.text, "Hi.  How may I help you?"),
        _ => panic!("no greeting"),
    }
    match &document.actions[1] {
        ResponseAction::Connect(connect) => match &connect.connection {
            Connection::Stream(stream) => {
                assert_eq!(stream.url, "wss://example.org/connect");
                assert!(matches!(stream.track, Some(StreamTrack::Inbound)));
            }
        },
        _ => panic!("not connected"),
    }
}

#[test]
fn refuses_what_it_cannot_understand() {
    let mut state = app_state();
    match twiml_start_connect("example.org", &mut state, None) {
        ConnectReply::BadRequest(reply) => {
            assert_eq!(reply.status, 400);
            assert!(reply.content_type.is_none());
            assert_eq!(reply.body, "Bad request");
        }
        ConnectReply::Twiml(_) => panic!("accepted"),
    }
}

#[test]
fn a_call_is_found_once() {
    let mut state = app_state();
    twiml_start_connect("h", &mut state, Some(payload("CA1", "+1")));
    twiml_start_connect("h", &mut state, Some(payload("CA2", "+3")));
    let found = take_connect_payload(&mut state, "CA1").unwrap();
    assert_eq!(found.call_sid, "CA1");
    assert_eq!(found.from, "+1");
    assert_eq!(found.to, "+2");
    assert_eq!(found.from_city, Some("Springfield".to_string()));
    assert_eq!(found.from_state, None);
    assert_eq!(found.from_country, Some("US".to_string()));
    assert_eq!(found.from_zip, None);
    match take_connect_payload(&mut state, "CA1") {
        Err(AppError(text)) => assert_eq!(text, "app state streams error"),
        Ok(_) => panic!("found twice"),
    }
    assert_eq!(take_connect_payload(&mut state, "CA2").unwrap().from, "+3");
}

#[test]
fn a_call_takes_the_place_of_one_with_its_sid() {
    let mut streams = Streams::new();
    streams.insert(payload("CA1", "+1"));
    streams.insert(payload("CA1", "+9"));
    assert_eq!(streams.remove("CA1").unwrap().from, "+9");
    assert!(streams.remove("CA1").is_none());
}

#[test]
fn has_a_recording_played() {
    let document = twiml_start_play("example.org");
    assert_eq!(document.actions.len(), 1);
    match &document.actions[0] {
        ResponseAction::Play(play) => assert_eq!(play.url, "https://example.org/play"),
        _ => panic!("nothing played"),
    }
}

#[test]
fn a_twiml_document_is_complete() {
    let document = "<?xml version=\"1.0\" encoding=\"UTF-8\"?>\n<Response></Response>";
    assert_eq!(wrap_twiml("<Response></Response>".to_string()), document);
    let reply = twiml_reply("<Response></Response>".to_string());
    assert_eq!(reply.status, 200);
    assert_eq!(reply.content_type, Some("application/xml".to_string()));
    assert_eq!(reply.body, document);
}

#[test]
fn the_start_of_a_stream_is_waited_for() {
    let connected = TwilioMessage::Connected {
        protocol: "Call".to_string(),
        version: "1.0.0".to_string(),
    };
    assert!(matches!(
        get_twilio_start_meta(TwilioItem::Text(Some(connected))),
        StartStep::Wait
    ));
    let start = TwilioMessage::Start {
        start: StartMeta { call_sid: "CA1".to_string(), stream_sid: "MZ1".to_string() },
    };
    match get_twilio_start_meta(TwilioItem::Text(Some(start))) {
        StartStep::Done(Ok(meta)) => {
            assert_eq!(meta.call_sid, "CA1");
            assert_eq!(meta.stream_sid, "MZ1");
        }
        _ => panic!("not started"),
    }
}

#[test]
fn a_stream_may_fail_to_start() {
    let media = TwilioMessage::Media { media: InboundMediaMeta { payload: "".to_string() } };
    let stop = TwilioMessage::Stop { sequence_number: "2".to_string() };
    for message in [media, stop, TwilioMessage::Mark] {
        assert_eq!(
            start_error(TwilioItem::Text(Some(message))),
            "At this point in a stream, we only expect a Connected message or a Start message.  Any others constitute an error."
        );
    }
    assert_eq!(
        start_error(TwilioItem::Text(None)),
        "Error deserializing twilio text message"
    );
    for item in [TwilioItem::Ping, TwilioItem::Other, TwilioItem::Failed] {
        assert_eq!(start_error(item), "Got unexpected websocket message type from Twilio!");
    }
    assert_eq!(start_error(TwilioItem::End), "End of stream");
}

#[test]
fn requests_are_authorized() {
    let request = open_dg_stream(&app_state());
    assert_eq!(
        request.uri,
        "wss://api.deepgram.com/v1/listen?encoding=mulaw&sample_rate=8000&interim_results=true&endpointing=false"
    );
    assert_eq!(request.authorization, "Token console");
    assert_eq!(openai_authorization(&app_state()), "Bearer openai");
}

#[test]
fn an_error_shows_its_message() {
    let error = AppError("db error");
    assert_eq!(error.description(), "db error");
    assert_eq!(error.to_string(), "db error");
}
