use std::collections::HashMap;
use twilio_rs::bot_side::{BotSideEvent, BotSideManager};
use twilio_rs::caller_side::{caller_side_manager, extend_caller_side, CallerSideStep};
use twilio_rs::conversation_state::{
    elapsed_millis, Action, CallTask, ConversationState, DgMessage, Stage, Step,
};
use twilio_rs::deepgram_types::{
    Alternative, Channel, ModelInfo, StreamMessage, StreamingMeta, StreamingResponse, Word,
};
use twilio_rs::error::AppError;
use twilio_rs::openai_types::{OpenAIStreamChoice, OpenAIStreamResponse, StreamDelta};
use twilio_rs::texttospeech_v1_types::AudioConfigAudioEncoding;
use twilio_rs::twilio_types::{TwilioConnectPayload, TwilioOutbound};
use twilio_rs::types::{
    AppState, ConversationSignal, ConversationTurn, CurrentBotAction, Streams,
};
use uuid::Uuid;

/// Base64 of 58 bytes 0 and then "asdf".
const TTS: &str = "AAAAAAAAAAAAAAAAAAAAAAAAAAAAAAAAAAAAAAAAAAAAAAAAAAAAAAAAAAAAAAAAAAAAAAAAAAAAAGFzZGY=";

const SECOND: u128 = 1_000_000_000;

fn payload() -> TwilioConnectPayload {
    TwilioConnectPayload {
        call_sid: "CA1".to_string(),
        from: "+1".to_string(),
        to: "+2".to_string(),
        from_city: None,
        from_state: None,
        from_country: None,
        from_zip: None,
    }
}

fn new_state() -> ConversationState {
    ConversationState::new("MZ1".to_string(), payload(), TTS.to_string(), 0)
}

fn said(transcript: &str, is_final: bool) -> StreamingResponse {
    StreamingResponse {
        channel_index: (0, 1),
        is_final,
        speech_final: None,
        channel: Channel {
            alternatives: vec![
                Alternative {
                    transcript: transcript.to_string(),
                    words: vec![Word { word: transcript.to_string() }],
                },
                Alternative { transcript: "something else".to_string(), words: vec![] },
            ],
        },
    }
}

fn heard(transcript: &str) -> DgMessage {
    DgMessage::Text(Some(StreamMessage::StreamingResponse(said(transcript, true))))
}

fn signal_text(signal: &ConversationSignal) -> String {
    match signal {
        ConversationSignal::StreamingResponse(said) => said.transcript().to_string(),
        ConversationSignal::Go => panic!("no transcript"),
    }
}

fn act(step: Step) -> (Action, Stage) {
    match step {
        Step::Act(action, stage) => (action, stage),
        Step::Last(_) => panic!("last"),
        Step::Done(_) => panic!("done"),
    }
}

fn error(step: Step) -> &'static str {
    match step {
        Step::Done(Err(AppError(text))) => text,
        _ => panic!("no error"),
    }
}

/// The state of a call in which the caller has said hello at `now`.
fn listening(now: u128) -> ConversationState {
    let mut state = new_state();
    let (_, stage) = act(state.handle_dg_message(heard("hello"), now));
    state.resume(stage, true, now);
    state
}

/// The state of a call that is being answered.
fn talking() -> ConversationState {
    let mut state = listening(0);
    let (_, stage) = act(state.handle_dg_message(heard(""), 2 * SECOND));
    let (_, stage) = act(state.resume(stage, true, 2 * SECOND));
    state.resume(stage, true, 2 * SECOND);
    state
}

#[test]
fn time_is_counted_in_whole_milliseconds() {
    assert_eq!(elapsed_millis(0, 1_499_999_999), 1_499);
    assert_eq!(elapsed_millis(0, 1_500_000_000), 1_500);
    assert_eq!(elapsed_millis(7, 7), 0);
    assert_eq!(elapsed_millis(8, 7), 0);
    assert_eq!(elapsed_millis(0, u128::MAX), u128::MAX / 1_000_000);
}

#[test]
fn a_call_begins_with_the_greeting_being_spoken() {
    let state = new_state();
    assert_eq!(state.current_bot_action, CurrentBotAction::Talking);
    assert!(state.conversation_turns.is_empty());
    assert!(state.conversation_summaries.is_none());
    assert!(state.dg_request_id.is_none());
    assert!(!state.current_twilio_media_message_stream);
    assert_eq!(state.twilio_stream_id, "MZ1");
    assert_eq!(state.last_talking, 0);
    match &state.pause_msg {
        TwilioOutbound::Media { media, stream_sid } => {
            assert_eq!(media.payload, "YXNkZg==");
            assert_eq!(stream_sid, "MZ1");
        }
        TwilioOutbound::Clear { .. } => panic!("nothing to play"),
    }
}

#[test]
fn a_call_cannot_begin_without_audio() {
    let no = ConversationState::try_new("MZ1".to_string(), payload(), "YQ==".to_string(), 0);
    assert!(no.is_none());
    let yes = ConversationState::try_new("MZ1".to_string(), payload(), TTS.to_string(), 9);
    assert_eq!(yes.unwrap().last_talking, 9);
}

#[test]
fn a_caller_may_be_acknowledged_in_other_ways() {
    let pause = TwilioOutbound::Clear { stream_sid: "MZ2".to_string() };
    let state = ConversationState::with_pause_msg("MZ1".to_string(), payload(), pause, 3);
    assert!(matches!(state.pause_msg, TwilioOutbound::Clear { stream_sid } if stream_sid == "MZ2"));
    assert_eq!(state.twilio_stream_id, "MZ1");
    assert_eq!(state.twilio_connect_payload.call_sid, "CA1");
    assert_eq!(state.last_talking, 3);
}

#[test]
fn the_pause_is_phrased() {
    let app_state = AppState {
        console_api_key: String::new(),
        openai_api_key: String::new(),
        twilio_account_sid: String::new(),
        twilio_auth_token: String::new(),
        streams: Streams::new(),
    };
    let request = ConversationState::pause_request(&app_state);
    assert_eq!(request.input.unwrap().text.unwrap(), "Got it.");
    assert!(matches!(
        request.audio_config.unwrap().audio_encoding,
        Some(AudioConfigAudioEncoding::MULAW)
    ));
}

#[test]
fn speaking_up_opens_a_turn() {
    let mut state = new_state();
    let (action, stage) = act(state.handle_dg_message(heard("hello"), 5));
    match action {
        Action::OpenTurn { abort_media, first } => {
            assert!(!abort_media);
            assert_eq!(signal_text(&first), "hello");
        }
        _ => panic!("no turn opened"),
    }
    assert_eq!(state.last_talking, 5);
    assert_eq!(state.conversation_turns.len(), 0);
    match state.resume(stage, true, 6) {
        Step::Last(Action::StartCallerSide { turn }) => assert_eq!(turn, 0),
        _ => panic!("no caller side"),
    }
    assert_eq!(state.current_bot_action, CurrentBotAction::Listening);
    assert_eq!(state.conversation_turns.len(), 1);
    assert_eq!(state.conversation_turns[0].caller_side, "");
    assert_eq!(state.conversation_turns[0].bot_side, "");
    assert_eq!(state.last_talking, 5);
}

#[test]
fn a_caller_who_cuts_in_is_heard() {
    let mut state = talking();
    state.conversation_turns[0].bot_side = "Well.".to_string();
    let (action, stage) = act(state.handle_dg_message(heard("stop"), 7));
    match action {
        Action::SendOutbound(TwilioOutbound::Clear { stream_sid }) => assert_eq!(stream_sid, "MZ1"),
        _ => panic!("not cleared"),
    }
    let (action, stage) = act(state.resume(stage, true, 8));
    match action {
        Action::OpenTurn { abort_media, first } => {
            assert!(abort_media);
            assert_eq!(signal_text(&first), "stop");
        }
        _ => panic!("no turn opened"),
    }
    assert!(!state.current_twilio_media_message_stream);
    match state.resume(stage, true, 9) {
        Step::Last(Action::StartCallerSide { turn }) => assert_eq!(turn, 1),
        _ => panic!("no caller side"),
    }
    assert_eq!(state.current_bot_action, CurrentBotAction::Listening);
    assert_eq!(state.conversation_turns.len(), 2);
    assert_eq!(state.conversation_turns[0].bot_side, "Well.");
    assert_eq!(state.last_talking, 8);
}

#[test]
fn speech_is_relayed_while_listening() {
    let mut state = listening(0);
    let (action, stage) = act(state.handle_dg_message(heard("and"), SECOND));
    match action {
        Action::SignalTurn(signal) => assert_eq!(signal_text(&signal), "and"),
        _ => panic!("not relayed"),
    }
    assert_eq!(state.last_talking, SECOND);
    assert!(matches!(state.resume(stage, true, SECOND), Step::Done(Ok(()))));
    assert_eq!(state.conversation_turns.len(), 1);
}

#[test]
fn silence_is_given_polite_space() {
    let mut state = listening(SECOND);
    let soon = SECOND + 1_499_999_999;
    assert!(matches!(state.handle_dg_message(heard(""), soon), Step::Done(Ok(()))));
    assert_eq!(state.current_bot_action, CurrentBotAction::Listening);
    let (action, _) = act(state.handle_dg_message(heard(""), SECOND + 1_500_000_000));
    assert!(matches!(action, Action::SendOutbound(TwilioOutbound::Media { .. })));
}

#[test]
fn silence_is_not_minded_while_talking() {
    let mut state = talking();
    assert!(matches!(state.handle_dg_message(heard(""), 100 * SECOND), Step::Done(Ok(()))));
    assert_eq!(state.current_bot_action, CurrentBotAction::Talking);
    assert_eq!(state.last_talking, 0);
}

#[test]
fn a_silent_caller_is_acknowledged_and_answered() {
    let mut state = listening(0);
    extend_caller_side(&mut state.conversation_turns[0], "What is a cat?");
    let (action, stage) = act(state.handle_dg_message(heard(""), 2 * SECOND));
    match action {
        Action::SendOutbound(TwilioOutbound::Media { media, stream_sid }) => {
            assert_eq!(media.payload, "YXNkZg==");
            assert_eq!(stream_sid, "MZ1");
        }
        _ => panic!("not acknowledged"),
    }
    let (action, stage) = act(state.resume(stage, true, 3 * SECOND));
    assert!(matches!(action, Action::SignalTurn(ConversationSignal::Go)));
    match state.resume(stage, true, 4 * SECOND) {
        Step::Last(Action::StartBotSide { turn, conversation }) => {
            assert_eq!(turn, 0);
            assert_eq!(conversation.len(), 2);
            assert_eq!(conversation[1].role, "user");
            assert_eq!(conversation[1].content, "What is a cat?");
        }
        _ => panic!("not answered"),
    }
    assert_eq!(state.current_bot_action, CurrentBotAction::Talking);
    assert!(state.current_twilio_media_message_stream);
    assert_eq!(state.last_talking, 0);
}

/// The tasks of a call, in short.
fn tasks(state: &ConversationState) -> Vec<String> {
    state
        .join_handles
        .iter()
        .map(|task| match task {
            CallTask::Outbound => "out".to_string(),
            CallTask::CallerSide { turn } => format!("caller {}", turn),
            CallTask::BotSide { turn } => format!("bot {}", turn),
        })
        .collect()
}

#[test]
fn every_turn_has_its_tasks() {
    let mut state = new_state();
    assert_eq!(tasks(&state), vec!["out"]);
    for turn in 0..3 {
        // An answer is being played exactly while the bot talks and there is a turn.
        assert_eq!(state.current_twilio_media_message_stream, turn > 0);
        let mut step = state.handle_dg_message(heard("hello"), 0);
        while let Step::Act(_, stage) = step {
            step = state.resume(stage, true, 0);
        }
        assert_eq!(state.conversation_turns.len(), turn + 1);
        assert_eq!(state.join_handles.len(), 2 * (turn + 1));
        assert!(!state.current_twilio_media_message_stream);

        // What cannot be delivered starts nothing.
        let (_, stage) = act(state.handle_dg_message(heard(""), 2 * SECOND));
        error(state.resume(stage, false, 0));
        assert_eq!(state.join_handles.len(), 2 * (turn + 1));

        let mut step = state.handle_dg_message(heard(""), 2 * SECOND);
        while let Step::Act(_, stage) = step {
            step = state.resume(stage, true, 0);
        }
        assert_eq!(state.join_handles.len(), 2 * (turn + 1) + 1);
    }
    assert_eq!(
        tasks(&state),
        vec!["out", "caller 0", "bot 0", "caller 1", "bot 1", "caller 2", "bot 2"]
    );
}

#[test]
fn the_context_is_turn_by_turn() {
    let mut state = new_state();
    for (caller_side, bot_side) in [("a", "b"), ("", "c"), ("d", ""), ("", "")] {
        state.conversation_turns.push(ConversationTurn {
            caller_side: caller_side.to_string(),
            bot_side: bot_side.to_string(),
        });
    }
    let context: Vec<(String, String)> = state
        .get_conversation_context()
        .into_iter()
        .map(|m| (m.role, m.content))
        .collect();
    let expected = [
        ("system", "You are a friendly and helpful assistant."),
        ("user", "a"),
        ("assistant", "b"),
        ("assistant", "c"),
        ("user", "d"),
    ];
    assert_eq!(context.len(), expected.len());
    for (i, (role, content)) in expected.iter().enumerate() {
        assert_eq!(context[i].0, *role);
        assert_eq!(context[i].1, *content);
    }
}

#[test]
fn the_next_request_remembers_the_turn() {
    let mut state = listening(0);
    for (text, is_final) in [("what", false), ("what is", true), ("a cat", true)] {
        let signal = ConversationSignal::StreamingResponse(said(text, is_final));
        caller_side_manager(&mut state.conversation_turns[0], Some(signal));
    }
    let (mut manager, _) = BotSideManager::new(state.get_conversation_context());
    let mut responses = vec![];
    for text in ["A", " pet", ".", " It", " purrs"] {
        responses.push(Some(OpenAIStreamResponse {
            id: String::new(),
            object: String::new(),
            created: 0,
            model: String::new(),
            choices: vec![OpenAIStreamChoice {
                delta: StreamDelta::Content { content: text.to_string() },
                finish_reason: None,
                index: 0,
            }],
        }));
    }
    let turn = &mut state.conversation_turns[0];
    manager.bot_side_manager(turn, BotSideEvent::Requested(true));
    manager.bot_side_manager(turn, BotSideEvent::Decoded(responses));
    manager.bot_side_manager(turn, BotSideEvent::Spoken);
    manager.bot_side_manager(turn, BotSideEvent::EndOfAnswer);
    let context = state.get_conversation_context();
    assert_eq!(context.len(), 3);
    assert_eq!(context[1].content, "what is a cat");
    assert_eq!(context[2].content, "A pet. It purrs");
}

#[test]
fn what_is_not_delivered_is_an_error() {
    let mut state = listening(0);
    let (_, stage) = act(state.handle_dg_message(heard(""), 2 * SECOND));
    assert_eq!(
        error(state.resume(stage, false, 0)),
        "Error sending twilio outbound message"
    );
    assert_eq!(state.current_bot_action, CurrentBotAction::Listening);

    let (_, stage) = act(state.handle_dg_message(heard(""), 2 * SECOND));
    let (_, stage) = act(state.resume(stage, true, 0));
    assert_eq!(
        error(state.resume(stage, false, 0)),
        "Failed to stop message to turn manager."
    );
    assert_eq!(state.current_bot_action, CurrentBotAction::Listening);

    let (_, stage) = act(state.handle_dg_message(heard("x"), 0));
    assert_eq!(
        error(state.resume(stage, false, 0)),
        "Failed to send transcript to turn manager."
    );

    let mut state = talking();
    let (_, stage) = act(state.handle_dg_message(heard("x"), 0));
    assert_eq!(
        error(state.resume(stage, false, 0)),
        "Error sending twilio outbound message"
    );
    assert!(state.current_twilio_media_message_stream);

    let mut state = new_state();
    let (_, stage) = act(state.handle_dg_message(heard("x"), 0));
    assert_eq!(
        error(state.resume(stage, false, 0)),
        "Failed to send transcript to turn manager."
    );
    assert_eq!(state.current_bot_action, CurrentBotAction::Talking);
    assert!(state.conversation_turns.is_empty());
}

#[test]
fn messages_that_say_nothing_of_the_caller() {
    let mut state = listening(0);
    assert_eq!(
        error(state.handle_dg_message(DgMessage::Text(None), 0)),
        "deserialization error"
    );
    assert!(matches!(state.handle_dg_message(DgMessage::Other, 0), Step::Done(Ok(()))));
    assert!(state.dg_request_id.is_none());
    let mut model_info = HashMap::new();
    model_info.insert(
        Uuid::from_u128(2),
        ModelInfo {
            name: "general".to_string(),
            version: "1".to_string(),
            arch: "base".to_string(),
        },
    );
    let meta = StreamingMeta {
        transaction_key: None,
        request_id: Uuid::from_u128(1),
        sha256: "0".to_string(),
        channels: 1,
        models: vec![Uuid::from_u128(2)],
        model_info,
    };
    let message = StreamMessage::StreamingMeta(meta);
    match message.clone() {
        StreamMessage::StreamingMeta(copy) => {
            assert_eq!(copy.request_id, Uuid::from_u128(1));
            assert_eq!(copy.models, vec![Uuid::from_u128(2)]);
            assert_eq!(copy.model_info[&Uuid::from_u128(2)].name, "general");
        }
        StreamMessage::StreamingResponse(_) => panic!("another message"),
    }
    let message = DgMessage::Text(Some(message));
    assert!(matches!(state.handle_dg_message(message, 0), Step::Done(Ok(()))));
    assert_eq!(state.dg_request_id, Some(Uuid::from_u128(1)));
    assert_eq!(state.current_bot_action, CurrentBotAction::Listening);
}

#[test]
fn a_transcript_can_be_copied() {
    let first = said("what is", true);
    let copy = first.clone();
    assert_eq!(copy.channel, first.channel);
    assert_eq!(copy.channel_index, (0, 1));
    assert!(copy.is_final);
    assert_eq!(copy.speech_final, None);
}

#[test]
fn what_is_said_while_a_message_is_handled_is_not_lost() {
    let mut state = listening(0);
    let (_, stage) = act(state.handle_dg_message(heard(""), 2 * SECOND));
    extend_caller_side(&mut state.conversation_turns[0], "one");
    let (_, stage) = act(state.resume(stage, true, 2 * SECOND));
    extend_caller_side(&mut state.conversation_turns[0], "two");
    match state.resume(stage, true, 2 * SECOND) {
        Step::Last(Action::StartBotSide { turn, conversation }) => {
            assert_eq!(turn, 0);
            assert_eq!(conversation[1].content, "one two");
        }
        _ => panic!("not answered"),
    }
    let (_, stage) = act(state.handle_dg_message(heard("stop"), 3 * SECOND));
    state.conversation_turns[0].bot_side = "Well".to_string();
    let (_, stage) = act(state.resume(stage, true, 3 * SECOND));
    extend_caller_side(&mut state.conversation_turns[0], "three");
    state.resume(stage, true, 3 * SECOND);
    assert_eq!(state.conversation_turns.len(), 2);
    assert_eq!(state.conversation_turns[0].caller_side, "one two three");
    assert_eq!(state.conversation_turns[0].bot_side, "Well");
}

#[test]
fn the_caller_side_is_what_is_final() {
    let mut turn = ConversationTurn::new();
    for (text, is_final) in [("what", false), ("what is", true), ("a", false), ("a cat", true)] {
        let signal = ConversationSignal::StreamingResponse(said(text, is_final));
        assert!(matches!(
            caller_side_manager(&mut turn, Some(signal)),
            CallerSideStep::Wait
        ));
    }
    assert_eq!(turn.caller_side, "what is a cat");
    assert!(matches!(
        caller_side_manager(&mut turn, Some(ConversationSignal::Go)),
        CallerSideStep::Done(Ok(()))
    ));
    assert!(matches!(
        caller_side_manager(&mut turn, None),
        CallerSideStep::Done(Ok(()))
    ));
    assert_eq!(turn.caller_side, "what is a cat");
    assert_eq!(turn.bot_side, "");
}

#[test]
fn a_space_goes_between_pieces() {
    let mut turn = ConversationTurn::new();
    extend_caller_side(&mut turn, "");
    assert_eq!(turn.caller_side, "");
    extend_caller_side(&mut turn, "a");
    extend_caller_side(&mut turn, "b");
    extend_caller_side(&mut turn, "");
    assert_eq!(turn.caller_side, "a b ");
}
