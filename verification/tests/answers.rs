use twilio_rs::bot_side::{
    ends_clause, extend_bot_side, BotSideAction, BotSideEvent, BotSideManager,
};
use twilio_rs::error::AppError;
use twilio_rs::event_stream::{chunk_events, data_events};
use twilio_rs::openai_types::{
    OpenAIMessage, OpenAIPayload, OpenAIStreamChoice, OpenAIStreamResponse, StreamDelta,
};
use twilio_rs::texttospeech_v1_types::AudioConfigAudioEncoding;
use twilio_rs::types::ConversationTurn;

fn event(delta: StreamDelta) -> OpenAIStreamResponse {
    OpenAIStreamResponse {
        id: "chatcmpl-1".to_string(),
        object: "chat.completion.chunk".to_string(),
        created: 1,
        model: "gpt-3.5-turbo".to_string(),
        choices: vec![OpenAIStreamChoice { delta, finish_reason: None, index: 0 }],
    }
}

fn content(text: &str) -> OpenAIStreamResponse {
    event(StreamDelta::Content { content: text.to_string() })
}

fn role() -> OpenAIStreamResponse {
    event(StreamDelta::Role { role: "assistant".to_string() })
}

fn end() -> OpenAIStreamResponse {
    event(StreamDelta::Empty {})
}

/// What is spoken of an answer whose events come in chunks, and what then waits to be spoken.
fn speak(chunks: Vec<Vec<OpenAIStreamResponse>>, turn: &mut ConversationTurn) -> (Vec<String>, String) {
    let (mut manager, _) = BotSideManager::new(vec![]);
    let mut spoken = vec![];
    for chunk in chunks {
        let decoded = chunk.into_iter().map(Some).collect();
        let mut action = manager.bot_side_manager(turn, BotSideEvent::Decoded(decoded));
        loop {
            match action {
                BotSideAction::Speak(request) => {
                    assert!(matches!(
                        request.audio_config.unwrap().audio_encoding,
                        Some(AudioConfigAudioEncoding::MULAW)
                    ));
                    spoken.push(request.input.unwrap().text.unwrap());
                    action = manager.bot_side_manager(turn, BotSideEvent::Spoken);
                }
                BotSideAction::ReadChunk => break,
                _ => panic!("ended early"),
            }
        }
    }
    (spoken, manager.chat_buffer)
}

fn failure(event: BotSideEvent) -> &'static str {
    let (mut manager, _) = BotSideManager::new(vec![]);
    let mut turn = ConversationTurn::new();
    match manager.bot_side_manager(&mut turn, event) {
        BotSideAction::Done(Err(AppError(text))) => text,
        _ => panic!("no error"),
    }
}

#[test]
fn events_are_lines_with_data() {
    assert_eq!(data_events("data: {a}\n\ndata: {b}\n\n"), vec!["{a}", "{b}"]);
    assert_eq!(data_events("data: [DONE]"), vec!["[DONE]"]);
    assert_eq!(data_events(""), Vec::<String>::new());
    assert_eq!(data_events("data:{a}\n data: {b}\nid: 1\nData: {c}\n"), Vec::<String>::new());
    assert_eq!(data_events("data: \ndata: data: x\n"), vec!["", "data: x"]);
}

#[test]
fn lines_may_end_in_carriage_returns() {
    assert_eq!(data_events("data: a\r\n\r\ndata: b\r\n"), vec!["a", "b"]);
    assert_eq!(data_events("data: a\rb\ndata: c\r"), vec!["a\rb", "c\r"]);
    assert_eq!(data_events("data: a\r\r\n"), vec!["a\r"]);
    assert_eq!(data_events("\r\ndata: \r\n"), vec![""]);
}

#[test]
fn events_need_not_be_ascii() {
    let chunk = "data: d\u{e9}j\u{e0} \u{1F600}\n\n".as_bytes().to_vec();
    assert_eq!(chunk_events(chunk), Some(vec!["d\u{e9}j\u{e0} \u{1F600}".to_string()]));
    assert_eq!(chunk_events(vec![100, 97, 255]), None);
    assert_eq!(chunk_events("data: \u{e9}".as_bytes()[..7].to_vec()), None);
}

#[test]
fn framed_payloads_come_back() {
    let payloads = vec!["{\"a\":1}".to_string(), "x y".to_string(), "[DONE]".to_string()];
    let mut text = String::new();
    for payload in &payloads {
        text.push_str(&format!("data: {}\n\n", payload));
    }
    assert_eq!(data_events(&text), payloads);
    let mut parts = data_events("data: a\n\n");
    parts.append(&mut data_events("data: b\n\n"));
    assert_eq!(data_events("data: a\n\ndata: b\n\n"), parts);
}

#[test]
fn what_ends_a_clause() {
    for text in [".", "?", "!", ";"] {
        assert!(ends_clause(&text.to_string()));
    }
    for text in ["", ",", ":", "..", " .", "end."] {
        assert!(!ends_clause(&text.to_string()));
    }
}

#[test]
fn an_answer_is_asked_for_as_a_stream() {
    let conversation =
        vec![OpenAIMessage { role: "user".to_string(), content: "Hello?".to_string() }];
    let (manager, payload) = BotSideManager::new(conversation);
    assert_eq!(payload.model, "gpt-3.5-turbo");
    assert_eq!(payload.messages.len(), 1);
    assert_eq!(payload.messages[0].role, "user");
    assert_eq!(payload.messages[0].content, "Hello?");
    assert_eq!(payload.stream, Some(true));
    assert_eq!(payload.max_tokens, None);
    assert_eq!(manager.chat_buffer, "");
}

#[test]
fn an_empty_payload() {
    let payload = OpenAIPayload::default();
    assert_eq!(payload.model, "");
    assert!(payload.messages.is_empty());
    assert_eq!(payload.stream, None);
    assert_eq!(payload.max_tokens, None);
}

#[test]
fn clauses_are_spoken_as_they_are_completed() {
    let mut turn = ConversationTurn::new();
    let chunks = vec![vec![
        role(),
        content("Hi"),
        content("."),
        content(" How"),
        content(" so"),
        content("?"),
        content(" Oh"),
        end(),
    ]];
    let (spoken, waiting) = speak(chunks, &mut turn);
    assert_eq!(spoken, vec!["Hi.", " How so?", " Oh"]);
    assert_eq!(waiting, "");
    assert_eq!(turn.bot_side, "Hi. How so? Oh");
    assert_eq!(turn.caller_side, "");
}

#[test]
fn the_end_is_spoken_even_where_nothing_is_left() {
    let mut turn = ConversationTurn::new();
    let (spoken, _) = speak(vec![vec![content("Yes"), content("!"), end()]], &mut turn);
    assert_eq!(spoken, vec!["Yes!", ""]);
}

#[test]
fn a_clause_may_span_chunks() {
    let mut turn = ConversationTurn::new();
    let chunks = vec![vec![content("One")], vec![], vec![content(" two"), content(";")]];
    let (spoken, waiting) = speak(chunks, &mut turn);
    assert_eq!(spoken, vec!["One two;"]);
    assert_eq!(waiting, "");
    let (spoken, waiting) = speak(vec![vec![content(" three")]], &mut turn);
    assert!(spoken.is_empty());
    assert_eq!(waiting, " three");
    assert_eq!(turn.bot_side, "One two; three");
}

#[test]
fn it_does_not_matter_where_chunks_are_cut() {
    let whole = || {
        vec![content("a"), content("."), content("b"), content("c"), content("!"), content("d")]
    };
    let mut turn = ConversationTurn::new();
    let expected = speak(vec![whole()], &mut turn);
    assert_eq!(expected, (vec!["a.".to_string(), "bc!".to_string()], "d".to_string()));
    for cut in 0..=6 {
        let mut first = whole();
        let second = first.split_off(cut);
        let mut turn = ConversationTurn::new();
        assert_eq!(speak(vec![first, second], &mut turn), expected);
        assert_eq!(turn.bot_side, "a.bc!d");
    }
}

#[test]
fn chunks_are_decoded() {
    let (mut manager, _) = BotSideManager::new(vec![]);
    let mut turn = ConversationTurn::new();
    let chunk = b"data: {\"id\":1}\n\ndata: [DONE]\n\n".to_vec();
    match manager.bot_side_manager(&mut turn, BotSideEvent::Chunk(chunk)) {
        BotSideAction::Decode(payloads) => assert_eq!(payloads, vec!["{\"id\":1}", "[DONE]"]),
        _ => panic!("not decoded"),
    }
    assert!(matches!(
        manager.bot_side_manager(&mut turn, BotSideEvent::Requested(true)),
        BotSideAction::ReadChunk
    ));
    assert!(matches!(
        manager.bot_side_manager(&mut turn, BotSideEvent::EndOfAnswer),
        BotSideAction::Done(Ok(()))
    ));
    assert_eq!(turn.bot_side, "");
}

#[test]
fn an_answer_may_fail() {
    assert_eq!(failure(BotSideEvent::Requested(false)), "Failed to send request to OpenAI");
    assert_eq!(
        failure(BotSideEvent::Chunk(vec![0xff])),
        "Error deserializing OpenAI streamed choice"
    );
    assert_eq!(
        failure(BotSideEvent::ChunkFailed),
        "Error getting bytes chunk from OpenAI response stream"
    );
    assert_eq!(
        failure(BotSideEvent::SpeechBlocked),
        "Error sending tts payload through channel"
    );
}

#[test]
fn what_cannot_be_decoded_is_dropped() {
    let (mut manager, _) = BotSideManager::new(vec![]);
    let mut turn = ConversationTurn::new();
    let decoded = vec![None, Some(content("Oh")), None, Some(content("!")), None];
    match manager.bot_side_manager(&mut turn, BotSideEvent::Decoded(decoded)) {
        BotSideAction::Speak(request) => assert_eq!(request.input.unwrap().text.unwrap(), "Oh!"),
        _ => panic!("not spoken"),
    }
    assert!(matches!(
        manager.bot_side_manager(&mut turn, BotSideEvent::Spoken),
        BotSideAction::ReadChunk
    ));
    let decoded = vec![None, None];
    assert!(matches!(
        manager.bot_side_manager(&mut turn, BotSideEvent::Decoded(decoded)),
        BotSideAction::ReadChunk
    ));
    assert_eq!(turn.bot_side, "Oh!");
}

#[test]
fn an_answer_is_collected_though_nobody_listens() {
    let (mut manager, _) = BotSideManager::new(vec![]);
    let mut turn = ConversationTurn::new();
    let decoded = vec![Some(content("a")), Some(content(".")), Some(content("b")), Some(end())];
    let action = manager.bot_side_manager(&mut turn, BotSideEvent::Decoded(decoded));
    assert!(matches!(action, BotSideAction::Speak(_)));
    let action = manager.bot_side_manager(&mut turn, BotSideEvent::SpeechUnheard);
    assert!(matches!(action, BotSideAction::Speak(_)));
    let action = manager.bot_side_manager(&mut turn, BotSideEvent::SpeechUnheard);
    assert!(matches!(action, BotSideAction::ReadChunk));
    assert_eq!(turn.bot_side, "a.b");
}

#[test]
fn the_bot_side_grows() {
    let mut turn = ConversationTurn::new();
    extend_bot_side(&mut turn, "a");
    extend_bot_side(&mut turn, "b");
    assert_eq!(turn.bot_side, "ab");
    assert_eq!(turn.caller_side, "");
}
