use std::collections::HashMap;
use twilio_rs::conversation_state::{Action, ConversationState, DgMessage};
use twilio_rs::db_types::{Call, Caller, Turn};
use twilio_rs::deepgram_types::{
    Alternative, Channel, StreamMessage, StreamingMeta, StreamingResponse,
};
use twilio_rs::error::AppError;
use twilio_rs::openai_types::{
    OpenAIBatchChoice, OpenAIBatchResponse, OpenAIChoice, OpenAIMessage, OpenAIPayload,
    OpenAIUsageStats,
};
use twilio_rs::storage::{turn_rows, DbAction, DbEvent, DbStage, DbStep};
use twilio_rs::summaries::{
    editor_payload, get_conversation_summary_for_bot_side, EditorQuestion, EditorStep,
    OpenAIReply, SummaryAction, SummaryEvent, SummaryStage, SummaryStep,
};
use twilio_rs::tasks::{
    sms_request, CallAction, CallEvent, CallStage, CallStep, DgItem,
};
use twilio_rs::twilio_types::TwilioConnectPayload;
use twilio_rs::types::{ConversationSummary, ConversationTurn};
use uuid::Uuid;

/// Base64 of 58 bytes 0 and then "asdf".
const TTS: &str = "AAAAAAAAAAAAAAAAAAAAAAAAAAAAAAAAAAAAAAAAAAAAAAAAAAAAAAAAAAAAAAAAAAAAAAAAAAAAAGFzZGY=";

fn payload() -> TwilioConnectPayload {
    TwilioConnectPayload {
        call_sid: "CA1".to_string(),
        from: "+1".to_string(),
        to: "+2".to_string(),
        from_city: Some("Springfield".to_string()),
        from_state: Some("IL".to_string()),
        from_country: Some("US".to_string()),
        from_zip: None,
    }
}

fn turn(caller_side: &str, bot_side: &str) -> ConversationTurn {
    ConversationTurn { caller_side: caller_side.to_string(), bot_side: bot_side.to_string() }
}

fn new_state() -> ConversationState {
    ConversationState::new("MZ1".to_string(), payload(), TTS.to_string(), 0)
}

fn state_with(turns: Vec<ConversationTurn>) -> ConversationState {
    let mut state = new_state();
    state.conversation_turns = turns;
    state
}

fn summary(idx: usize, topic: &str, summary: &str) -> ConversationSummary {
    ConversationSummary { idx, topic: topic.to_string(), summary: summary.to_string() }
}

fn batch(text: &str) -> OpenAIReply {
    OpenAIReply::Batch(OpenAIBatchResponse {
        id: "chatcmpl-1".to_string(),
        object: "chat.completion".to_string(),
        created: 1,
        model: "gpt-3.5-turbo".to_string(),
        usage: OpenAIUsageStats { prompt_tokens: 1, completion_tokens: 2, total_tokens: 3 },
        choices: vec![OpenAIBatchChoice {
            message: OpenAIMessage { role: "assistant".to_string(), content: text.to_string() },
            finish_reason: Some("stop".to_string()),
            index: 0,
        }],
    })
}

fn question(payload: &OpenAIPayload) -> String {
    assert_eq!(payload.model, "gpt-3.5-turbo");
    assert_eq!(payload.stream, None);
    assert_eq!(payload.max_tokens, None);
    assert_eq!(payload.messages.len(), 2);
    assert_eq!(payload.messages[0].role, "system");
    assert_eq!(payload.messages[0].content, "You are a knowledgeable editor.");
    assert_eq!(payload.messages[1].role, "assistant");
    payload.messages[1].content.clone()
}

fn topic_question(text: &str) -> String {
    format!("In one to three words, please give the topic of the following:\n\n{}", text)
}

fn summary_question(text: &str) -> String {
    format!("In fewer than twenty words, please give a summary of the following:\n\n{}", text)
}

/// Has summaries made, when the requests are replied to one after the other with `replies`.
/// Gives the questions that were put.
fn summarize(state: &mut ConversationState, replies: Vec<OpenAIReply>) -> Vec<String> {
    let mut replies = replies.into_iter();
    let mut questions = vec![];
    let mut step = state.get_conversation_summaries();
    loop {
        match step {
            SummaryStep::Act(action, stage) => {
                let event = match action {
                    SummaryAction::CheckTasks => SummaryEvent::Checked { all_finished: true },
                    SummaryAction::Sleep { .. } => SummaryEvent::Slept,
                    SummaryAction::Ask(payload) => {
                        questions.push(question(&payload));
                        SummaryEvent::Replied(replies.next().unwrap())
                    }
                };
                step = state.resume_summaries(stage, event);
            }
            SummaryStep::Done => return questions,
        }
    }
}

fn db_act(step: DbStep) -> (DbAction, DbStage) {
    match step {
        DbStep::Act(action, stage) => (action, stage),
        DbStep::Done(_) => panic!("done"),
    }
}

fn db_error(step: DbStep) -> &'static str {
    match step {
        DbStep::Done(Err(AppError(text))) => text,
        _ => panic!("no error"),
    }
}

fn call_act(step: CallStep) -> (CallAction, CallStage) {
    match step {
        CallStep::Act(action, stage) => (action, stage),
        CallStep::Done(_) => panic!("done"),
    }
}

fn dg(message: StreamMessage, now: u128) -> CallEvent {
    CallEvent::Dg { item: DgItem::Message(DgMessage::Text(Some(message))), now }
}

fn heard(transcript: &str) -> StreamMessage {
    StreamMessage::StreamingResponse(StreamingResponse {
        channel_index: (0, 1),
        is_final: true,
        speech_final: Some(true),
        channel: Channel {
            alternatives: vec![Alternative { transcript: transcript.to_string(), words: vec![] }],
        },
    })
}

fn meta() -> StreamMessage {
    StreamMessage::StreamingMeta(StreamingMeta {
        transaction_key: None,
        request_id: Uuid::from_u128(7),
        sha256: String::new(),
        channels: 1,
        models: vec![],
        model_info: HashMap::new(),
    })
}

#[test]
fn an_editor_is_asked() {
    assert_eq!(question(&editor_payload("Why? ", "Because.")), "Why? Because.");
}

#[test]
fn an_answer_is_asked_about_twice() {
    let step = get_conversation_summary_for_bot_side(3, "Cats purr.", EditorQuestion::Topic, batch("Cats"));
    let topic = match step {
        EditorStep::Ask(payload, EditorQuestion::Summary { topic }) => {
            assert_eq!(question(&payload), summary_question("Cats purr."));
            topic
        }
        _ => panic!("not asked"),
    };
    assert_eq!(topic, "Cats");
    let next = EditorQuestion::Summary { topic };
    match get_conversation_summary_for_bot_side(3, "Cats purr.", next, batch("They purr.")) {
        EditorStep::Done(Ok(made)) => {
            assert_eq!(made.idx, 3);
            assert_eq!(made.topic, "Cats");
            assert_eq!(made.summary, "They purr.");
        }
        _ => panic!("no summary"),
    }
}

#[test]
fn an_answer_may_go_without_a_summary() {
    for ask in [EditorQuestion::Topic, EditorQuestion::Summary { topic: "t".to_string() }] {
        assert!(matches!(
            get_conversation_summary_for_bot_side(0, "", ask, OpenAIReply::NotSent),
            EditorStep::Done(Err(AppError("Failed to send request to OpenAI")))
        ));
    }
    for ask in [EditorQuestion::Topic, EditorQuestion::Summary { topic: "t".to_string() }] {
        assert!(matches!(
            get_conversation_summary_for_bot_side(0, "", ask, OpenAIReply::Undecodable),
            EditorStep::Done(Err(AppError("deserialize")))
        ));
    }
}

#[test]
fn every_turn_is_summarized() {
    let mut state = state_with(vec![turn("a", "b"), turn("c", "")]);
    let replies = vec![batch("T0"), batch("S0"), batch("T1"), batch("S1")];
    let questions = summarize(&mut state, replies);
    assert_eq!(
        questions,
        vec![topic_question("b"), summary_question("b"), topic_question(""), summary_question("")]
    );
    let made = state.conversation_summaries.as_ref().unwrap();
    assert_eq!(made.len(), 2);
    assert_eq!((made[0].idx, made[0].topic.as_str(), made[0].summary.as_str()), (0, "T0", "S0"));
    assert_eq!((made[1].idx, made[1].topic.as_str(), made[1].summary.as_str()), (1, "T1", "S1"));
}

#[test]
fn a_failure_costs_one_summary() {
    let mut state = state_with(vec![turn("", "a"), turn("", "b"), turn("", "c")]);
    let replies = vec![
        OpenAIReply::NotSent,
        batch("T1"),
        OpenAIReply::Undecodable,
        batch("T2"),
        batch("S2"),
    ];
    let questions = summarize(&mut state, replies);
    assert_eq!(questions.len(), 5);
    assert_eq!(questions[1], topic_question("b"));
    let made = state.conversation_summaries.as_ref().unwrap();
    assert_eq!(made.len(), 1);
    assert_eq!((made[0].idx, made[0].topic.as_str(), made[0].summary.as_str()), (2, "T2", "S2"));
}

#[test]
fn summaries_are_made_once() {
    let mut state = state_with(vec![turn("", "a")]);
    assert_eq!(summarize(&mut state, vec![batch("T"), batch("S")]).len(), 2);
    assert!(matches!(state.get_conversation_summaries(), SummaryStep::Done));
    assert_eq!(state.conversation_summaries.as_ref().unwrap().len(), 1);
}

#[test]
fn a_call_without_turns_has_no_summaries() {
    let mut state = new_state();
    assert!(summarize(&mut state, vec![]).is_empty());
    assert!(state.conversation_summaries.unwrap().is_empty());
}

#[test]
fn unfinished_tasks_get_five_seconds() {
    let mut state = state_with(vec![turn("", "a")]);
    let mut step = state.get_conversation_summaries();
    let mut slept: u64 = 0;
    let mut checks = 0;
    loop {
        match step {
            SummaryStep::Act(SummaryAction::CheckTasks, stage) => {
                checks += 1;
                step = state.resume_summaries(stage, SummaryEvent::Checked { all_finished: false });
            }
            SummaryStep::Act(SummaryAction::Sleep { millis }, stage) => {
                slept += millis;
                step = state.resume_summaries(stage, SummaryEvent::Slept);
            }
            SummaryStep::Act(SummaryAction::Ask(_), stage) => {
                assert!(matches!(stage, SummaryStage::Asking { idx: 0, .. }));
                break;
            }
            SummaryStep::Done => panic!("nothing asked"),
        }
    }
    assert_eq!(checks, 5);
    assert_eq!(slept, 5_000);
}

#[test]
fn rows_of_turns() {
    let turns = vec![turn("a", "b"), turn("c", "d"), turn("e", "f")];
    let made = Some(vec![summary(0, "T0", "S0"), summary(2, "T2", "S2")]);
    let rows = turn_rows(9, &turns, &made);
    assert_eq!(rows.call_ids, vec![9, 9, 9]);
    assert_eq!(rows.call_idxs, vec![0, 1, 2]);
    assert_eq!(rows.caller_sides, vec!["a", "c", "e"]);
    assert_eq!(rows.bot_sides, vec!["b", "d", "f"]);
    assert_eq!(rows.topics, vec!["T0", "", "T2"]);
    assert_eq!(rows.summaries, vec!["S0", "", "S2"]);
}

#[test]
fn rows_without_summaries() {
    let rows = turn_rows(9, &vec![turn("a", "b")], &None);
    assert_eq!(rows.topics, vec![""]);
    assert_eq!(rows.summaries, vec![""]);
    let rows = turn_rows(9, &vec![], &Some(vec![]));
    assert!(rows.call_ids.is_empty());
    assert!(rows.call_idxs.is_empty());
    assert!(rows.caller_sides.is_empty());
    assert!(rows.bot_sides.is_empty());
    assert!(rows.topics.is_empty());
    assert!(rows.summaries.is_empty());
}

#[test]
fn the_last_of_two_summaries_of_a_turn_counts() {
    let made = Some(vec![summary(0, "T", "S"), summary(0, "U", "V")]);
    let rows = turn_rows(1, &vec![turn("a", "b")], &made);
    assert_eq!(rows.topics, vec!["U"]);
    assert_eq!(rows.summaries, vec!["V"]);
}

#[test]
fn a_new_caller_is_stored() {
    let mut state = state_with(vec![turn("a", "b")]);
    state.dg_request_id = Some(Uuid::from_u128(7));
    let (action, stage) = db_act(state.insert_db_row());
    match action {
        DbAction::FindCaller { phone } => assert_eq!(phone, "+1"),
        _ => panic!("not looked for"),
    }
    let (action, stage) = db_act(state.resume_db_row(stage, DbEvent::Failed));
    match action {
        DbAction::AddCaller { phone, city, state, country, zip } => {
            assert_eq!(phone, "+1");
            assert_eq!(city, Some("Springfield".to_string()));
            assert_eq!(state, Some("IL".to_string()));
            assert_eq!(country, Some("US".to_string()));
            assert_eq!(zip, None);
        }
        _ => panic!("not added"),
    }
    let (action, stage) = db_act(state.resume_db_row(stage, DbEvent::Row(3)));
    assert!(matches!(action, DbAction::Begin));
    let (action, stage) = db_act(state.resume_db_row(stage, DbEvent::Completed));
    match action {
        DbAction::AddCall { caller, twilio_call_sid, twilio_stream_sid, dg_request_id } => {
            assert_eq!(caller, 3);
            assert_eq!(twilio_call_sid, "CA1");
            assert_eq!(twilio_stream_sid, "MZ1");
            assert_eq!(dg_request_id, Uuid::from_u128(7));
        }
        _ => panic!("no call"),
    }
    let (action, stage) = db_act(state.resume_db_row(stage, DbEvent::Row(4)));
    match action {
        DbAction::AddTurns(rows) => {
            assert_eq!(rows.call_ids, vec![4]);
            assert_eq!(rows.caller_sides, vec!["a"]);
            assert_eq!(rows.bot_sides, vec!["b"]);
        }
        _ => panic!("no turns"),
    }
    let (action, stage) = db_act(state.resume_db_row(stage, DbEvent::Completed));
    assert!(matches!(action, DbAction::Commit));
    assert!(matches!(
        state.resume_db_row(stage, DbEvent::Completed),
        DbStep::Done(Ok(()))
    ));
}

#[test]
fn a_known_caller_is_not_added() {
    let mut state = new_state();
    state.dg_request_id = Some(Uuid::from_u128(7));
    let (_, stage) = db_act(state.insert_db_row());
    let (action, stage) = db_act(state.resume_db_row(stage, DbEvent::Row(3)));
    assert!(matches!(action, DbAction::Begin));
    assert!(matches!(stage, DbStage::Beginning { caller: 3 }));
}

#[test]
fn a_call_without_request_id_is_not_stored() {
    let state = new_state();
    assert_eq!(
        db_error(state.resume_db_row(DbStage::FindingCaller, DbEvent::Row(3))),
        "dg request id unavailable"
    );
    assert_eq!(
        db_error(state.resume_db_row(DbStage::AddingCaller, DbEvent::Row(3))),
        "dg request id unavailable"
    );
}

#[test]
fn storing_may_fail() {
    let mut state = new_state();
    state.dg_request_id = Some(Uuid::from_u128(7));
    for stage in [
        DbStage::AddingCaller,
        DbStage::Beginning { caller: 1 },
        DbStage::AddingCall,
        DbStage::AddingTurns,
        DbStage::Committing,
    ] {
        assert_eq!(db_error(state.resume_db_row(stage, DbEvent::Failed)), "db error");
    }
}

#[test]
fn a_summary_is_texted_to_the_caller() {
    let sms = sms_request("AC1", &payload(), &summary(0, "Cats", "They purr."));
    assert_eq!(sms.url, "https://api.twilio.com/2010-04-01/Accounts/AC1/Messages.json");
    assert_eq!(sms.from, "+2");
    assert_eq!(sms.to, "+1");
    assert_eq!(sms.body, "Cats: They purr.");
}

#[test]
fn a_whole_call() {
    let mut state = new_state();
    let mut log: Vec<String> = vec![];
    let mut messages = vec![
        dg(heard(""), 1),
        dg(heard("hello"), 2),
        dg(heard(""), 2_000_000_000),
        dg(meta(), 2_000_000_001),
        CallEvent::Dg { item: DgItem::End, now: 2_000_000_002 },
    ]
    .into_iter();
    let mut replies = vec![batch("Cats"), batch("They purr.")].into_iter();
    let mut rows = vec![DbEvent::Row(3), DbEvent::Completed, DbEvent::Row(4)].into_iter();
    let mut stage = CallStage::Listening;
    let mut event = messages.next().unwrap();
    loop {
        let (action, next) = match state.manage_conversation("AC1", stage, event) {
            CallStep::Act(action, next) => (action, next),
            CallStep::Done(result) => {
                assert!(result.is_ok());
                break;
            }
        };
        stage = next;
        event = match action {
            CallAction::ReadDg => messages.next().unwrap(),
            CallAction::Converse(action) => {
                match action {
                    Action::SendOutbound(_) => log.push("send".to_string()),
                    Action::SignalTurn(_) => log.push("signal".to_string()),
                    Action::OpenTurn { .. } => log.push("open".to_string()),
                    Action::StartCallerSide { turn } => {
                        state.conversation_turns[turn].caller_side = "hello".to_string();
                        log.push("listen".to_string());
                    }
                    Action::StartBotSide { turn, .. } => {
                        state.conversation_turns[turn].bot_side = "Cats purr.".to_string();
                        log.push("answer".to_string());
                    }
                }
                CallEvent::Performed { delivered: true, now: 2 }
            }
            CallAction::Summarize(action) => CallEvent::Summary(match action {
                SummaryAction::CheckTasks => SummaryEvent::Checked { all_finished: true },
                SummaryAction::Sleep { .. } => SummaryEvent::Slept,
                SummaryAction::Ask(payload) => {
                    assert!(question(&payload).ends_with("\n\nCats purr."));
                    log.push("ask".to_string());
                    SummaryEvent::Replied(replies.next().unwrap())
                }
            }),
            CallAction::Text(sms) => {
                log.push(sms.body);
                CallEvent::Texted
            }
            CallAction::Store(action) => {
                if let DbAction::AddTurns(turns) = &action {
                    assert_eq!(turns.call_ids, vec![4]);
                    assert_eq!(turns.caller_sides, vec!["hello"]);
                    assert_eq!(turns.topics, vec!["Cats"]);
                }
                if let DbAction::Commit = &action {
                    log.push("commit".to_string());
                }
                CallEvent::Db(rows.next().unwrap_or(DbEvent::Completed))
            }
        };
    }
    assert_eq!(state.dg_request_id, Some(Uuid::from_u128(7)));
    assert_eq!(state.conversation_summaries.as_ref().unwrap().len(), 1);
    assert_eq!(
        log,
        vec![
            "open", "listen", "send", "signal", "answer", "ask", "ask", "Cats: They purr.",
            "commit"
        ]
    );
}

#[test]
fn every_summary_is_texted() {
    let mut state = state_with(vec![turn("", "a"), turn("", "b")]);
    state.conversation_summaries = Some(vec![summary(0, "T0", "S0"), summary(1, "T1", "S1")]);
    let end = CallEvent::Dg { item: DgItem::End, now: 0 };
    let (action, stage) = call_act(state.manage_conversation("AC1", CallStage::Listening, end));
    match action {
        CallAction::Text(sms) => assert_eq!(sms.body, "T0: S0"),
        _ => panic!("not texted"),
    }
    let (action, stage) = call_act(state.manage_conversation("AC1", stage, CallEvent::Texted));
    match action {
        CallAction::Text(sms) => assert_eq!(sms.body, "T1: S1"),
        _ => panic!("not texted"),
    }
    let (action, _) = call_act(state.manage_conversation("AC1", stage, CallEvent::Texted));
    assert!(matches!(action, CallAction::Store(DbAction::FindCaller { .. })));
}

#[test]
fn a_call_that_breaks_off_is_not_kept() {
    let mut state = new_state();
    let failed = CallEvent::Dg { item: DgItem::Failed, now: 0 };
    assert!(matches!(
        state.manage_conversation("AC1", CallStage::Listening, failed),
        CallStep::Done(Err(AppError("dg stream error")))
    ));
    let garbled = CallEvent::Dg { item: DgItem::Message(DgMessage::Text(None)), now: 0 };
    assert!(matches!(
        state.manage_conversation("AC1", CallStage::Listening, garbled),
        CallStep::Done(Err(AppError("deserialization error")))
    ));
    let (_, stage) =
        call_act(state.manage_conversation("AC1", CallStage::Listening, dg(heard("x"), 0)));
    let lost = CallEvent::Performed { delivered: false, now: 0 };
    assert!(matches!(
        state.manage_conversation("AC1", stage, lost),
        CallStep::Done(Err(AppError("Failed to send transcript to turn manager.")))
    ));
}

#[test]
fn rows_are_plain_values() {
    let caller = Caller {
        id: 1,
        phone: "+1".to_string(),
        city: None,
        state: None,
        country: None,
        zip: None,
    };
    let call = Call {
        id: 2,
        caller: caller.id,
        twilio_call_sid: "CA1".to_string(),
        twilio_stream_sid: "MZ1".to_string(),
        dg_request_id: Uuid::from_u128(7),
        created: 0,
    };
    let turn = Turn {
        id: 3,
        call: call.id,
        call_idx: 0,
        caller_side: "a".to_string(),
        bot_side: "b".to_string(),
        topic: Some("t".to_string()),
        summary: None,
    };
    assert_eq!((call.caller, turn.call), (1, 2));
    let choice = OpenAIChoice {
        message: OpenAIMessage { role: "assistant".to_string(), content: "Hi.".to_string() },
        finish_reason: None,
        index: 0,
    };
    assert_eq!(choice.message.content, "Hi.");
}
