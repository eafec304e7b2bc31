//! How what either side says is collected and what is played, said of the calls themselves.

use vstd::prelude::*;
use vstd::utf8::{decode_utf8, valid_utf8};

use crate::b64::{b64_encoded, law_b64_round_trip};
use crate::bot_side::{
    answer_text, clause_end, completes_clause, deltas, ends_clause, extend_bot_side,
    is_clause_ending, lemma_clause_end_fits, to_delta_text, understood, BotSideAction,
    BotSideEvent, BotSideManager,
};
use crate::caller_side::{caller_side_manager, extend_caller_side, CallerSideStep};
use crate::consts::ASCII_CLAUSE_ENDINGS;
use crate::conversation_laws::{speaks, words};
use crate::error::AppError;
use crate::event_stream::{
    chunk_events, data_events, data_payloads, lemma_filter_map_add,
    lemma_first_line, lemma_line_end, lines, strip_cr, texts, to_data_payload,
};
use crate::openai_types::{OpenAIMessage, OpenAIPayload, OpenAIStreamResponse, StreamDelta};
use crate::outbound::{
    send_twilio_media_messages_until_aborted, send_twilio_ws_messages,
    try_send_twilio_media_messages_until_aborted, MediaAction, MediaEvent, WsAction, WsEvent,
};
use crate::texttospeech_v1_types::AudioConfigAudioEncoding;
use crate::twilio_types::TwilioOutbound;
use crate::types::{ConversationSignal, ConversationTurn};

verus! {

/// The texts of two lists of strings, one after the other, are those of a third.
pub open spec fn joins(a: Seq<String>, b: Seq<String>, all: Seq<String>) -> bool {
    &&& all.len() == a.len() + b.len()
    &&& forall|i: int| 0 <= i < a.len() ==> (#[trigger] all[i])@ == a[i]@
    &&& forall|i: int| 0 <= i < b.len() ==> all[a.len() + i]@ == (#[trigger] b[i])@
}

proof fn lemma_joins(a: Seq<String>, b: Seq<String>, all: Seq<String>)
    requires
        texts(all) == texts(a) + texts(b),
    ensures
        joins(a, b, all),
{
    assert(texts(all).len() == all.len() && texts(a).len() == a.len() && texts(b).len() == b.len());
    assert forall|i: int| 0 <= i < a.len() implies (#[trigger] all[i])@ == a[i]@ by {
        assert(texts(all)[i] == texts(a)[i]);
    }
    assert forall|i: int| 0 <= i < b.len() implies all[a.len() + i]@ == (#[trigger] b[i])@ by {
        assert(texts(all)[a.len() + i] == texts(b)[i]);
    }
}

/// Without text there are no events.
pub proof fn law_no_text_has_no_events(text: &str, events: Vec<String>)
    requires
        text@.len() == 0,
        call_ensures(data_events, (text,), events),
    ensures
        events@.len() == 0,
{
    assert(text@ =~= seq![]);
    assert(lines(text@) =~= seq![]);
    assert(data_payloads(text@) =~= seq![]);
    assert(texts(events@).len() == events@.len());
}

/// An event is all that follows `data: ` on its line, up to the line feed or the carriage return in
/// front of it. It comes before the events of the lines that follow, which are what they would be
/// without it.
pub proof fn law_line_with_data_is_an_event(
    payload: Seq<char>,
    cr: bool,
    rest: &str,
    text: &str,
    of_rest: Vec<String>,
    events: Vec<String>,
)
    requires
        forall|i: int| 0 <= i < payload.len() ==> payload[i] != '\n',
        !cr ==> payload.len() == 0 || payload.last() != '\r',
        text@ == seq!['d', 'a', 't', 'a', ':', ' '] + payload + (if cr {
            seq!['\r', '\n']
        } else {
            seq!['\n']
        }) + rest@,
        call_ensures(data_events, (rest,), of_rest),
        call_ensures(data_events, (text,), events),
    ensures
        events@.len() == of_rest@.len() + 1,
        events@[0]@ == payload,
        forall|i: int| 0 <= i < of_rest@.len() ==> events@[i + 1]@ == (#[trigger] of_rest@[i])@,
{
    reveal_strlit("data: ");
    let line = seq!['d', 'a', 't', 'a', ':', ' '] + payload;
    let whole = if cr {
        line.push('\r')
    } else {
        line
    };
    assert(text@ =~= whole + seq!['\n'] + rest@);
    lemma_first_line(whole, rest@);
    assert(strip_cr(whole) =~= line) by {
        if cr {
            assert(whole.drop_last() =~= line);
        } else if payload.len() > 0 {
            assert(line.last() == payload.last());
        }
    }
    assert("data: "@ =~= line.take(6));
    assert(line.skip(6) =~= payload);
    lemma_filter_map_add(seq![line], lines(rest@), to_data_payload());
    assert(seq![line].drop_last() =~= Seq::<Seq<char>>::empty());
    reveal_with_fuel(Seq::filter_map, 2);
    assert(seq![line].filter_map(to_data_payload()) =~= seq![payload]);
    let all = texts(events@);
    assert(all =~= seq![payload] + texts(of_rest@));
    assert(all.len() == events@.len() && texts(of_rest@).len() == of_rest@.len());
    assert(all[0] == events@[0]@);
    assert forall|i: int| 0 <= i < of_rest@.len() implies events@[i + 1]@ == (
    #[trigger] of_rest@[i])@ by {
        assert(all[i + 1] == texts(of_rest@)[i]);
        assert(all[i + 1] == events@[i + 1]@);
    }
}

/// A line that does not begin with `data: ` is no event, and does not touch the others.
pub proof fn law_other_lines_are_no_events(
    line: Seq<char>,
    rest: &str,
    text: &str,
    of_rest: Vec<String>,
    events: Vec<String>,
)
    requires
        forall|i: int| 0 <= i < line.len() ==> line[i] != '\n',
        line.len() < 6 || line.take(6) != seq!['d', 'a', 't', 'a', ':', ' '],
        text@ == line + seq!['\n'] + rest@,
        call_ensures(data_events, (rest,), of_rest),
        call_ensures(data_events, (text,), events),
    ensures
        joins(seq![], of_rest@, events@),
{
    reveal_strlit("data: ");
    lemma_first_line(line, rest@);
    let bare = strip_cr(line);
    assert(!"data: "@.is_prefix_of(bare)) by {
        if "data: "@.is_prefix_of(bare) {
            assert(line.take(6) =~= bare.take(6));
            assert("data: "@ =~= seq!['d', 'a', 't', 'a', ':', ' ']);
        }
    }
    lemma_filter_map_add(seq![bare], lines(rest@), to_data_payload());
    assert(seq![bare].drop_last() =~= Seq::<Seq<char>>::empty());
    reveal_with_fuel(Seq::filter_map, 2);
    assert(seq![bare].filter_map(to_data_payload()) =~= seq![]);
    assert(texts(events@) =~= texts(Seq::<String>::empty()) + texts(of_rest@));
    lemma_joins(seq![], of_rest@, events@);
}

/// A last line may go without a line feed; nothing is then cut off its end.
pub proof fn law_last_line_may_be_open(line: Seq<char>, text: &str, events: Vec<String>)
    requires
        line.len() > 0,
        forall|i: int| 0 <= i < line.len() ==> line[i] != '\n',
        text@ == line,
        call_ensures(data_events, (text,), events),
    ensures
        line.len() >= 6 && line.take(6) == seq!['d', 'a', 't', 'a', ':', ' '] ==> events@.len() == 1
            && events@[0]@ == line.skip(6),
        line.len() < 6 || line.take(6) != seq!['d', 'a', 't', 'a', ':', ' '] ==> events@.len() == 0,
{
    reveal_strlit("data: ");
    assert("data: "@ =~= seq!['d', 'a', 't', 'a', ':', ' ']);
    lemma_line_end(line, line.len() as int);
    assert(lines(line) =~= seq![line]);
    assert(seq![line].drop_last() =~= Seq::<Seq<char>>::empty());
    reveal_with_fuel(Seq::filter_map, 2);
    let all = texts(events@);
    assert(all.len() == events@.len());
    if line.len() >= 6 && line.take(6) == seq!['d', 'a', 't', 'a', ':', ' '] {
        assert("data: "@.is_prefix_of(line));
        assert(all =~= seq![line.skip(6)]);
        assert(all[0] == events@[0]@);
    } else {
        assert(!"data: "@.is_prefix_of(line)) by {
            if "data: "@.is_prefix_of(line) {
                assert(line.take(6) =~= "data: "@);
            }
        }
        assert(all =~= seq![]);
    }
}

/// A chunk has the events of the text that it encodes, and none where it encodes no text.
pub proof fn law_chunk_has_the_events_of_its_text(
    chunk: Vec<u8>,
    text: &str,
    of_text: Vec<String>,
    events: Option<Vec<String>>,
)
    requires
        call_ensures(chunk_events, (chunk,), events),
        valid_utf8(chunk@) ==> text@ == decode_utf8(chunk@) && call_ensures(
            data_events,
            (text,),
            of_text,
        ),
    ensures
        events is Some <==> valid_utf8(chunk@),
        events matches Some(e) ==> joins(of_text@, seq![], e@),
{
    if events is Some {
        assert(texts(events->0@) =~= texts(of_text@) + texts(Seq::<String>::empty()));
        lemma_joins(of_text@, seq![], events->0@);
    }
}

/// A clause ends with a full stop, a question mark, an exclamation mark or a semicolon that comes
/// by itself.
pub open spec fn is_clause_mark(text: Seq<char>) -> bool {
    text == seq!['.'] || text == seq!['?'] || text == seq!['!'] || text == seq![';']
}

/// Nothing else ends a clause.
pub proof fn law_only_marks_end_clauses(text: &String, yes: bool)
    requires
        call_ensures(ends_clause, (text,), yes),
    ensures
        yes <==> is_clause_mark(text@),
{
    lemma_clause_marks(text@);
}

proof fn lemma_clause_marks(text: Seq<char>)
    ensures
        is_clause_ending(text) <==> is_clause_mark(text),
{
    reveal_strlit(".");
    reveal_strlit("?");
    reveal_strlit("!");
    reveal_strlit(";");
    let e = ASCII_CLAUSE_ENDINGS@;
    assert(e.len() == 4);
    assert(e[0]@ =~= seq!['.'] && e[1]@ =~= seq!['?'] && e[2]@ =~= seq!['!'] && e[3]@ =~= seq![
        ';',
    ]);
}

/// What is received of an answer goes to the bot's side of the turn as it is, behind what is there.
pub proof fn law_bot_side_is_extended(turn: &mut ConversationTurn, chunk: &str, done: ())
    requires
        call_ensures(extend_bot_side, (turn, chunk), done),
    ensures
        final(turn).bot_side@ == old(turn).bot_side@ + chunk@,
        final(turn).caller_side == old(turn).caller_side,
{
}

/// An answer is asked for with the conversation as it is, to be streamed.
pub proof fn law_answer_is_asked_for(
    conversation: Vec<OpenAIMessage>,
    manager: BotSideManager,
    payload: OpenAIPayload,
)
    requires
        call_ensures(BotSideManager::new, (conversation,), (manager, payload)),
    ensures
        manager.chat_buffer@.len() == 0,
        manager.responses@.len() == 0,
        manager.handled == 0,
        payload.model@ == "gpt-3.5-turbo"@,
        payload.messages == conversation,
        payload.stream == Some(true),
        payload.max_tokens is None,
{
}

/// What comes of sending the request, of reading, and of a full channel: the request's success and
/// the end of the answer are good, all else is an error with its own message; and none of it
/// touches the manager or the turn.
pub proof fn law_answer_may_fail(
    manager: &mut BotSideManager,
    turn: &mut ConversationTurn,
    event: BotSideEvent,
    action: BotSideAction,
)
    requires
        call_ensures(BotSideManager::bot_side_manager, (manager, turn, event), action),
        event is Requested || event is ChunkFailed || event is EndOfAnswer || event is SpeechBlocked,
    ensures
        *final(manager) == *old(manager),
        *final(turn) == *old(turn),
        event == BotSideEvent::Requested(true) ==> action == BotSideAction::ReadChunk,
        event == BotSideEvent::Requested(false) ==> action == BotSideAction::Done(
            Err(AppError("Failed to send request to OpenAI")),
        ),
        event is ChunkFailed ==> action == BotSideAction::Done(
            Err(AppError("Error getting bytes chunk from OpenAI response stream")),
        ),
        event is EndOfAnswer ==> action == BotSideAction::Done(Ok(())),
        event is SpeechBlocked ==> action == BotSideAction::Done(
            Err(AppError("Error sending tts payload through channel")),
        ),
{
}

/// The events of a chunk are decoded, as `chunk_events` finds them; a chunk that is no text ends the
/// answer. Neither touches the manager or the turn.
pub proof fn law_chunk_is_decoded(
    manager: &mut BotSideManager,
    turn: &mut ConversationTurn,
    chunk: Vec<u8>,
    action: BotSideAction,
    events: Option<Vec<String>>,
)
    requires
        call_ensures(
            BotSideManager::bot_side_manager,
            (manager, turn, BotSideEvent::Chunk(chunk)),
            action,
        ),
        call_ensures(chunk_events, (chunk,), events),
    ensures
        *final(manager) == *old(manager),
        *final(turn) == *old(turn),
        events is None ==> action == BotSideAction::Done(
            Err(AppError("Error deserializing OpenAI streamed choice")),
        ),
        events matches Some(e) ==> action matches BotSideAction::Decode(payloads) && joins(
            e@,
            seq![],
            payloads@,
        ),
{
    if events is Some {
        let payloads = action->Decode_0;
        assert(texts(payloads@) =~= texts(events->0@) + texts(Seq::<String>::empty()));
        lemma_joins(events->0@, seq![], payloads@);
    }
}

/// The contents of the events `from` up to but not including `to`, one after the other: of each the
/// content of its first choice, as it is, and nothing where that has none.
pub open spec fn contents(events: Seq<OpenAIStreamResponse>, from: int, to: int) -> Seq<char>
    decreases to - from,
{
    if to <= from {
        seq![]
    } else {
        contents(events, from, to - 1) + match events[to - 1].choices@[0].delta {
            StreamDelta::Content { content } => content@,
            StreamDelta::Role { .. } => seq![],
            StreamDelta::Empty {  } => seq![],
        }
    }
}

/// An event at which the answer so far is spoken: a mark that ends a clause, or the end.
pub open spec fn is_pause(event: OpenAIStreamResponse) -> bool {
    match event.choices@[0].delta {
        StreamDelta::Content { content } => is_clause_mark(content@),
        StreamDelta::Role { .. } => false,
        StreamDelta::Empty {  } => true,
    }
}

/// `kept` are the events of `decoded` that could be decoded, in order.
pub open spec fn keeps(
    decoded: Seq<Option<OpenAIStreamResponse>>,
    kept: Seq<OpenAIStreamResponse>,
) -> bool
    decreases decoded.len(),
{
    if decoded.len() == 0 {
        kept.len() == 0
    } else {
        match decoded.last() {
            Some(event) => kept.len() > 0 && kept.last() == event && keeps(
                decoded.drop_last(),
                kept.drop_last(),
            ),
            None => keeps(decoded.drop_last(), kept),
        }
    }
}

proof fn lemma_keeps(decoded: Seq<Option<OpenAIStreamResponse>>)
    ensures
        keeps(decoded, understood(decoded)),
    decreases decoded.len(),
{
    reveal(Seq::filter_map);
    if decoded.len() > 0 {
        lemma_keeps(decoded.drop_last());
        if decoded.last() is Some {
            assert(understood(decoded) =~= understood(decoded.drop_last()).push(decoded.last()->0));
            assert(understood(decoded).drop_last() =~= understood(decoded.drop_last()));
        }
    }
}

/// What events add to an answer is their contents, one after the other: nothing is left out of any
/// content, however long, and nothing comes in between.
pub proof fn law_answer_is_its_contents(events: Seq<OpenAIStreamResponse>, from: int, to: int)
    requires
        0 <= from <= to <= events.len(),
    ensures
        contents(events, from, to) == answer_text(deltas(events).skip(from).take(to - from)),
    decreases to - from,
{
    let all = deltas(events).skip(from);
    if to == from {
        assert(all.take(0) =~= seq![]);
        assert(answer_text(all.take(0)) =~= seq![]);
    } else {
        law_answer_is_its_contents(events, from, to - 1);
        let delta = events[to - 1].choices@[0].delta;
        assert(all[to - 1 - from] == delta);
        all.take(to - 1 - from).lemma_flat_map_push(to_delta_text(), delta);
        assert(all.take(to - from) =~= all.take(to - 1 - from).push(delta));
        assert(contents(events, from, to) =~= answer_text(all.take(to - from)));
    }
}

/// Whether new events came, or what was said has been spoken or was to be: the events are taken in
/// one after the other, from where the manager stands up to the first at which there is a pause.
/// Their contents go, word for word and all of them, to the bot's side of the turn and behind what
/// waits to be spoken. At the pause all that waits is spoken and nothing waits any more; without a
/// pause it goes on waiting, and more is read.
pub proof fn law_answer_is_taken_in_word_for_word(
    manager: &mut BotSideManager,
    turn: &mut ConversationTurn,
    event: BotSideEvent,
    action: BotSideAction,
)
    requires
        old(manager).handled <= old(manager).responses@.len(),
        event is Decoded || event is Spoken || event is SpeechUnheard,
        call_ensures(BotSideManager::bot_side_manager, (manager, turn, event), action),
    ensures
        ({
            let events = final(manager).responses@;
            let from: int = if event is Decoded {
                0
            } else {
                old(manager).handled as int
            };
            let to = final(manager).handled as int;
            let received = contents(events, from, to);
            let waits = old(manager).chat_buffer@ + received;
            &&& event matches BotSideEvent::Decoded(decoded) ==> keeps(decoded@, events)
            &&& !(event is Decoded) ==> events == old(manager).responses@
            &&& from <= to <= events.len()
            &&& final(turn).bot_side@ == old(turn).bot_side@ + received
            &&& final(turn).caller_side == old(turn).caller_side
            &&& forall|i: int| from <= i < to - 1 ==> !is_pause(#[trigger] events[i])
            &&& if to > from && is_pause(events[to - 1]) {
                &&& action matches BotSideAction::Speak(request)
                &&& speaks(request, waits, AudioConfigAudioEncoding::MULAW)
                &&& final(manager).chat_buffer@.len() == 0
            } else {
                &&& action == BotSideAction::ReadChunk
                &&& to == events.len()
                &&& final(manager).chat_buffer@ == waits
            }
        }),
{
    let events = final(manager).responses@;
    let from: int = if event is Decoded {
        0
    } else {
        old(manager).handled as int
    };
    let to = final(manager).handled as int;
    if event is Decoded {
        lemma_keeps(event->Decoded_0@);
    }
    let todo = deltas(events).skip(from);
    assert(todo.len() == events.len() - from);
    lemma_clause_end_fits(todo);
    law_answer_is_its_contents(events, from, to);
    assert forall|i: int| from <= i < events.len() implies is_pause(#[trigger] events[i])
        == completes_clause(todo[i - from]) by {
        assert(todo[i - from] == events[i].choices@[0].delta);
        if events[i].choices@[0].delta is Content {
            lemma_clause_marks(events[i].choices@[0].delta->content@);
        }
    }
    let end = clause_end(todo) as int;
    assert forall|i: int| from <= i < to - 1 implies !is_pause(#[trigger] events[i]) by {
        assert(!completes_clause(todo[i - from]));
    }
    if end < todo.len() {
        assert(completes_clause(todo[end]));
        assert(to == from + end + 1);
    } else {
        assert(to == events.len());
        if to > from {
            assert(!completes_clause(todo[to - 1 - from]));
        }
    }
}

/// The words of the caller that Deepgram has settled are added to the caller's side of the turn as
/// they are, with a space in front where something is there; provisional words and the order to stop
/// add nothing. The manager ends with that order, or when there are no more signals.
pub proof fn law_settled_words_are_added(
    turn: &mut ConversationTurn,
    signal: Option<ConversationSignal>,
    step: CallerSideStep,
)
    requires
        call_ensures(caller_side_manager, (turn, signal), step),
    ensures
        final(turn).bot_side == old(turn).bot_side,
        final(turn).caller_side@ == match signal {
            Some(ConversationSignal::StreamingResponse(said)) => if !said.is_final {
                old(turn).caller_side@
            } else if old(turn).caller_side@.len() == 0 {
                words(said)
            } else {
                old(turn).caller_side@ + seq![' '] + words(said)
            },
            _ => old(turn).caller_side@,
        },
        step == if signal is None || signal->0 is Go {
            CallerSideStep::Done(Ok(()))
        } else {
            CallerSideStep::Wait
        },
{
    reveal_strlit(" ");
    assert(" "@ =~= seq![' ']);
}

/// The same of a piece that is added by itself.
pub proof fn law_caller_side_is_extended(turn: &mut ConversationTurn, chunk: &str, done: ())
    requires
        call_ensures(extend_caller_side, (turn, chunk), done),
    ensures
        final(turn).bot_side == old(turn).bot_side,
        final(turn).caller_side@ == if old(turn).caller_side@.len() == 0 {
            chunk@
        } else {
            old(turn).caller_side@ + seq![' '] + chunk@
        },
{
    reveal_strlit(" ");
    assert(" "@ =~= seq![' ']);
}

/// Every message for Twilio is serialized and sent, as it is, before the next is looked at.
pub proof fn law_messages_are_sent_as_they_are(event: WsEvent, action: WsAction)
    requires
        call_ensures(send_twilio_ws_messages, (event,), action),
    ensures
        event matches WsEvent::Received(Some(message)) ==> action == WsAction::Serialize(message),
        event matches WsEvent::Serialized(Some(json)) ==> action == WsAction::Send(json),
        event == WsEvent::Sent(true) ==> action == WsAction::Receive,
        event == WsEvent::Received(None) ==> action == WsAction::Done(Ok(())),
        event == WsEvent::Serialized(None) ==> action == WsAction::Done(
            Err(AppError("Twilio message serialization error")),
        ),
        event == WsEvent::Sent(false) ==> action == WsAction::Done(
            Err(AppError("Failed to send message to Twilio")),
        ),
{
}

/// Audio from Google is played from byte 58 on, all of it, on the given stream; and what is handed
/// on makes room for the next.
pub proof fn law_audio_is_played_behind_its_header(
    audio: Seq<u8>,
    tts: String,
    stream_id: &str,
    action: MediaAction,
)
    requires
        tts@ == b64_encoded(audio),
        call_ensures(
            send_twilio_media_messages_until_aborted,
            (MediaEvent::Received(Some(tts)), stream_id),
            action,
        ),
    ensures
        action matches MediaAction::Send(TwilioOutbound::Media { media, stream_sid })
            && media.payload@ == b64_encoded(audio.skip(58)) && stream_sid@ == stream_id@,
{
    law_b64_round_trip(audio);
}

/// The same where it is not known whether there is a header.
pub proof fn law_audio_is_played_where_it_has_a_header(
    audio: Seq<u8>,
    tts: String,
    stream_id: &str,
    tried: Option<MediaAction>,
)
    requires
        tts@ == b64_encoded(audio),
        call_ensures(
            try_send_twilio_media_messages_until_aborted,
            (MediaEvent::Received(Some(tts)), stream_id),
            tried,
        ),
    ensures
        tried is Some <==> audio.len() >= 58,
        tried matches Some(action) ==> action matches MediaAction::Send(
            TwilioOutbound::Media { media, stream_sid },
        ) && media.payload@ == b64_encoded(audio.skip(58)) && stream_sid@ == stream_id@,
{
    law_b64_round_trip(audio);
}

/// When there is no more audio the playing ends well, and when a message could not be handed on it
/// ends with an error.
pub proof fn law_playing_goes_on_and_ends(event: MediaEvent, stream_id: &str, action: MediaAction)
    requires
        !(event matches MediaEvent::Received(Some(_))),
        call_ensures(send_twilio_media_messages_until_aborted, (event, stream_id), action)
            || call_ensures(
            try_send_twilio_media_messages_until_aborted,
            (event, stream_id),
            Some(action),
        ),
    ensures
        event == MediaEvent::Sent(true) ==> action == MediaAction::Receive,
        event == MediaEvent::Sent(false) ==> action == MediaAction::Done(
            Err(AppError("Error sending twilio outbound through channel")),
        ),
        event == MediaEvent::Received(None) ==> action == MediaAction::Done(Ok(())),
{
}

} // verus!
