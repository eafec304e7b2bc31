//! What the bot does about each message of Deepgram, said of the calls themselves: whatever a call
//! of a function gives back, this holds of it.

use vstd::prelude::*;

use crate::b64::{b64_encoded, law_b64_round_trip};
use crate::conversation_state::{
    elapsed_millis, said_meanwhile, to_turn_messages, turn_messages, turns_view, Action, CallTask,
    ConversationState, DgMessage, Stage, Step,
};
use crate::deepgram_types::{StreamMessage, StreamingResponse};
use crate::error::AppError;
use crate::handlers::play_request;
use crate::openai_types::{chat_view, OpenAIMessage};
use crate::texttospeech_v1_types::{
    AudioConfigAudioEncoding, SynthesizeSpeechRequest, VoiceSelectionParamsSsmlGender,
};
use crate::twilio_types::{TwilioConnectPayload, TwilioOutbound};
use crate::types::{
    speech_request, AppState, ConversationSignal, ConversationTurn, CurrentBotAction,
};

verus! {

/// Deepgram's message that the caller said `said`.
pub open spec fn hears(said: StreamingResponse) -> DgMessage {
    DgMessage::Text(Some(StreamMessage::StreamingResponse(said)))
}

/// The words of the likeliest reading.
pub open spec fn words(said: StreamingResponse) -> Seq<char> {
    said.channel.alternatives@[0].transcript@
}

/// Milliseconds are whole ones: as many as fit between the two times, and none where the clock
/// went backwards.
pub proof fn law_milliseconds_fit(last: u128, now: u128, millis: u128)
    requires
        call_ensures(elapsed_millis, (last, now), millis),
    ensures
        now >= last ==> millis * 1_000_000 <= now - last < (millis + 1) * 1_000_000,
        now < last ==> millis == 0,
{
}

/// While the bot listens every word that the caller says, final or not, is noted with its time and
/// relayed as it is to the current turn; nothing else changes.
pub proof fn law_speech_is_timed_and_relayed(
    state: &mut ConversationState,
    said: StreamingResponse,
    now: u128,
    step: Step,
)
    requires
        old(state).current_bot_action is Listening,
        words(said).len() > 0,
        call_ensures(ConversationState::handle_dg_message, (state, hears(said), now), step),
    ensures
        *final(state) == (ConversationState { last_talking: now, ..*old(state) }),
        step == Step::Act(
            Action::SignalTurn(ConversationSignal::StreamingResponse(said)),
            Stage::Relaying,
        ),
{
}

/// Silence is nothing to act on while the bot talks, nor before one and a half seconds have passed
/// since the caller was last heard.
pub proof fn law_short_silence_is_passed_over(
    state: &mut ConversationState,
    said: StreamingResponse,
    now: u128,
    step: Step,
)
    requires
        words(said).len() == 0,
        old(state).current_bot_action is Talking || now < old(state).last_talking + 1_500_000_000,
        call_ensures(ConversationState::handle_dg_message, (state, hears(said), now), step),
    ensures
        *final(state) == *old(state),
        step == Step::Done(Ok(())),
{
}

/// From one and a half seconds on the bot acknowledges a silent caller.
pub proof fn law_long_silence_is_acknowledged(
    state: &mut ConversationState,
    said: StreamingResponse,
    now: u128,
    step: Step,
)
    requires
        words(said).len() == 0,
        old(state).current_bot_action is Listening,
        now >= old(state).last_talking + 1_500_000_000,
        call_ensures(ConversationState::handle_dg_message, (state, hears(said), now), step),
    ensures
        *final(state) == *old(state),
        step == Step::Act(Action::SendOutbound(old(state).pause_msg), Stage::Acknowledging),
{
}

/// A caller who was heard at `spoke`, be it provisionally, is not taken to have finished before one
/// and a half seconds later: silence until then changes nothing, and silence after that is
/// acknowledged.
pub proof fn law_silence_is_counted_from_the_last_word(
    hearing: &mut ConversationState,
    said: StreamingResponse,
    spoke: u128,
    relay: Step,
    relayed: &mut ConversationState,
    delivered: bool,
    between: u128,
    done: Step,
    waiting: &mut ConversationState,
    silence: StreamingResponse,
    now: u128,
    step: Step,
)
    requires
        old(hearing).current_bot_action is Listening,
        words(said).len() > 0,
        words(silence).len() == 0,
        call_ensures(ConversationState::handle_dg_message, (hearing, hears(said), spoke), relay),
        said_meanwhile(*final(hearing), *old(relayed)),
        call_ensures(
            ConversationState::resume,
            (relayed, Stage::Relaying, delivered, between),
            done,
        ),
        said_meanwhile(*final(relayed), *old(waiting)),
        call_ensures(ConversationState::handle_dg_message, (waiting, hears(silence), now), step),
    ensures
        *final(waiting) == *old(waiting),
        step == if now < spoke + 1_500_000_000 {
            Step::Done(Ok(()))
        } else {
            Step::Act(Action::SendOutbound(old(hearing).pause_msg), Stage::Acknowledging)
        },
{
}

/// A caller who speaks while an answer is played makes the bot tell Twilio to drop the rest of it,
/// on the stream of the call.
pub proof fn law_cut_in_clears_the_stream(
    state: &mut ConversationState,
    said: StreamingResponse,
    now: u128,
    step: Step,
)
    requires
        old(state).current_bot_action is Talking,
        old(state).current_twilio_media_message_stream,
        words(said).len() > 0,
        call_ensures(ConversationState::handle_dg_message, (state, hears(said), now), step),
    ensures
        *final(state) == *old(state),
        step == Step::Act(
            Action::SendOutbound(TwilioOutbound::Clear { stream_sid: old(state).twilio_stream_id }),
            Stage::Clearing(said),
        ),
{
}

/// A caller who speaks when no answer is played, though the bot does not listen, is noted with the
/// time, and what was said opens a turn.
pub proof fn law_speech_opens_a_turn(
    state: &mut ConversationState,
    said: StreamingResponse,
    now: u128,
    step: Step,
)
    requires
        old(state).current_bot_action is Talking,
        !old(state).current_twilio_media_message_stream,
        words(said).len() > 0,
        call_ensures(ConversationState::handle_dg_message, (state, hears(said), now), step),
    ensures
        *final(state) == (ConversationState { last_talking: now, ..*old(state) }),
        step == Step::Act(
            Action::OpenTurn {
                abort_media: false,
                first: ConversationSignal::StreamingResponse(said),
            },
            Stage::Opening,
        ),
{
}

/// What Deepgram says of its request at the end is taken over, in place of anything it said before;
/// what cannot be decoded ends the handling, and frames without text do not matter.
pub proof fn law_messages_without_a_transcript(
    state: &mut ConversationState,
    msg: DgMessage,
    now: u128,
    step: Step,
)
    requires
        !(msg matches DgMessage::Text(Some(StreamMessage::StreamingResponse(_)))),
        call_ensures(ConversationState::handle_dg_message, (state, msg, now), step),
    ensures
        msg matches DgMessage::Text(Some(StreamMessage::StreamingMeta(meta))) ==> {
            &&& *final(state) == (ConversationState {
                dg_request_id: Some(meta.request_id),
                ..*old(state)
            })
            &&& step == Step::Done(Ok(()))
        },
        msg matches DgMessage::Text(None) ==> *final(state) == *old(state) && step == Step::Done(
            Err(AppError("deserialization error")),
        ),
        msg is Other ==> *final(state) == *old(state) && step == Step::Done(Ok(())),
{
}

/// What could not be delivered leaves the state alone, and says what it was: a message to Twilio,
/// the order to stop, or a transcript.
pub proof fn law_undelivered_is_reported(
    state: &mut ConversationState,
    stage: Stage,
    now: u128,
    step: Step,
)
    requires
        call_ensures(ConversationState::resume, (state, stage, false, now), step),
    ensures
        *final(state) == *old(state),
        stage is Acknowledging || stage is Clearing ==> step == Step::Done(
            Err(AppError("Error sending twilio outbound message")),
        ),
        stage is Going ==> step == Step::Done(
            Err(AppError("Failed to stop message to turn manager.")),
        ),
        stage is Relaying || stage is Opening ==> step == Step::Done(
            Err(AppError("Failed to send transcript to turn manager.")),
        ),
{
}

/// An acknowledged caller's turn is told to stop; a relayed transcript needs nothing more; and when
/// Twilio was told to drop what it plays, the playing is stopped and what the caller said opens a
/// turn, at the time it is then.
pub proof fn law_delivered_leads_on(
    state: &mut ConversationState,
    stage: Stage,
    now: u128,
    step: Step,
)
    requires
        call_ensures(ConversationState::resume, (state, stage, true, now), step),
    ensures
        stage is Acknowledging ==> *final(state) == *old(state) && step == Step::Act(
            Action::SignalTurn(ConversationSignal::Go),
            Stage::Going,
        ),
        stage is Relaying ==> *final(state) == *old(state) && step == Step::Done(Ok(())),
        stage matches Stage::Clearing(said) ==> {
            &&& *final(state) == (ConversationState {
                current_twilio_media_message_stream: false,
                last_talking: now,
                ..*old(state)
            })
            &&& step == Step::Act(
                Action::OpenTurn {
                    abort_media: true,
                    first: ConversationSignal::StreamingResponse(said),
                },
                Stage::Opening,
            )
        },
{
}

/// An opened turn is the last of the call and has nothing in it; the turns before are as they were.
/// The bot listens in it, and the task that hears the caller is the last of the tasks.
pub proof fn law_turn_is_opened_at_the_end(state: &mut ConversationState, now: u128, step: Step)
    requires
        call_ensures(ConversationState::resume, (state, Stage::Opening, true, now), step),
    ensures
        ({
            let n = old(state).conversation_turns@.len() as int;
            let turns = final(state).conversation_turns@;
            let tasks = final(state).join_handles@;
            &&& turns.len() == n + 1
            &&& forall|i: int| 0 <= i < n ==> #[trigger] turns[i] == old(state).conversation_turns@[i]
            &&& turns[n].caller_side@.len() == 0
            &&& turns[n].bot_side@.len() == 0
            &&& tasks.len() == old(state).join_handles@.len() + 1
            &&& forall|i: int|
                0 <= i < tasks.len() - 1 ==> #[trigger] tasks[i] == old(state).join_handles@[i]
            &&& tasks.last() == (CallTask::CallerSide { turn: n as usize })
            &&& step == Step::Last(Action::StartCallerSide { turn: n as usize })
            &&& *final(state) == (ConversationState {
                join_handles: final(state).join_handles,
                current_bot_action: CurrentBotAction::Listening,
                conversation_turns: final(state).conversation_turns,
                ..*old(state)
            })
        }),
{
    let n = old(state).conversation_turns@.len() as int;
    let turns = final(state).conversation_turns@;
    assert forall|i: int| 0 <= i < n implies #[trigger] turns[i] == old(
        state,
    ).conversation_turns@[i] by {
        assert(turns.drop_last()[i] == turns[i]);
    }
    assert(turns.last() == turns[n]);
    assert(turns.last()@.caller_side.len() == 0 && turns.last()@.bot_side.len() == 0);
}

/// When the caller's side is told to stop, the last turn is answered: with the conversation as
/// `get_conversation_context` gives it of the same turns, aloud, and by the last of the tasks.
pub proof fn law_last_turn_is_answered(
    state: &mut ConversationState,
    now: u128,
    step: Step,
    same: &ConversationState,
    context: Vec<OpenAIMessage>,
)
    requires
        call_ensures(ConversationState::resume, (state, Stage::Going, true, now), step),
        same.conversation_turns == old(state).conversation_turns,
        call_ensures(ConversationState::get_conversation_context, (same,), context),
    ensures
        ({
            let n = old(state).conversation_turns@.len() as int;
            let tasks = final(state).join_handles@;
            &&& step matches Step::Last(Action::StartBotSide { turn, conversation })
            &&& turn == n - 1
            &&& conversation@.len() == context@.len()
            &&& forall|i: int|
                0 <= i < context@.len() ==> (#[trigger] conversation@[i]).role@ == context@[i].role@
                    && conversation@[i].content@ == context@[i].content@
            &&& tasks.len() == old(state).join_handles@.len() + 1
            &&& forall|i: int|
                0 <= i < tasks.len() - 1 ==> #[trigger] tasks[i] == old(state).join_handles@[i]
            &&& tasks.last() == (CallTask::BotSide { turn: (n - 1) as usize })
            &&& *final(state) == (ConversationState {
                join_handles: final(state).join_handles,
                current_bot_action: CurrentBotAction::Talking,
                current_twilio_media_message_stream: true,
                ..*old(state)
            })
        }),
{
    let conversation = step->Last_0->StartBotSide_conversation;
    lemma_chat_fields(conversation@, context@);
}

proof fn lemma_chat_fields(a: Seq<OpenAIMessage>, b: Seq<OpenAIMessage>)
    requires
        chat_view(a) == chat_view(b),
    ensures
        a.len() == b.len(),
        forall|i: int|
            0 <= i < a.len() ==> (#[trigger] a[i]).role@ == b[i].role@ && a[i].content@
                == b[i].content@,
{
    assert(chat_view(a).len() == a.len() && chat_view(b).len() == b.len());
    assert forall|i: int| 0 <= i < a.len() implies (#[trigger] a[i]).role@ == b[i].role@
        && a[i].content@ == b[i].content@ by {
        assert(chat_view(a)[i] == a[i]@);
        assert(chat_view(b)[i] == b[i]@);
    }
}

/// Before anything was said the context is the instruction to the assistant and nothing else.
pub proof fn law_context_begins_with_the_instruction(
    state: &ConversationState,
    context: Vec<OpenAIMessage>,
)
    requires
        state.conversation_turns@.len() == 0,
        call_ensures(ConversationState::get_conversation_context, (state,), context),
    ensures
        context@.len() == 1,
        context@[0].role@ == "system"@,
        context@[0].content@ == "You are a friendly and helpful assistant."@,
{
    let views = turns_view(state.conversation_turns@);
    assert(views =~= seq![]);
    assert(views.flat_map(to_turn_messages()) =~= seq![]);
    let c = chat_view(context@);
    assert(c.len() == 1);
    assert(c[0] == context@[0]@);
}

/// One more turn leaves the context before it as it is, and adds what the caller said word for
/// word, as the user, and what the bot said word for word, as the assistant; a side that said
/// nothing adds nothing.
pub proof fn law_context_gains_both_sides(
    shorter: &ConversationState,
    turn: ConversationTurn,
    longer: &ConversationState,
    before: Vec<OpenAIMessage>,
    after: Vec<OpenAIMessage>,
)
    requires
        longer.conversation_turns@ == shorter.conversation_turns@.push(turn),
        call_ensures(ConversationState::get_conversation_context, (shorter,), before),
        call_ensures(ConversationState::get_conversation_context, (longer,), after),
    ensures
        ({
            let n = before@.len() as int;
            let u: int = if turn.caller_side@.len() > 0 {
                1
            } else {
                0
            };
            let b: int = if turn.bot_side@.len() > 0 {
                1
            } else {
                0
            };
            &&& after@.len() == n + u + b
            &&& forall|i: int|
                0 <= i < n ==> (#[trigger] after@[i]).role@ == before@[i].role@
                    && after@[i].content@ == before@[i].content@
            &&& u == 1 ==> after@[n].role@ == "user"@ && after@[n].content@ == turn.caller_side@
            &&& b == 1 ==> after@[n + u].role@ == "assistant"@ && after@[n + u].content@
                == turn.bot_side@
        }),
{
    let v = turns_view(shorter.conversation_turns@);
    let w = turns_view(longer.conversation_turns@);
    assert(w =~= v.push(turn@));
    v.lemma_flat_map_push(to_turn_messages(), turn@);
    let c = chat_view(before@);
    let d = chat_view(after@);
    let n = before@.len() as int;
    let added = turn_messages(turn@);
    assert(d =~= c + added);
    assert forall|i: int| 0 <= i < n implies (#[trigger] after@[i]).role@ == before@[i].role@
        && after@[i].content@ == before@[i].content@ by {
        assert(d[i] == c[i]);
        assert(after@[i]@ == before@[i]@);
    }
    assert(forall|i: int| n <= i < after@.len() ==> (#[trigger] after@[i])@ == added[i - n]) by {
        assert forall|i: int| n <= i < after@.len() implies (#[trigger] after@[i])@ == added[i
            - n] by {
            assert(d[i] == after@[i]@);
        }
    }
}

/// A call begins with no turns, no summaries and no answer being played, at the time it is then; the
/// greeting is still being spoken, and one task runs.
pub proof fn law_call_begins(
    twilio_stream_id: String,
    twilio_connect_payload: TwilioConnectPayload,
    pause_msg: TwilioOutbound,
    now: u128,
    state: ConversationState,
)
    requires
        call_ensures(
            ConversationState::with_pause_msg,
            (twilio_stream_id, twilio_connect_payload, pause_msg, now),
            state,
        ),
    ensures
        state.pause_msg == pause_msg,
        state.join_handles@ == seq![CallTask::Outbound],
        state.current_bot_action is Talking,
        state.conversation_turns@.len() == 0,
        state.conversation_summaries is None,
        state.last_talking == now,
        state.twilio_stream_id == twilio_stream_id,
        state.twilio_connect_payload == twilio_connect_payload,
        state.dg_request_id is None,
        !state.current_twilio_media_message_stream,
{
}

/// `request` has Google speak `text`, in the voice of the bot and at the rate of a phone line.
pub open spec fn speaks(
    request: SynthesizeSpeechRequest,
    text: Seq<char>,
    encoding: AudioConfigAudioEncoding,
) -> bool {
    &&& request.audio_config is Some
    &&& request.audio_config->0.audio_encoding == Some(encoding)
    &&& request.audio_config->0.sample_rate_hertz == Some(8_000i32)
    &&& request.input is Some
    &&& request.input->0.text is Some
    &&& request.input->0.text->0@ == text
    &&& request.voice is Some
    &&& request.voice->0.language_code is Some
    &&& request.voice->0.language_code->0@ == "en-US"@
    &&& request.voice->0.name is Some
    &&& request.voice->0.name->0@ == "en-US-Standard-E"@
    &&& request.voice->0.ssml_gender == Some(VoiceSelectionParamsSsmlGender::FEMALE)
}

/// Google is asked to speak a text as it is given, all of it.
pub proof fn law_text_is_spoken_as_given(
    app_state: &AppState,
    text: &str,
    encoding: AudioConfigAudioEncoding,
    request: SynthesizeSpeechRequest,
)
    requires
        call_ensures(AppState::get_google_tts, (app_state, text, encoding), request)
            || call_ensures(speech_request, (text, encoding), request),
    ensures
        speaks(request, text@, encoding),
{
}

/// The caller is acknowledged with the words "Got it.", and a recording is asked for as MP3.
pub proof fn law_fixed_texts_are_spoken(
    app_state: &AppState,
    pause: SynthesizeSpeechRequest,
    play: SynthesizeSpeechRequest,
)
    requires
        call_ensures(ConversationState::pause_request, (app_state,), pause),
        call_ensures(play_request, (app_state,), play),
    ensures
        speaks(pause, "Got it."@, AudioConfigAudioEncoding::MULAW),
        speaks(
            play,
            "Hello. You are hearing this\n    from a Twilio Play verb. These bytes are\n    MP3 encoded."@,
            AudioConfigAudioEncoding::MP3,
        ),
{
}

/// In a new call the caller is acknowledged with exactly the audio behind the first 58 bytes of what
/// Google made, on the stream of the call; without that many bytes a call does not begin.
pub proof fn law_call_acknowledges_with_googles_audio(
    twilio_stream_id: String,
    twilio_connect_payload: TwilioConnectPayload,
    audio: Seq<u8>,
    pause_tts: String,
    now: u128,
    tried: Option<ConversationState>,
)
    requires
        pause_tts@ == b64_encoded(audio),
        call_ensures(
            ConversationState::try_new,
            (twilio_stream_id, twilio_connect_payload, pause_tts, now),
            tried,
        ),
    ensures
        tried is Some <==> audio.len() >= 58,
        tried matches Some(state) ==> {
            &&& state.pause_msg matches TwilioOutbound::Media { media, stream_sid }
            &&& media.payload@ == b64_encoded(audio.skip(58))
            &&& stream_sid@ == twilio_stream_id@
            &&& state.current_bot_action is Talking
            &&& state.conversation_turns@.len() == 0
            &&& state.conversation_summaries is None
            &&& state.join_handles@ == seq![CallTask::Outbound]
            &&& state.last_talking == now
            &&& state.twilio_stream_id == twilio_stream_id
            &&& state.twilio_connect_payload == twilio_connect_payload
            &&& state.dg_request_id is None
            &&& !state.current_twilio_media_message_stream
        },
{
    law_b64_round_trip(audio);
}

/// The same where the audio is known to be there.
pub proof fn law_new_call_acknowledges_with_googles_audio(
    twilio_stream_id: String,
    twilio_connect_payload: TwilioConnectPayload,
    audio: Seq<u8>,
    pause_tts: String,
    now: u128,
    state: ConversationState,
)
    requires
        pause_tts@ == b64_encoded(audio),
        call_ensures(
            ConversationState::new,
            (twilio_stream_id, twilio_connect_payload, pause_tts, now),
            state,
        ),
    ensures
        state.pause_msg matches TwilioOutbound::Media { media, stream_sid } && media.payload@
            == b64_encoded(audio.skip(58)) && stream_sid@ == twilio_stream_id@,
        state.current_bot_action is Talking,
        state.conversation_turns@.len() == 0,
        state.conversation_summaries is None,
        state.join_handles@ == seq![CallTask::Outbound],
        state.last_talking == now,
        state.twilio_stream_id == twilio_stream_id,
        state.twilio_connect_payload == twilio_connect_payload,
        state.dg_request_id is None,
        !state.current_twilio_media_message_stream,
{
    law_b64_round_trip(audio);
}

} // verus!
