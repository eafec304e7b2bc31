//! How a call comes in, how its audio goes out and how it is carried through, said of the calls
//! themselves.

use vstd::prelude::*;

use crate::b64::{b64_encoded, is_b64_text, law_b64_round_trip};
use crate::bot_side::{understood, BotSideEvent, BotSideManager};
use crate::caller_side::caller_side_manager;
use crate::conversation_state::{handles, resumes, ConversationState, DgMessage, Stage, Step};
use crate::deepgram_types::{
    Alternative, Channel, ModelInfo, StreamMessage, StreamingMeta, StreamingResponse, Word,
};
use crate::error::AppError;
use crate::handlers::{
    audio_reply, get_twilio_start_meta, open_dg_stream, openai_authorization, play_handler,
    try_play_handler, twiml_reply, twiml_start_connect, twiml_start_play, AudioReply, ConnectReply,
    DgRequest, HttpReply, StartStep,
};
use crate::openai_types::{OpenAIPayload, OpenAIStreamResponse};
use crate::outbound::{send_twilio_media_messages_until_aborted, MediaEvent};
use crate::storage::{db_resume, DbAction, DbEvent, DbStage, DbStep};
use crate::summaries::{
    summaries_resume, SummaryAction, SummaryEvent, SummaryStage, SummaryStep,
};
use crate::tasks::{
    db_step, dg_step, sms_request, stream_twilio_audio_to_deepgram, summary_step,
    take_connect_payload, try_stream_twilio_audio_to_deepgram, AudioStep, CallAction, CallEvent,
    CallStage, CallStep, DgItem, SmsRequest,
};
use crate::twilio_types::{
    wrap_twiml, Connection, InboundMediaMeta, Response, ResponseAction, StreamTrack,
    TwilioConnectPayload, TwilioItem, TwilioMessage, TwilioOutbound,
};
use crate::types::{
    AppState, ConversationSignal, ConversationSummary, ConversationTurn, Streams,
};
use crate::utils::{
    b64_decode_to_buf, google2twilio, has_google_header, is_b64, media_message,
    try_b64_decode_to_buf, try_google2twilio,
};

verus! {

/// An error shows its message and nothing else.
pub proof fn law_error_shows_its_message(error: &AppError, description: &str, text: String)
    requires
        call_ensures(AppError::description, (error,), description),
        call_ensures(AppError::to_string, (error,), text),
    ensures
        description@ == error.0@,
        text@ == error.0@,
{
}

/// In a new turn nobody has said anything.
pub proof fn law_new_turn_is_silent(turn: ConversationTurn)
    requires
        call_ensures(ConversationTurn::new, (), turn),
    ensures
        turn.caller_side@.len() == 0,
        turn.bot_side@.len() == 0,
{
    assert(turn@.caller_side.len() == 0 && turn@.bot_side.len() == 0);
}

/// What the caller said is the transcript of the first reading.
pub proof fn law_first_reading_counts(said: &StreamingResponse, text: &str)
    requires
        call_ensures(StreamingResponse::transcript, (said,), text),
    ensures
        text@ == said.channel.alternatives@[0].transcript@,
{
}

/// A copy of a transcript says the same, reading by reading and word by word.
pub proof fn law_transcript_is_copied_whole(
    said: &StreamingResponse,
    copy: StreamingResponse,
    i: int,
)
    requires
        call_ensures(StreamingResponse::clone, (said,), copy),
        0 <= i < said.channel.alternatives@.len(),
    ensures
        copy.channel_index == said.channel_index,
        copy.is_final == said.is_final,
        copy.speech_final == said.speech_final,
        copy.channel.alternatives@.len() == said.channel.alternatives@.len(),
        copy.channel.alternatives@[i].transcript == said.channel.alternatives@[i].transcript,
        copy.channel.alternatives@[i].words@ == said.channel.alternatives@[i].words@,
{
}

/// So does a copy of what Deepgram says of its request.
pub proof fn law_meta_is_copied_whole(meta: &StreamingMeta, copy: StreamingMeta)
    requires
        call_ensures(StreamingMeta::clone, (meta,), copy),
    ensures
        copy.transaction_key == meta.transaction_key,
        copy.request_id == meta.request_id,
        copy.sha256 == meta.sha256,
        copy.channels == meta.channels,
        copy.models@ == meta.models@,
        copy.model_info@ == meta.model_info@,
{
}

/// A copy of a message is of the same kind and says the same.
pub proof fn law_message_is_copied_whole(message: &StreamMessage, copy: StreamMessage)
    requires
        call_ensures(StreamMessage::clone, (message,), copy),
    ensures
        message matches StreamMessage::StreamingResponse(said) ==> {
            &&& copy matches StreamMessage::StreamingResponse(same)
            &&& same.channel_index == said.channel_index
            &&& same.is_final == said.is_final
            &&& same.speech_final == said.speech_final
            &&& same.channel.alternatives@.len() == said.channel.alternatives@.len()
            &&& forall|i: int|
                0 <= i < said.channel.alternatives@.len() ==> (
                #[trigger] same.channel.alternatives@[i]).transcript
                    == said.channel.alternatives@[i].transcript
                    && same.channel.alternatives@[i].words@ == said.channel.alternatives@[i].words@
        },
        message matches StreamMessage::StreamingMeta(meta) ==> {
            &&& copy matches StreamMessage::StreamingMeta(same)
            &&& same.transaction_key == meta.transaction_key
            &&& same.request_id == meta.request_id
            &&& same.sha256 == meta.sha256
            &&& same.channels == meta.channels
            &&& same.models@ == meta.models@
            &&& same.model_info@ == meta.model_info@
        },
{
}

/// Copies of the parts of a message say the same as the parts.
pub proof fn law_parts_are_copied_whole(
    channel: &Channel,
    same_channel: Channel,
    alternative: &Alternative,
    same_alternative: Alternative,
    word: &Word,
    same_word: Word,
    info: &ModelInfo,
    same_info: ModelInfo,
)
    requires
        call_ensures(Channel::clone, (channel,), same_channel),
        call_ensures(Alternative::clone, (alternative,), same_alternative),
        call_ensures(Word::clone, (word,), same_word),
        call_ensures(ModelInfo::clone, (info,), same_info),
    ensures
        same_channel.alternatives@.len() == channel.alternatives@.len(),
        forall|i: int|
            0 <= i < channel.alternatives@.len() ==> (
            #[trigger] same_channel.alternatives@[i]).transcript
                == channel.alternatives@[i].transcript && same_channel.alternatives@[i].words@
                == channel.alternatives@[i].words@,
        same_alternative.transcript == alternative.transcript,
        same_alternative.words@ == alternative.words@,
        same_word == *word,
        same_info == *info,
{
}

/// What is noted of a call, and what is sent to Twilio, is copied whole.
pub proof fn law_calls_and_messages_are_copied_whole(
    payload: &TwilioConnectPayload,
    same_payload: TwilioConnectPayload,
    message: &TwilioOutbound,
    same_message: TwilioOutbound,
)
    requires
        call_ensures(TwilioConnectPayload::clone, (payload,), same_payload),
        call_ensures(TwilioOutbound::clone, (message,), same_message),
    ensures
        same_payload == *payload,
        same_message == *message,
{
}

/// A request that nothing was put in is empty.
pub proof fn law_default_request_is_empty(payload: OpenAIPayload)
    requires
        call_ensures(OpenAIPayload::default, (), payload),
    ensures
        payload.model@.len() == 0,
        payload.messages@.len() == 0,
        payload.stream is None,
        payload.max_tokens is None,
{
}

/// What was encoded, of any length, is put behind what is in the buffer.
pub proof fn law_bytes_go_behind_the_buffer(
    bytes: Seq<u8>,
    enc: String,
    buf: &mut Vec<u8>,
    tried: &mut Vec<u8>,
    decoded: bool,
)
    requires
        enc@ == b64_encoded(bytes),
        call_ensures(b64_decode_to_buf, (enc, buf), ()),
        call_ensures(try_b64_decode_to_buf, (enc, tried), decoded),
    ensures
        final(buf)@ == old(buf)@ + bytes,
        decoded,
        final(tried)@ == old(tried)@ + bytes,
{
    law_b64_round_trip(bytes);
}

/// A text that encodes nothing is told apart, and leaves the buffer alone.
pub proof fn law_other_texts_leave_the_buffer(
    enc: String,
    text: &str,
    tried: &mut Vec<u8>,
    decoded: bool,
    yes: bool,
    header: bool,
)
    requires
        text@ == enc@,
        forall|bytes: Seq<u8>| #[trigger] b64_encoded(bytes) != enc@,
        call_ensures(try_b64_decode_to_buf, (enc, tried), decoded),
        call_ensures(is_b64, (text,), yes),
        call_ensures(has_google_header, (text,), header),
    ensures
        !decoded,
        !yes,
        !header,
        final(tried)@ == old(tried)@,
{
    assert(!is_b64_text(enc@));
}

/// Audio has a header in front where it has 58 bytes at least.
pub proof fn law_header_has_58_bytes(bytes: Seq<u8>, enc: &str, yes: bool, header: bool)
    requires
        enc@ == b64_encoded(bytes),
        call_ensures(is_b64, (enc,), yes),
        call_ensures(has_google_header, (enc,), header),
    ensures
        yes,
        header <==> bytes.len() >= 58,
{
    law_b64_round_trip(bytes);
}

/// `message` has Twilio play `audio`, all of it, on the stream `sid`.
pub open spec fn plays_audio(message: TwilioOutbound, audio: Seq<u8>, sid: Seq<char>) -> bool {
    &&& message matches TwilioOutbound::Media { media, stream_sid }
    &&& media.payload@ == b64_encoded(audio)
    &&& stream_sid@ == sid
}

/// Of Google's audio the first 58 bytes are left out and nothing else, whichever way it is given.
pub proof fn law_all_behind_the_header_is_played(
    bytes: Seq<u8>,
    body: &Vec<u8>,
    tts: String,
    sid: &str,
    made: TwilioOutbound,
    prepared: TwilioOutbound,
    tried: Option<TwilioOutbound>,
)
    requires
        body@ == bytes,
        tts@ == b64_encoded(bytes),
        call_ensures(media_message, (body, sid), made),
        call_ensures(google2twilio, (tts, sid), prepared),
        call_ensures(try_google2twilio, (tts, sid), tried),
    ensures
        plays_audio(made, bytes.skip(58), sid@),
        plays_audio(prepared, bytes.skip(58), sid@),
        tried is Some <==> bytes.len() >= 58,
        tried matches Some(message) ==> plays_audio(message, bytes.skip(58), sid@),
{
    law_b64_round_trip(bytes);
}

/// The audio of the caller, of any length, goes to Deepgram byte for byte.
pub proof fn law_audio_is_sent_byte_for_byte(
    audio: Seq<u8>,
    media: InboundMediaMeta,
    step: AudioStep,
)
    requires
        media.payload@ == b64_encoded(audio),
        call_ensures(
            stream_twilio_audio_to_deepgram,
            (TwilioItem::Text(Some(TwilioMessage::Media { media })),),
            step,
        ) || call_ensures(
            try_stream_twilio_audio_to_deepgram,
            (TwilioItem::Text(Some(TwilioMessage::Media { media })),),
            Some(step),
        ),
    ensures
        step matches AudioStep::Send(chunk) && chunk@ == audio,
{
    law_b64_round_trip(audio);
}

/// Whatever is no audio sends nothing: pings, other frames and marks are passed over, the order to
/// stop and the end of the stream end the task well, and all else ends it with an error.
pub proof fn law_only_audio_is_sent(item: TwilioItem, step: AudioStep)
    requires
        !(item matches TwilioItem::Text(Some(TwilioMessage::Media { .. }))),
        call_ensures(stream_twilio_audio_to_deepgram, (item,), step) || call_ensures(
            try_stream_twilio_audio_to_deepgram,
            (item,),
            Some(step),
        ),
    ensures
        item is Ping || item is Other || item == TwilioItem::Text(Some(TwilioMessage::Mark)) ==> step
            == AudioStep::Wait,
        item is End || (item matches TwilioItem::Text(Some(TwilioMessage::Stop { .. }))) ==> step
            == AudioStep::Done(Ok(())),
        item == TwilioItem::Text(None) ==> step == AudioStep::Done(
            Err(AppError("Failed to parse incoming text message")),
        ),
        item is Failed ==> step == AudioStep::Done(
            Err(AppError("Failed to receive message from Twilio stream")),
        ),
        (item matches TwilioItem::Text(Some(TwilioMessage::Connected { .. }))) || (item matches
            TwilioItem::Text(Some(TwilioMessage::Start { .. }))) ==> step == AudioStep::Done(
            Err(AppError("We should not be getting Connected or Start messages now!")),
        ),
{
}

/// Whether audio can be sent is told beforehand.
pub proof fn law_audio_that_is_none_is_told(media: InboundMediaMeta, tried: Option<AudioStep>)
    requires
        call_ensures(
            try_stream_twilio_audio_to_deepgram,
            (TwilioItem::Text(Some(TwilioMessage::Media { media })),),
            tried,
        ),
    ensures
        tried is Some <==> exists|bytes: Seq<u8>| #[trigger] b64_encoded(bytes) == media.payload@,
{
}

/// The bytes that a step sends.
pub open spec fn sent(step: AudioStep) -> Seq<u8> {
    match step {
        AudioStep::Send(chunk) => chunk@,
        _ => seq![],
    }
}

/// Over a stream, Deepgram gets the caller's audio one piece after the other, with nothing left out
/// and nothing in between, whatever else Twilio sends.
pub proof fn law_deepgram_gets_all_the_audio(
    items: Seq<TwilioItem>,
    steps: Seq<AudioStep>,
    audio: Seq<Seq<u8>>,
)
    requires
        steps.len() == items.len(),
        audio.len() == items.len(),
        forall|i: int|
            0 <= i < items.len() ==> call_ensures(
                stream_twilio_audio_to_deepgram,
                (#[trigger] items[i],),
                steps[i],
            ),
        forall|i: int|
            0 <= i < items.len() ==> match #[trigger] items[i] {
                TwilioItem::Text(Some(TwilioMessage::Media { media })) => media.payload@
                    == b64_encoded(audio[i]),
                _ => audio[i] == Seq::<u8>::empty(),
            },
    ensures
        Seq::new(steps.len(), |i: int| sent(steps[i])).flatten() == audio.flatten(),
{
    let all = Seq::new(steps.len(), |i: int| sent(steps[i]));
    assert forall|i: int| 0 <= i < items.len() implies all[i] == audio[i] by {
        assert(call_ensures(stream_twilio_audio_to_deepgram, (items[i],), steps[i]));
        match items[i] {
            TwilioItem::Text(Some(TwilioMessage::Media { media })) => {
                law_audio_is_sent_byte_for_byte(audio[i], media, steps[i]);
            },
            _ => {
                law_only_audio_is_sent(items[i], steps[i]);
                assert(all[i] =~= Seq::<u8>::empty());
            },
        }
    }
    assert(all =~= audio);
}

/// A stream starts with the message that says so, which is handed on as it is; the announcement of
/// the connection is waited over, and all else is an error.
pub proof fn law_stream_starts_with_its_start(item: TwilioItem, step: StartStep)
    requires
        call_ensures(get_twilio_start_meta, (item,), step),
    ensures
        item matches TwilioItem::Text(Some(TwilioMessage::Start { start })) ==> step
            == StartStep::Done(Ok(start)),
        (item matches TwilioItem::Text(Some(TwilioMessage::Connected { .. }))) ==> step
            == StartStep::Wait,
        (item matches TwilioItem::Text(Some(TwilioMessage::Media { .. }))) || (item matches
            TwilioItem::Text(Some(TwilioMessage::Stop { .. }))) || item == TwilioItem::Text(
            Some(TwilioMessage::Mark),
        ) ==> step == StartStep::Done(
            Err(
                AppError(
                    "At this point in a stream, we only expect a Connected message or a Start message.  Any others constitute an error.",
                ),
            ),
        ),
        item == TwilioItem::Text(None) ==> step == StartStep::Done(
            Err(AppError("Error deserializing twilio text message")),
        ),
        item is Ping || item is Other || item is Failed ==> step == StartStep::Done(
            Err(AppError("Got unexpected websocket message type from Twilio!")),
        ),
        item is End ==> step == StartStep::Done(Err(AppError("End of stream"))),
{
}

/// The services are shown the keys that they were given, each its own.
pub proof fn law_keys_are_shown_whole(app_state: &AppState, dg: DgRequest, openai: String)
    requires
        call_ensures(open_dg_stream, (app_state,), dg),
        call_ensures(openai_authorization, (app_state,), openai),
    ensures
        dg.uri@
            == "wss://api.deepgram.com/v1/listen?encoding=mulaw&sample_rate=8000&interim_results=true&endpointing=false"@,
        dg.authorization@ == "Token "@ + app_state.console_api_key@,
        openai@ == "Bearer "@ + app_state.openai_api_key@,
{
}

/// A recording is sent whole, as MP3, whichever way it is given.
pub proof fn law_recording_is_sent_whole(
    bytes: Seq<u8>,
    body: Vec<u8>,
    tts: String,
    of_body: AudioReply,
    reply: AudioReply,
    tried: Option<AudioReply>,
)
    requires
        body@ == bytes,
        tts@ == b64_encoded(bytes),
        call_ensures(audio_reply, (body,), of_body),
        call_ensures(play_handler, (tts,), reply),
        call_ensures(try_play_handler, (tts,), tried),
    ensures
        of_body.content_type@ == "audio/mpeg"@,
        of_body.body@ == bytes,
        reply.content_type@ == "audio/mpeg"@,
        reply.body@ == bytes,
        tried is Some,
        tried->0.content_type@ == "audio/mpeg"@,
        tried->0.body@ == bytes,
{
    law_b64_round_trip(bytes);
}

/// A text that encodes nothing makes no recording.
pub proof fn law_no_recording_of_other_texts(tts: String, tried: Option<AudioReply>)
    requires
        forall|bytes: Seq<u8>| #[trigger] b64_encoded(bytes) != tts@,
        call_ensures(try_play_handler, (tts,), tried),
    ensures
        tried is None,
{
    assert(!is_b64_text(tts@));
}

/// A call that came in is greeted and connected to the bot at the host that was called, and noted as
/// it came under its sid, while calls under other sids stay noted as they are. Nothing else of the
/// shared state changes.
pub proof fn law_call_is_greeted_connected_and_noted(
    host: &str,
    app_state: &mut AppState,
    payload: TwilioConnectPayload,
    reply: ConnectReply,
    other: Seq<char>,
)
    requires
        call_ensures(twiml_start_connect, (host, app_state, Some(payload)), reply),
        other != payload.call_sid@,
    ensures
        reply matches ConnectReply::Twiml(document) && document.actions@.len() == 2 && (
        document.actions@[0] matches ResponseAction::Say(say) && say.text@
            == "Hi.  How may I help you?"@) && (document.actions@[1] matches
            ResponseAction::Connect(connect) && (connect.connection matches Connection::Stream(
            stream,
        ) && stream.url@ == "wss://"@ + host@ + "/connect"@ && stream.track == Some(
            StreamTrack::Inbound,
        ))),
        final(app_state).streams@.contains_key(payload.call_sid@),
        final(app_state).streams@[payload.call_sid@] == payload,
        final(app_state).streams@.contains_key(other) == old(app_state).streams@.contains_key(other),
        old(app_state).streams@.contains_key(other) ==> final(app_state).streams@[other] == old(
            app_state,
        ).streams@[other],
        *final(app_state) == (AppState { streams: final(app_state).streams, ..*old(app_state) }),
{
}

/// What cannot be understood is refused, and nothing is noted.
pub proof fn law_other_requests_are_refused(
    host: &str,
    app_state: &mut AppState,
    reply: ConnectReply,
)
    requires
        call_ensures(
            twiml_start_connect,
            (host, app_state, None::<TwilioConnectPayload>),
            reply,
        ),
    ensures
        *final(app_state) == *old(app_state),
        reply matches ConnectReply::BadRequest(bad) && bad.status == 400 && bad.content_type is None
            && bad.body@ == "Bad request"@,
{
}

/// A call that is answered with a recording is sent to where it is, at the host that was called.
pub proof fn law_call_is_sent_to_the_recording(host: &str, document: Response)
    requires
        call_ensures(twiml_start_play, (host,), document),
    ensures
        document.actions@.len() == 1,
        document.actions@[0] matches ResponseAction::Play(play) && play.url@ == "https://"@ + host@
            + "/play"@,
{
}

/// A Twiml document goes out whole, behind the declaration that it is XML.
pub proof fn law_document_goes_out_whole(xml: String, document: String, reply: HttpReply)
    requires
        call_ensures(wrap_twiml, (xml,), document),
        call_ensures(twiml_reply, (xml,), reply),
    ensures
        document@ == "<?xml version=\"1.0\" encoding=\"UTF-8\"?>\n"@ + xml@,
        reply.status == 200,
        reply.content_type matches Some(kind) && kind@ == "application/xml"@,
        reply.body@ == document@,
{
}

/// A call that was noted is found, as it came, and once; the others stay noted as they are.
pub proof fn law_noted_call_is_taken_out(
    noting: &mut Streams,
    payload: TwilioConnectPayload,
    taking: &mut Streams,
    sid: &str,
    taken: Option<TwilioConnectPayload>,
    again: &mut Streams,
    none: Option<TwilioConnectPayload>,
    other: Seq<char>,
)
    requires
        call_ensures(Streams::insert, (noting, payload), ()),
        sid@ == payload.call_sid@,
        old(taking)@ == final(noting)@,
        call_ensures(Streams::remove, (taking, sid), taken),
        old(again)@ == final(taking)@,
        call_ensures(Streams::remove, (again, sid), none),
        other != sid@,
    ensures
        taken == Some(payload),
        none is None,
        final(again)@.contains_key(other) == old(noting)@.contains_key(other),
        old(noting)@.contains_key(other) ==> final(again)@[other] == old(noting)@[other],
{
}

/// The same of the shared state: a call that is not noted is an error, and nothing but the noted
/// call is taken out.
pub proof fn law_call_is_taken_from_the_shared_state(
    app_state: &mut AppState,
    sid: &str,
    payload: Result<TwilioConnectPayload, AppError>,
    other: Seq<char>,
)
    requires
        call_ensures(take_connect_payload, (app_state, sid), payload),
        other != sid@,
    ensures
        old(app_state).streams@.contains_key(sid@) ==> payload == Ok::<
            TwilioConnectPayload,
            AppError,
        >(old(app_state).streams@[sid@]),
        !old(app_state).streams@.contains_key(sid@) ==> payload == Err::<
            TwilioConnectPayload,
            AppError,
        >(AppError("app state streams error")),
        !final(app_state).streams@.contains_key(sid@),
        final(app_state).streams@.contains_key(other) == old(app_state).streams@.contains_key(other),
        old(app_state).streams@.contains_key(other) ==> final(app_state).streams@[other] == old(
            app_state,
        ).streams@[other],
        *final(app_state) == (AppState { streams: final(app_state).streams, ..*old(app_state) }),
{
}

/// `sms` tells the caller of a call what one of its answers was about, in the name of the number
/// that was called.
pub open spec fn tells_caller(
    sms: SmsRequest,
    account_sid: Seq<char>,
    call: TwilioConnectPayload,
    summary: ConversationSummary,
) -> bool {
    &&& sms.url@ == "https://api.twilio.com/2010-04-01/Accounts/"@ + account_sid
        + "/Messages.json"@
    &&& sms.from@ == call.to@
    &&& sms.to@ == call.from@
    &&& sms.body@ == summary.topic@ + ": "@ + summary.summary@
}

/// A text message is for the caller, and has the topic and the whole summary in it.
pub proof fn law_caller_is_told_topic_and_summary(
    account_sid: &str,
    call: &TwilioConnectPayload,
    summary: &ConversationSummary,
    sms: SmsRequest,
)
    requires
        call_ensures(sms_request, (account_sid, call, summary), sms),
    ensures
        tells_caller(sms, account_sid@, *call, *summary),
{
}

/// The call goes on with text message `i`, or where all have been sent with looking for the caller
/// in the database.
pub open spec fn tells_or_stores(
    state: ConversationState,
    account_sid: Seq<char>,
    i: int,
    step: CallStep,
) -> bool {
    let made = state.conversation_summaries->0@;
    if i < made.len() {
        &&& step matches CallStep::Act(CallAction::Text(sms), CallStage::Texting { sent })
        &&& sent == i + 1
        &&& tells_caller(sms, account_sid, state.twilio_connect_payload, made[i])
    } else {
        step == CallStep::Act(
            CallAction::Store(DbAction::FindCaller { phone: state.twilio_connect_payload.from }),
            CallStage::Storing(DbStage::FindingCaller),
        )
    }
}

/// The call goes on as handling a message does, and where that ends well with the next message.
pub open spec fn follows_message(step: CallStep, next: Step) -> bool {
    match next {
        Step::Act(action, stage) => step == CallStep::Act(
            CallAction::Converse(action),
            CallStage::Handling(stage),
        ),
        Step::Last(action) => step == CallStep::Act(
            CallAction::Converse(action),
            CallStage::Handled,
        ),
        Step::Done(Ok(_)) => step == CallStep::Act(CallAction::ReadDg, CallStage::Listening),
        Step::Done(Err(e)) => step == CallStep::Done(Err(e)),
    }
}

/// Every message of Deepgram is handled, at its time; a stream that fails ends the call with an
/// error; and when the stream has come to its end, the call is summarized, or where that was done
/// the first summary is texted.
pub proof fn law_call_listens_to_deepgram(
    state: &mut ConversationState,
    account_sid: &str,
    item: DgItem,
    now: u128,
    step: CallStep,
)
    requires
        call_ensures(
            ConversationState::manage_conversation,
            (state, account_sid, CallStage::Listening, CallEvent::Dg { item, now }),
            step,
        ),
    ensures
        item matches DgItem::Message(msg) ==> exists|next: Step|
            #[trigger] handles(*old(state), msg, now, *final(state), next) && follows_message(
                step,
                next,
            ),
        item is Failed ==> *final(state) == *old(state) && step == CallStep::Done(
            Err(AppError("dg stream error")),
        ),
        item is End ==> *final(state) == *old(state) && if old(
            state,
        ).conversation_summaries is None {
            step == CallStep::Act(
                CallAction::Summarize(SummaryAction::CheckTasks),
                CallStage::Summarizing(SummaryStage::Checking { tries: 0 }),
            )
        } else {
            tells_or_stores(*old(state), account_sid@, 0, step)
        },
{
    if let DgItem::Message(msg) = item {
        let next = dg_step(step)->0;
        assert(handles(*old(state), msg, now, *final(state), next));
        assert(follows_message(step, next));
    }
}

/// What came of an action goes to the message that is being handled; and when a message has been
/// handled, the next is waited for.
pub proof fn law_call_goes_on_with_the_message(
    state: &mut ConversationState,
    account_sid: &str,
    stage: Stage,
    delivered: bool,
    now: u128,
    step: CallStep,
    handled: &mut ConversationState,
    last: CallStep,
)
    requires
        call_ensures(
            ConversationState::manage_conversation,
            (
                state,
                account_sid,
                CallStage::Handling(stage),
                CallEvent::Performed { delivered, now },
            ),
            step,
        ),
        call_ensures(
            ConversationState::manage_conversation,
            (handled, account_sid, CallStage::Handled, CallEvent::Performed { delivered, now }),
            last,
        ),
    ensures
        exists|next: Step|
            #[trigger] resumes(*old(state), stage, delivered, now, *final(state), next)
                && follows_message(step, next),
        *final(handled) == *old(handled),
        last == CallStep::Act(CallAction::ReadDg, CallStage::Listening),
{
    let next = dg_step(step)->0;
    assert(resumes(*old(state), stage, delivered, now, *final(state), next));
    assert(follows_message(step, next));
}

/// Making summaries goes on until they are made, and then the first is texted.
pub proof fn law_call_goes_on_with_the_summaries(
    state: &mut ConversationState,
    account_sid: &str,
    stage: SummaryStage,
    event: SummaryEvent,
    step: CallStep,
)
    requires
        call_ensures(
            ConversationState::manage_conversation,
            (state, account_sid, CallStage::Summarizing(stage), CallEvent::Summary(event)),
            step,
        ),
    ensures
        exists|next: SummaryStep|
            #[trigger] summaries_resume(*old(state), stage, event, *final(state), next)
                && match next {
                SummaryStep::Act(action, next_stage) => step == CallStep::Act(
                    CallAction::Summarize(action),
                    CallStage::Summarizing(next_stage),
                ),
                SummaryStep::Done => tells_or_stores(*final(state), account_sid@, 0, step),
            },
{
    let next = summary_step(step);
    assert(summaries_resume(*old(state), stage, event, *final(state), next));
}

/// One text message follows another until all summaries are sent, whatever comes of them, and then
/// the call is stored; and storing it is the end of the call.
pub proof fn law_call_is_texted_then_stored(
    state: &mut ConversationState,
    account_sid: &str,
    sent: usize,
    step: CallStep,
    storing: &mut ConversationState,
    stage: DbStage,
    event: DbEvent,
    stored: CallStep,
)
    requires
        call_ensures(
            ConversationState::manage_conversation,
            (state, account_sid, CallStage::Texting { sent }, CallEvent::Texted),
            step,
        ),
        call_ensures(
            ConversationState::manage_conversation,
            (storing, account_sid, CallStage::Storing(stage), CallEvent::Db(event)),
            stored,
        ),
    ensures
        *final(state) == *old(state),
        tells_or_stores(*old(state), account_sid@, sent as int, step),
        *final(storing) == *old(storing),
        exists|next: DbStep|
            #[trigger] db_resume(*old(storing), stage, event, next) && match next {
                DbStep::Act(action, next_stage) => stored == CallStep::Act(
                    CallAction::Store(action),
                    CallStage::Storing(next_stage),
                ),
                DbStep::Done(result) => stored == CallStep::Done(result),
            },
{
    let next = db_step(stored)->0;
    assert(db_resume(*old(storing), stage, event, next));
}

/// Any audio can be decoded, played where it has a header, and sent, whatever its length.
pub proof fn law_any_audio_is_accepted(
    bytes: Seq<u8>,
    tts: String,
    sid: &str,
    buf: &mut Vec<u8>,
    body: &Vec<u8>,
    media: InboundMediaMeta,
    call: TwilioConnectPayload,
    id: String,
    now: u128,
)
    requires
        tts@ == b64_encoded(bytes),
        media.payload@ == b64_encoded(bytes),
        body@ == bytes,
    ensures
        call_requires(b64_decode_to_buf, (tts, buf)),
        call_requires(play_handler, (tts,)),
        call_requires(
            stream_twilio_audio_to_deepgram,
            (TwilioItem::Text(Some(TwilioMessage::Media { media })),),
        ),
        bytes.len() >= 58 ==> call_requires(google2twilio, (tts, sid)) && call_requires(
            media_message,
            (body, sid),
        ) && call_requires(
            send_twilio_media_messages_until_aborted,
            (MediaEvent::Received(Some(tts)), sid),
        ) && call_requires(ConversationState::new, (id, call, tts, now)),
{
    law_b64_round_trip(bytes);
}

/// Every message of Deepgram is accepted, as long as a transcript has a reading, in every state in
/// which the bot listens only in a turn and while no answer is played, and in which summaries are of
/// turns that there are, in their order.
pub proof fn law_any_message_is_accepted(
    state: &mut ConversationState,
    account_sid: &str,
    msg: DgMessage,
    now: u128,
)
    requires
        old(state).current_bot_action is Listening ==> old(state).conversation_turns@.len() > 0
            && !old(state).current_twilio_media_message_stream,
        old(state).conversation_summaries matches Some(made) ==> (forall|i: int|
            0 <= i < made@.len() ==> (#[trigger] made@[i]).idx < old(
                state,
            ).conversation_turns@.len()) && (forall|i: int, j: int|
            0 <= i < j < made@.len() ==> (#[trigger] made@[i]).idx < (#[trigger] made@[j]).idx),
        msg matches DgMessage::Text(Some(StreamMessage::StreamingResponse(said)))
            ==> said.channel.alternatives@.len() > 0,
    ensures
        call_requires(ConversationState::handle_dg_message, (state, msg, now)),
        call_requires(
            ConversationState::manage_conversation,
            (
                state,
                account_sid,
                CallStage::Listening,
                CallEvent::Dg { item: DgItem::Message(msg), now },
            ),
        ),
        call_requires(
            ConversationState::manage_conversation,
            (state, account_sid, CallStage::Listening, CallEvent::Dg { item: DgItem::End, now }),
        ),
        call_requires(ConversationState::get_conversation_summaries, (state,)),
{
}

/// A call with any summaries of its turns can be stored, step by step, whatever comes of the steps.
pub proof fn law_any_call_can_be_stored(state: &ConversationState, stage: DbStage, event: DbEvent)
    requires
        state.conversation_summaries matches Some(made) ==> forall|i: int|
            0 <= i < made@.len() ==> (#[trigger] made@[i]).idx < state.conversation_turns@.len(),
        stage is Beginning ==> state.dg_request_id is Some,
        event is Failed || (event is Row && (stage is FindingCaller || stage is AddingCaller || stage
            is AddingCall)) || (event is Completed && (stage is Beginning || stage is AddingTurns
            || stage is Committing)),
    ensures
        call_requires(ConversationState::insert_db_row, (state,)),
        call_requires(ConversationState::resume_db_row, (state, stage, event)),
{
}

/// Any events of an answer are accepted that say what they add, and any settled words that have a
/// reading.
pub proof fn law_any_words_are_accepted(
    manager: &mut BotSideManager,
    turn: &mut ConversationTurn,
    kept: Seq<OpenAIStreamResponse>,
    decoded: Vec<Option<OpenAIStreamResponse>>,
    said: StreamingResponse,
)
    requires
        old(manager).handled <= old(manager).responses@.len(),
        forall|i: int|
            0 <= i < old(manager).responses@.len() ==> (#[trigger] old(
                manager,
            ).responses@[i]).choices@.len() > 0,
        kept.len() == decoded@.len(),
        forall|i: int|
            0 <= i < kept.len() ==> #[trigger] decoded@[i] == Some(kept[i])
                && kept[i].choices@.len() > 0,
        said.channel.alternatives@.len() > 0,
    ensures
        call_requires(
            BotSideManager::bot_side_manager,
            (manager, turn, BotSideEvent::Decoded(decoded)),
        ),
        call_requires(BotSideManager::bot_side_manager, (manager, turn, BotSideEvent::Spoken)),
        call_requires(
            caller_side_manager,
            (turn, Some(ConversationSignal::StreamingResponse(said))),
        ),
{
    lemma_all_understood(decoded@, kept);
    assert forall|i: int| 0 <= i < kept.len() implies (#[trigger] kept[i]).choices@.len() > 0 by {
        assert(decoded@[i] == Some(kept[i]));
    }
    assert(BotSideEvent::Decoded(decoded).wf());
}

proof fn lemma_all_understood(
    decoded: Seq<Option<OpenAIStreamResponse>>,
    kept: Seq<OpenAIStreamResponse>,
)
    requires
        kept.len() == decoded.len(),
        forall|i: int| 0 <= i < kept.len() ==> #[trigger] decoded[i] == Some(kept[i]),
    ensures
        understood(decoded) == kept,
    decreases decoded.len(),
{
    reveal(Seq::filter_map);
    if decoded.len() > 0 {
        let n = decoded.len() - 1;
        assert forall|i: int| 0 <= i < n implies #[trigger] decoded.drop_last()[i] == Some(
            kept.drop_last()[i],
        ) by {
            assert(decoded[i] == Some(kept[i]));
        }
        lemma_all_understood(decoded.drop_last(), kept.drop_last());
        assert(decoded[n] == Some(kept[n]));
        assert(understood(decoded) =~= kept);
    } else {
        assert(understood(decoded) =~= kept);
    }
}

} // verus!
