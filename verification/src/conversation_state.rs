//! The back and forth of a call: what the bot does about each message that Deepgram sends.
//!
//! A message is handled in steps. A step names an action for the surrounding program and the
//! stage at which handling goes on once the program says what came of the action.

use uuid::Uuid;
use vstd::prelude::*;

use crate::consts::{GOOGLE_WAV_HEADER_SZ, PAUSE_TEXT, POLITENESS_DELAY_MILLIS};
use crate::deepgram_types::{StreamMessage, StreamingResponse};
use crate::error::AppError;
use crate::openai_types::{chat_view, OpenAIMessage, OpenAIMessageView};
use crate::texttospeech_v1_types::{AudioConfigAudioEncoding, SynthesizeSpeechRequest};
use crate::twilio_types::{TwilioConnectPayload, TwilioOutbound};
use crate::types::{
    asks_to_speak, blank_turn, AppState, ConversationSignal, ConversationSummary,
    ConversationTurn, ConversationTurnView, CurrentBotAction,
};
use crate::utils::{b64_bytes, google2twilio, has_google_header, is_google_tts, plays};

verus! {

/// A task of a call that the surrounding program was told to start.
pub enum CallTask {
    /// The task that sends to Twilio.
    Outbound,
    /// The caller-side manager of a turn.
    CallerSide { turn: usize },
    /// The bot-side manager of a turn.
    BotSide { turn: usize },
}

/// Where a call stands.
pub struct ConversationState {
    /// What the caller hears when the bot starts to prepare an answer
    pub pause_msg: TwilioOutbound,
    /// The tasks that were started and are waited for when the call is over, in the order in which
    /// they were started. Those that play the answers are not among them: they may be aborted.
    pub join_handles: Vec<CallTask>,
    /// How we track whether we are currently speaking or listening
    pub current_bot_action: CurrentBotAction,
    /// Data structure to store the running context of our conversation
    pub conversation_turns: Vec<ConversationTurn>,
    pub conversation_summaries: Option<Vec<ConversationSummary>>,
    /// When the caller was last heard, in nanoseconds on the clock of the program
    pub last_talking: u128,
    /// The stream id collected from the Twilio Media message stream
    pub twilio_stream_id: String,
    /// Connect payload from the initial Twilio connection
    pub twilio_connect_payload: TwilioConnectPayload,
    /// The request id for our Deepgram stream; we won't know this until the end of the stream
    pub dg_request_id: Option<Uuid>,
    /// Whether there is a task by which, when talking, we are sending Media messages to Twilio. It
    /// is decoupled from the task that collects the answer, in order to facilitate stopping
    /// talking when the caller cuts us off, but still collect a complete response from OpenAI for
    /// complete context.
    pub current_twilio_media_message_stream: bool,
}

/// A message of the Deepgram stream: text, decoded where it could be, or anything else.
pub enum DgMessage {
    Text(Option<StreamMessage>),
    Other,
}

/// What the surrounding program is to do.
pub enum Action {
    /// Hand a message to the task that sends to Twilio. It may not be delivered.
    SendOutbound(TwilioOutbound),
    /// Hand a signal to the caller-side manager of the current turn. It may not be delivered.
    SignalTurn(ConversationSignal),
    /// Stop the media message task if `abort_media` says so, open a channel for the signals of a
    /// new turn, and put the first one in. It may not be delivered.
    OpenTurn { abort_media: bool, first: ConversationSignal },
    /// Start the caller-side manager of a turn on the channel that was opened for it.
    StartCallerSide { turn: usize },
    /// Close the channel of the turn, start the bot-side manager that answers `conversation`, and
    /// the media message task that plays what it says.
    StartBotSide { turn: usize, conversation: Vec<OpenAIMessage> },
}

/// What is known to come next, once it is known whether an action delivered what it had to.
pub enum Stage {
    /// The caller has been silent, and was to be acknowledged.
    Acknowledging,
    /// The caller-side manager was to be told to stop.
    Going,
    /// The caller-side manager was to be told what the caller says.
    Relaying,
    /// Twilio was to be told to shut up, because the caller says this.
    Clearing(StreamingResponse),
    /// A turn was to be opened.
    Opening,
}

/// How handling a message goes on.
pub enum Step {
    /// Do this, and come back at the stage.
    Act(Action, Stage),
    /// Do this, and the message is handled.
    Last(Action),
    /// The message is handled.
    Done(Result<(), AppError>),
}

/// The milliseconds from `last` to `now`, both in nanoseconds.
pub open spec fn spec_elapsed_millis(last: u128, now: u128) -> int {
    if now <= last {
        0
    } else {
        (now - last) / 1_000_000
    }
}

/// The milliseconds from `last` to `now`, both in nanoseconds.
pub fn elapsed_millis(last: u128, now: u128) -> (millis: u128)
    ensures
        millis == spec_elapsed_millis(last, now),
{
    if now <= last {
        0
    } else {
        (now - last) / 1_000_000
    }
}

/// The message that tells the assistant what to be like.
pub open spec fn system_message() -> OpenAIMessageView {
    OpenAIMessageView {
        role: "system"@,
        content: "You are a friendly and helpful assistant."@,
    }
}

/// What one side said, as a message of a chat; nothing where it said nothing.
pub open spec fn side_message(role: Seq<char>, content: Seq<char>) -> Seq<OpenAIMessageView> {
    if content.len() == 0 {
        seq![]
    } else {
        seq![OpenAIMessageView { role, content }]
    }
}

/// A turn as messages of a chat: what the caller said, then what the bot said.
pub open spec fn turn_messages(turn: ConversationTurnView) -> Seq<OpenAIMessageView> {
    side_message("user"@, turn.caller_side) + side_message("assistant"@, turn.bot_side)
}

/// `turn_messages` as a value.
pub open spec fn to_turn_messages() -> spec_fn(ConversationTurnView) -> Seq<OpenAIMessageView> {
    |turn: ConversationTurnView| turn_messages(turn)
}

/// A conversation as a chat: the instruction to the assistant, then turn by turn what was said.
pub open spec fn conversation_context(turns: Seq<ConversationTurnView>) -> Seq<OpenAIMessageView> {
    seq![system_message()] + turns.flat_map(to_turn_messages())
}

/// The models of turns.
pub open spec fn turns_view(turns: Seq<ConversationTurn>) -> Seq<ConversationTurnView> {
    turns.map_values(|t: ConversationTurn| t@)
}

/// Every turn of `a` is in `b` at its place, with no less said on either side.
pub open spec fn turns_grow(a: Seq<ConversationTurn>, b: Seq<ConversationTurn>) -> bool {
    &&& a.len() <= b.len()
    &&& forall|i: int|
        0 <= i < a.len() ==> (#[trigger] a[i]).caller_side@.is_prefix_of(b[i].caller_side@)
            && a[i].bot_side@.is_prefix_of(b[i].bot_side@)
}

/// `b` is `a` after a while in which the tasks of the call may have added to what was said.
pub open spec fn said_meanwhile(a: ConversationState, b: ConversationState) -> bool {
    &&& b == (ConversationState { conversation_turns: b.conversation_turns, ..a })
    &&& b.conversation_turns@.len() == a.conversation_turns@.len()
    &&& turns_grow(a.conversation_turns@, b.conversation_turns@)
}

/// The summaries are of turns that there are, in the order of the turns, at most one of each.
pub open spec fn summaries_wf(summaries: Seq<ConversationSummary>, turns: nat) -> bool {
    &&& forall|i: int| 0 <= i < summaries.len() ==> (#[trigger] summaries[i]).idx < turns
    &&& forall|i: int, j: int|
        0 <= i < j < summaries.len() ==> (#[trigger] summaries[i]).idx < (
        #[trigger] summaries[j]).idx
}

/// The caller is silent while we listen: give the caller polite space, then acknowledge.
pub open spec fn listens_while_listening(
    pre: ConversationState,
    now: u128,
    post: ConversationState,
    step: Step,
) -> bool {
    &&& post == pre
    &&& step == if pre.current_bot_action is Talking {
        Step::Done(Err(AppError("Conversation state out of whack")))
    } else if spec_elapsed_millis(pre.last_talking, now) < POLITENESS_DELAY_MILLIS {
        Step::Done(Ok(()))
    } else {
        Step::Act(Action::SendOutbound(pre.pause_msg), Stage::Acknowledging)
    }
}

/// The caller speaks while we listen: relay what is said.
pub open spec fn speaks_while_listening(
    pre: ConversationState,
    said: StreamingResponse,
    now: u128,
    post: ConversationState,
    step: Step,
) -> bool {
    if pre.current_bot_action is Talking {
        &&& post == pre
        &&& step == Step::Done(Err(AppError("Conversation state out of whack")))
    } else {
        &&& post == (ConversationState { last_talking: now, ..pre })
        &&& step == Step::Act(
            Action::SignalTurn(ConversationSignal::StreamingResponse(said)),
            Stage::Relaying,
        )
    }
}

/// The caller speaks while we talk: shut up, then listen in a new turn.
pub open spec fn speaks_while_talking(
    pre: ConversationState,
    said: StreamingResponse,
    now: u128,
    post: ConversationState,
    step: Step,
) -> bool {
    if pre.current_twilio_media_message_stream {
        &&& post == pre
        &&& step == Step::Act(
            Action::SendOutbound(TwilioOutbound::Clear { stream_sid: pre.twilio_stream_id }),
            Stage::Clearing(said),
        )
    } else {
        &&& post == (ConversationState { last_talking: now, ..pre })
        &&& step == Step::Act(
            Action::OpenTurn {
                abort_media: false,
                first: ConversationSignal::StreamingResponse(said),
            },
            Stage::Opening,
        )
    }
}

/// What `handle_dg_message` does: in state `pre` at time `now` it makes `post` of the state and
/// goes on with `step`.
pub open spec fn handles(
    pre: ConversationState,
    msg: DgMessage,
    now: u128,
    post: ConversationState,
    step: Step,
) -> bool {
    match msg {
        DgMessage::Text(Some(StreamMessage::StreamingResponse(said))) => {
            let silent = said.spec_transcript().len() == 0;
            match pre.current_bot_action {
                CurrentBotAction::Listening => if silent {
                    listens_while_listening(pre, now, post, step)
                } else {
                    speaks_while_listening(pre, said, now, post, step)
                },
                CurrentBotAction::Talking => if silent {
                    post == pre && step == Step::Done(Ok(()))
                } else {
                    speaks_while_talking(pre, said, now, post, step)
                },
            }
        },
        DgMessage::Text(Some(StreamMessage::StreamingMeta(meta))) => {
            &&& post == (ConversationState { dg_request_id: Some(meta.request_id), ..pre })
            &&& step == Step::Done(Ok(()))
        },
        DgMessage::Text(None) => {
            &&& post == pre
            &&& step == Step::Done(Err(AppError("deserialization error")))
        },
        DgMessage::Other => post == pre && step == Step::Done(Ok(())),
    }
}

/// The message of the error with which handling ends where the action of `stage` did not deliver.
pub open spec fn refusal(stage: Stage) -> AppError {
    match stage {
        Stage::Acknowledging => AppError("Error sending twilio outbound message"),
        Stage::Going => AppError("Failed to stop message to turn manager."),
        Stage::Relaying => AppError("Failed to send transcript to turn manager."),
        Stage::Clearing(_) => AppError("Error sending twilio outbound message"),
        Stage::Opening => AppError("Failed to send transcript to turn manager."),
    }
}

/// `step` starts the answer to the conversation in `turns`, as part of the last turn.
pub open spec fn starts_answer(step: Step, turns: Seq<ConversationTurn>) -> bool {
    &&& step matches Step::Last(Action::StartBotSide { turn, conversation })
    &&& turn == turns.len() - 1
    &&& chat_view(conversation@) == conversation_context(turns_view(turns))
}

/// `post` is `pre` with one more turn, in which nothing has been said.
pub open spec fn opens_turn(pre: Seq<ConversationTurn>, post: Seq<ConversationTurn>) -> bool {
    &&& post.len() == pre.len() + 1
    &&& post.drop_last() == pre
    &&& post.last()@ == blank_turn()
}

/// What `resume` does, in the manner of `handles`.
pub open spec fn resumes(
    pre: ConversationState,
    stage: Stage,
    delivered: bool,
    now: u128,
    post: ConversationState,
    step: Step,
) -> bool {
    if !delivered {
        &&& post == pre
        &&& step == Step::Done(Err(refusal(stage)))
    } else {
        match stage {
            Stage::Acknowledging => {
                &&& post == pre
                &&& step == Step::Act(Action::SignalTurn(ConversationSignal::Go), Stage::Going)
            },
            Stage::Going => {
                &&& post == (ConversationState {
                    join_handles: post.join_handles,
                    current_bot_action: CurrentBotAction::Talking,
                    current_twilio_media_message_stream: true,
                    ..pre
                })
                &&& post.join_handles@ == pre.join_handles@.push(
                    CallTask::BotSide { turn: (pre.conversation_turns@.len() - 1) as usize },
                )
                &&& starts_answer(step, pre.conversation_turns@)
            },
            Stage::Relaying => post == pre && step == Step::Done(Ok(())),
            Stage::Clearing(said) => {
                &&& post == (ConversationState {
                    current_twilio_media_message_stream: false,
                    last_talking: now,
                    ..pre
                })
                &&& step == Step::Act(
                    Action::OpenTurn {
                        abort_media: true,
                        first: ConversationSignal::StreamingResponse(said),
                    },
                    Stage::Opening,
                )
            },
            Stage::Opening => {
                &&& post == (ConversationState {
                    join_handles: post.join_handles,
                    current_bot_action: CurrentBotAction::Listening,
                    conversation_turns: post.conversation_turns,
                    ..pre
                })
                &&& post.join_handles@ == pre.join_handles@.push(
                    CallTask::CallerSide { turn: (post.conversation_turns@.len() - 1) as usize },
                )
                &&& opens_turn(pre.conversation_turns@, post.conversation_turns@)
                &&& step == Step::Last(
                    Action::StartCallerSide { turn: (post.conversation_turns@.len() - 1) as usize },
                )
            },
        }
    }
}

impl DgMessage {
    /// A transcript in the message has a reading to go by.
    pub open spec fn wf(&self) -> bool {
        self matches DgMessage::Text(Some(StreamMessage::StreamingResponse(said)))
            ==> said.has_transcript()
    }
}

impl ConversationState {
    /// While we listen there is a turn to listen in, and no answer is being played. Summaries are
    /// of turns that there are.
    pub open spec fn wf(&self) -> bool {
        &&& self.current_bot_action is Listening ==> self.conversation_turns@.len() > 0
            && !self.current_twilio_media_message_stream
        &&& self.conversation_summaries matches Some(summaries) ==> summaries_wf(
            summaries@,
            self.conversation_turns@.len(),
        )
    }

    /// Handling a message can stand at `stage`.
    pub open spec fn at_stage(&self, stage: Stage) -> bool {
        &&& self.wf()
        &&& match stage {
            Stage::Acknowledging | Stage::Going | Stage::Relaying =>
                self.current_bot_action is Listening,
            Stage::Clearing(_) => self.current_bot_action is Talking
                && self.current_twilio_media_message_stream,
            Stage::Opening => self.current_bot_action is Talking
                && !self.current_twilio_media_message_stream,
        }
    }

    /// The state and step are such that `resume` can follow.
    pub open spec fn can_go_on(&self, step: Step) -> bool {
        &&& self.wf()
        &&& step matches Step::Act(_, stage) ==> self.at_stage(stage)
    }

    /// The request to Google for what the caller hears while an answer is being prepared.
    pub fn pause_request(app_state: &AppState) -> (request: SynthesizeSpeechRequest)
        ensures
            asks_to_speak(request, PAUSE_TEXT@, AudioConfigAudioEncoding::MULAW),
    {
        app_state.get_google_tts(PAUSE_TEXT, AudioConfigAudioEncoding::MULAW)
    }

    /// The state `state` is that of a call in which nothing has been said, at time `now`.
    pub open spec fn starts(
        state: ConversationState,
        twilio_stream_id: String,
        twilio_connect_payload: TwilioConnectPayload,
        now: u128,
    ) -> bool {
        &&& state == (ConversationState {
            pause_msg: state.pause_msg,
            join_handles: state.join_handles,
            current_bot_action: CurrentBotAction::Talking,
            conversation_turns: state.conversation_turns,
            conversation_summaries: None,
            last_talking: now,
            twilio_stream_id,
            twilio_connect_payload,
            dg_request_id: None,
            current_twilio_media_message_stream: false,
        })
        &&& state.join_handles@ == seq![CallTask::Outbound]
        &&& state.conversation_turns@.len() == 0
    }

    /// The message with which the state acknowledges a caller plays `pause_tts`, without its
    /// header, on the stream `twilio_stream_id`.
    pub open spec fn acknowledges_with(&self, pause_tts: Seq<char>, twilio_stream_id: Seq<char>) -> bool {
        plays(
            self.pause_msg,
            b64_bytes(pause_tts).skip(GOOGLE_WAV_HEADER_SZ as int),
            twilio_stream_id,
        )
    }

    /// The state of a call that begins at `now`, and in which a caller is acknowledged with
    /// `pause_msg`.
    pub fn with_pause_msg(
        twilio_stream_id: String,
        twilio_connect_payload: TwilioConnectPayload,
        pause_msg: TwilioOutbound,
        now: u128,
    ) -> (state: Self)
        ensures
            state.wf(),
            Self::starts(state, twilio_stream_id, twilio_connect_payload, now),
            state.pause_msg == pause_msg,
    {
        let mut join_handles: Vec<CallTask> = Vec::new();
        join_handles.push(CallTask::Outbound);
        ConversationState {
            pause_msg,
            join_handles,
            current_bot_action: CurrentBotAction::Talking,
            conversation_turns: Vec::new(),
            conversation_summaries: None,
            last_talking: now,
            twilio_stream_id,
            twilio_connect_payload,
            dg_request_id: None,
            current_twilio_media_message_stream: false,
        }
    }

    /// The state of a call that begins at `now`; `pause_tts` is what Google made of
    /// `pause_request`.
    pub fn new(
        twilio_stream_id: String,
        twilio_connect_payload: TwilioConnectPayload,
        pause_tts: String,
        now: u128,
    ) -> (state: Self)
        requires
            is_google_tts(pause_tts@),
        ensures
            state.wf(),
            Self::starts(state, twilio_stream_id, twilio_connect_payload, now),
            state.acknowledges_with(pause_tts@, twilio_stream_id@),
    {
        let pause_msg = google2twilio(pause_tts, twilio_stream_id.as_str());
        Self::with_pause_msg(twilio_stream_id, twilio_connect_payload, pause_msg, now)
    }

    /// The state as `new` makes it; `None` where `pause_tts` is not base64 or is shorter than the
    /// header in front of the audio.
    pub fn try_new(
        twilio_stream_id: String,
        twilio_connect_payload: TwilioConnectPayload,
        pause_tts: String,
        now: u128,
    ) -> (state: Option<Self>)
        ensures
            state is Some == is_google_tts(pause_tts@),
            state matches Some(s) ==> s.wf() && Self::starts(
                s,
                twilio_stream_id,
                twilio_connect_payload,
                now,
            ) && s.acknowledges_with(pause_tts@, twilio_stream_id@),
    {
        if has_google_header(pause_tts.as_str()) {
            Some(Self::new(twilio_stream_id, twilio_connect_payload, pause_tts, now))
        } else {
            None
        }
    }

    /// Aggregate conversation up till now; to be sent to OpenAI as context for continuation prompt
    pub fn get_conversation_context(&self) -> (conversation: Vec<OpenAIMessage>)
        ensures
            chat_view(conversation@) == conversation_context(turns_view(self.conversation_turns@)),
    {
        let mut conversation: Vec<OpenAIMessage> = Vec::new();
        conversation.push(
            OpenAIMessage {
                role: "system".to_string(),
                content: "You are a friendly and helpful assistant.".to_string(),
            },
        );
        let ghost views = turns_view(self.conversation_turns@);
        assert(views.take(0).flat_map(to_turn_messages()) =~= seq![]);
        assert(chat_view(conversation@) =~= conversation_context(views.take(0)));
        for i in 0..self.conversation_turns.len()
            invariant
                views == turns_view(self.conversation_turns@),
                chat_view(conversation@) == conversation_context(views.take(i as int)),
        {
            let turn = &self.conversation_turns[i];
            let ghost before = chat_view(conversation@);
            if !turn.caller_side.as_str().is_empty() {
                conversation.push(
                    OpenAIMessage { role: "user".to_string(), content: turn.caller_side.clone() },
                );
            }
            assert(chat_view(conversation@) =~= before + side_message("user"@, turn.caller_side@));
            if !turn.bot_side.as_str().is_empty() {
                conversation.push(
                    OpenAIMessage { role: "assistant".to_string(), content: turn.bot_side.clone() },
                );
            }
            assert(chat_view(conversation@) =~= before + turn_messages(turn@));
            proof {
                assert(views.take(i + 1) =~= views.take(i as int).push(turn@));
                views.take(i as int).lemma_flat_map_push(to_turn_messages(), turn@);
                assert(chat_view(conversation@) =~= conversation_context(views.take(i + 1)));
            }
        }
        assert(views.take(views.len() as int) =~= views);
        conversation
    }

    /// Logic that controls the bot's action when we detect that the user is listening while we are
    /// listening
    fn caller_listens_while_we_are_listening(&mut self, now: u128) -> (step: Step)
        requires
            old(self).wf(),
        ensures
            listens_while_listening(*old(self), now, *final(self), step),
    {
        match self.current_bot_action {
            CurrentBotAction::Listening => {
                // If not enough time has passed to give the caller polite space, then do
                // nothing.
                if elapsed_millis(self.last_talking, now) < POLITENESS_DELAY_MILLIS {
                    return Step::Done(Ok(()));
                }
                // Otherwise, acknowledge the caller, and prepare a response
                Step::Act(Action::SendOutbound(self.pause_msg.clone()), Stage::Acknowledging)
            },
            CurrentBotAction::Talking => Step::Done(
                Err(AppError("Conversation state out of whack")),
            ),
        }
    }

    /// Logic that controls the bot's action when we detect that the user is talking while we
    /// are listening
    fn caller_speaks_while_we_are_listening(
        &mut self,
        streaming_response: StreamingResponse,
        now: u128,
    ) -> (step: Step)
        requires
            old(self).wf(),
        ensures
            speaks_while_listening(*old(self), streaming_response, now, *final(self), step),
    {
        match self.current_bot_action {
            CurrentBotAction::Listening => {
                self.last_talking = now;
                Step::Act(
                    Action::SignalTurn(ConversationSignal::StreamingResponse(streaming_response)),
                    Stage::Relaying,
                )
            },
            CurrentBotAction::Talking => Step::Done(
                Err(AppError("Conversation state out of whack")),
            ),
        }
    }

    /// Logic that controls the bot's action when we detect that the user starts talking while we
    /// are talking
    fn caller_speaks_while_we_are_talking(
        &mut self,
        streaming_response: StreamingResponse,
        now: u128,
    ) -> (step: Step)
        requires
            old(self).wf(),
        ensures
            speaks_while_talking(*old(self), streaming_response, now, *final(self), step),
    {
        // 1. send twilio clear message and shut up
        if self.current_twilio_media_message_stream {
            let outbound_clear = TwilioOutbound::Clear {
                stream_sid: self.twilio_stream_id.clone(),
            };
            return Step::Act(
                Action::SendOutbound(outbound_clear),
                Stage::Clearing(streaming_response),
            );
        }
        // 2. listen in a new turn
        self.open_turn(streaming_response, false, now)
    }

    /// Notes that the caller is heard, and asks for a turn to listen in.
    fn open_turn(&mut self, streaming_response: StreamingResponse, abort_media: bool, now: u128) -> (
    step: Step)
        ensures
            *final(self) == (ConversationState { last_talking: now, ..*old(self) }),
            step == Step::Act(
                Action::OpenTurn {
                    abort_media,
                    first: ConversationSignal::StreamingResponse(streaming_response),
                },
                Stage::Opening,
            ),
    {
        self.last_talking = now;
        Step::Act(
            Action::OpenTurn {
                abort_media,
                first: ConversationSignal::StreamingResponse(streaming_response),
            },
            Stage::Opening,
        )
    }

    /// Decisions about next actions are a function of our current state (talking/listening) and
    /// what we get back from DG
    pub fn handle_dg_message(&mut self, dg_msg: DgMessage, now: u128) -> (step: Step)
        requires
            old(self).wf(),
            dg_msg.wf(),
        ensures
            handles(*old(self), dg_msg, now, *final(self), step),
            final(self).can_go_on(step),
    {
        match dg_msg {
            DgMessage::Text(Some(stream_message)) => match stream_message {
                StreamMessage::StreamingResponse(streaming_response) => {
                    let silent = streaming_response.transcript().is_empty();
                    match (self.current_bot_action, silent) {
                        (CurrentBotAction::Listening, true) => {
                            self.caller_listens_while_we_are_listening(now)
                        },
                        (CurrentBotAction::Listening, false) => {
                            self.caller_speaks_while_we_are_listening(streaming_response, now)
                        },
                        (CurrentBotAction::Talking, true) => Step::Done(Ok(())),
                        (CurrentBotAction::Talking, false) => {
                            self.caller_speaks_while_we_are_talking(streaming_response, now)
                        },
                    }
                },
                StreamMessage::StreamingMeta(streaming_meta) => {
                    self.dg_request_id = Some(streaming_meta.request_id);
                    Step::Done(Ok(()))
                },
            },
            DgMessage::Text(None) => Step::Done(Err(AppError("deserialization error"))),
            DgMessage::Other => Step::Done(Ok(())),
        }
    }

    /// Goes on with handling a message: `delivered` says whether the action before `stage`
    /// delivered what it had to.
    pub fn resume(&mut self, stage: Stage, delivered: bool, now: u128) -> (step: Step)
        requires
            old(self).at_stage(stage),
        ensures
            resumes(*old(self), stage, delivered, now, *final(self), step),
            final(self).can_go_on(step),
    {
        match stage {
            Stage::Acknowledging => {
                if !delivered {
                    return Step::Done(Err(AppError("Error sending twilio outbound message")));
                }
                Step::Act(Action::SignalTurn(ConversationSignal::Go), Stage::Going)
            },
            Stage::Going => {
                if !delivered {
                    return Step::Done(Err(AppError("Failed to stop message to turn manager.")));
                }
                self.current_bot_action = CurrentBotAction::Talking;
                let conversation = self.get_conversation_context();
                let turn: usize = self.conversation_turns.len() - 1;
                self.join_handles.push(CallTask::BotSide { turn });
                self.current_twilio_media_message_stream = true;
                Step::Last(Action::StartBotSide { turn, conversation })
            },
            Stage::Relaying => {
                if !delivered {
                    return Step::Done(Err(AppError("Failed to send transcript to turn manager.")));
                }
                Step::Done(Ok(()))
            },
            Stage::Clearing(streaming_response) => {
                if !delivered {
                    return Step::Done(Err(AppError("Error sending twilio outbound message")));
                }
                self.current_twilio_media_message_stream = false;
                self.open_turn(streaming_response, true, now)
            },
            Stage::Opening => {
                if !delivered {
                    return Step::Done(Err(AppError("Failed to send transcript to turn manager.")));
                }
                let ghost before = self.conversation_turns@;
                self.current_bot_action = CurrentBotAction::Listening;
                self.conversation_turns.push(ConversationTurn::new());
                assert(self.conversation_turns@.drop_last() =~= before);
                let turn: usize = self.conversation_turns.len() - 1;
                self.join_handles.push(CallTask::CallerSide { turn });
                Step::Last(Action::StartCallerSide { turn })
            },
        }
    }
}

} // verus!
