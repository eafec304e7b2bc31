//! The two tasks of a call: its audio goes to Deepgram, and what Deepgram makes of it is
//! answered.

use vstd::prelude::*;

use crate::b64::b64_decoded;
use crate::conversation_state::{
    handles, resumes, Action, ConversationState, DgMessage, Stage, Step,
};
use crate::error::AppError;
use crate::storage::{db_resume, db_start, DbAction, DbEvent, DbStage, DbStep};
use crate::summaries::{
    summaries_resume, summaries_start, SummaryAction, SummaryEvent, SummaryStage, SummaryStep,
};
use crate::twilio_types::{TwilioConnectPayload, TwilioItem, TwilioMessage};
use crate::types::{AppState, ConversationSummary};
use crate::utils::{b64_bytes, b64_decode_to_buf, is_b64};

verus! {

/// How the task that sends audio to Deepgram goes on.
pub enum AudioStep {
    /// Wait for what comes next from Twilio.
    Wait,
    /// Send this audio to Deepgram, then wait for what comes next from Twilio.
    Send(Vec<u8>),
    /// The task ends.
    Done(Result<(), AppError>),
}

impl TwilioItem {
    /// Audio is base64.
    pub open spec fn has_audio(&self) -> bool {
        self matches TwilioItem::Text(Some(TwilioMessage::Media { media })) ==> b64_decoded(
            media.payload@,
        ) is Some
    }
}

/// What the task that sends audio to Deepgram does about what comes from Twilio.
pub open spec fn audio_steps(item: TwilioItem, step: AudioStep) -> bool {
    match item {
        TwilioItem::Text(Some(TwilioMessage::Media { media })) => {
            &&& step matches AudioStep::Send(chunk)
            &&& chunk@ == b64_bytes(media.payload@)
        },
        _ => step == match item {
            TwilioItem::Text(Some(TwilioMessage::Stop { .. })) => AudioStep::Done(Ok(())),
            TwilioItem::Text(Some(TwilioMessage::Mark)) => AudioStep::Wait,
            TwilioItem::Text(Some(_)) => AudioStep::Done(
                Err(AppError("We should not be getting Connected or Start messages now!")),
            ),
            TwilioItem::Text(None) => AudioStep::Done(
                Err(AppError("Failed to parse incoming text message")),
            ),
            TwilioItem::Ping | TwilioItem::Other => AudioStep::Wait,
            TwilioItem::Failed => AudioStep::Done(
                Err(AppError("Failed to receive message from Twilio stream")),
            ),
            TwilioItem::End => AudioStep::Done(Ok(())),
        },
    }
}

/// Task that streams all Twilio media messages with encoded caller-side audio to Deepgram.
pub fn stream_twilio_audio_to_deepgram(item: TwilioItem) -> (step: AudioStep)
    requires
        item.has_audio(),
    ensures
        audio_steps(item, step),
{
    match item {
        TwilioItem::Text(Some(message)) => match message {
            TwilioMessage::Media { media } => {
                let mut chunk: Vec<u8> = Vec::new();
                b64_decode_to_buf(media.payload, &mut chunk);
                assert(chunk@ =~= b64_bytes(media.payload@));
                AudioStep::Send(chunk)
            },
            TwilioMessage::Stop { .. } => AudioStep::Done(Ok(())),
            TwilioMessage::Mark => AudioStep::Wait,
            _ => AudioStep::Done(
                Err(AppError("We should not be getting Connected or Start messages now!")),
            ),
        },
        TwilioItem::Text(None) => AudioStep::Done(
            Err(AppError("Failed to parse incoming text message")),
        ),
        TwilioItem::Ping => AudioStep::Wait,
        TwilioItem::Other => AudioStep::Wait,
        TwilioItem::Failed => AudioStep::Done(
            Err(AppError("Failed to receive message from Twilio stream")),
        ),
        TwilioItem::End => AudioStep::Done(Ok(())),
    }
}

/// Decides as `stream_twilio_audio_to_deepgram` does; `None` where audio is not base64.
pub fn try_stream_twilio_audio_to_deepgram(item: TwilioItem) -> (step: Option<AudioStep>)
    ensures
        step is Some == item.has_audio(),
        step matches Some(s) ==> audio_steps(item, s),
{
    let ok = match &item {
        TwilioItem::Text(Some(TwilioMessage::Media { media })) => is_b64(media.payload.as_str()),
        _ => true,
    };
    if ok {
        Some(stream_twilio_audio_to_deepgram(item))
    } else {
        None
    }
}

/// A text message for the caller.
pub struct SmsRequest {
    /// Where to post it.
    pub url: String,
    pub from: String,
    pub to: String,
    pub body: String,
}

/// What comes next on the Deepgram stream.
pub enum DgItem {
    Message(DgMessage),
    /// Receiving failed.
    Failed,
    /// There is no more.
    End,
}

/// What is known to come next in a call, once it is known what came of an action.
pub enum CallStage {
    /// The next message of Deepgram is waited for.
    Listening,
    /// A message is being handled.
    Handling(Stage),
    /// A message is handled with this action.
    Handled,
    /// The call is over, and summarized.
    Summarizing(SummaryStage),
    /// The caller is sent the summaries, and so many have been sent.
    Texting { sent: usize },
    /// The call is stored.
    Storing(DbStage),
}

/// What the surrounding program is to do.
pub enum CallAction {
    /// Wait for what comes next on the Deepgram stream.
    ReadDg,
    Converse(Action),
    Summarize(SummaryAction),
    /// Send a text message. It does not matter whether that succeeds.
    Text(SmsRequest),
    Store(DbAction),
}

/// What came of an action. `now` is the time.
pub enum CallEvent {
    Dg { item: DgItem, now: u128 },
    Performed { delivered: bool, now: u128 },
    Summary(SummaryEvent),
    Texted,
    Db(DbEvent),
}

/// How a call goes on.
pub enum CallStep {
    /// Do this, and come back at the stage.
    Act(CallAction, CallStage),
    /// The call is done.
    Done(Result<(), AppError>),
}

/// `sms` tells the caller, in the name of the number that was called, what an answer was about.
pub open spec fn texts_summary(
    sms: SmsRequest,
    account_sid: Seq<char>,
    payload: TwilioConnectPayload,
    summary: ConversationSummary,
) -> bool {
    &&& sms.url@ == "https://api.twilio.com/2010-04-01/Accounts/"@ + account_sid
        + "/Messages.json"@
    &&& sms.from == payload.to
    &&& sms.to == payload.from
    &&& sms.body@ == summary.topic@ + ": "@ + summary.summary@
}

/// The text message with a summary.
pub fn sms_request(
    account_sid: &str,
    payload: &TwilioConnectPayload,
    summary: &ConversationSummary,
) -> (sms: SmsRequest)
    ensures
        texts_summary(sms, account_sid@, *payload, *summary),
{
    let mut url = "https://api.twilio.com/2010-04-01/Accounts/".to_string();
    url.append(account_sid);
    url.append("/Messages.json");
    let mut body = summary.topic.clone();
    body.append(": ");
    body.append(summary.summary.as_str());
    SmsRequest { url, from: payload.to.clone(), to: payload.from.clone(), body }
}

/// Takes out what Twilio posted when the call came in whose media stream now starts.
pub fn take_connect_payload(app_state: &mut AppState, call_sid: &str) -> (payload: Result<
    TwilioConnectPayload,
    AppError,
>)
    ensures
        *final(app_state) == (AppState { streams: final(app_state).streams, ..*old(app_state) }),
        final(app_state).streams@ == old(app_state).streams@.remove(call_sid@),
        payload == if old(app_state).streams@.contains_key(call_sid@) {
            Ok(old(app_state).streams@[call_sid@])
        } else {
            Err(AppError("app state streams error"))
        },
{
    match app_state.streams.remove(call_sid) {
        Some(payload) => Ok(payload),
        None => Err(AppError("app state streams error")),
    }
}

/// What `step` means for the message that is being handled, where it means anything for it.
pub open spec fn dg_step(step: CallStep) -> Option<Step> {
    match step {
        CallStep::Act(CallAction::Converse(action), CallStage::Handling(stage)) => Some(
            Step::Act(action, stage),
        ),
        CallStep::Act(CallAction::Converse(action), CallStage::Handled) => Some(
            Step::Last(action),
        ),
        CallStep::Act(CallAction::ReadDg, CallStage::Listening) => Some(Step::Done(Ok(()))),
        CallStep::Done(Err(e)) => Some(Step::Done(Err(e))),
        _ => None,
    }
}

/// What `step` means for the summaries: if nothing, they are made.
pub open spec fn summary_step(step: CallStep) -> SummaryStep {
    match step {
        CallStep::Act(CallAction::Summarize(action), CallStage::Summarizing(stage)) =>
            SummaryStep::Act(action, stage),
        _ => SummaryStep::Done,
    }
}

/// What `step` means for storing the call, where it means anything for it.
pub open spec fn db_step(step: CallStep) -> Option<DbStep> {
    match step {
        CallStep::Act(CallAction::Store(action), CallStage::Storing(stage)) => Some(
            DbStep::Act(action, stage),
        ),
        CallStep::Done(result) => Some(DbStep::Done(result)),
        _ => None,
    }
}

/// The call goes on with the text message of summary `i`; where there is no such summary, the
/// call is stored.
pub open spec fn texts_or_stores(
    state: ConversationState,
    account_sid: Seq<char>,
    i: int,
    step: CallStep,
) -> bool {
    let summaries = state.conversation_summaries->0@;
    if i < summaries.len() {
        &&& step matches CallStep::Act(CallAction::Text(sms), CallStage::Texting { sent })
        &&& sent == i + 1
        &&& texts_summary(sms, account_sid, state.twilio_connect_payload, summaries[i])
    } else {
        db_step(step) matches Some(s) && db_start(state, s)
    }
}

/// What `manage_conversation` does: in state `pre` it makes `post` of the state and goes on with
/// `step`.
pub open spec fn call_steps(
    pre: ConversationState,
    account_sid: Seq<char>,
    stage: CallStage,
    event: CallEvent,
    post: ConversationState,
    step: CallStep,
) -> bool {
    match (stage, event) {
        (CallStage::Listening, CallEvent::Dg { item, now }) => match item {
            DgItem::Message(msg) => dg_step(step) matches Some(s) && handles(
                pre,
                msg,
                now,
                post,
                s,
            ),
            DgItem::Failed => {
                &&& post == pre
                &&& step == CallStep::Done(Err(AppError("dg stream error")))
            },
            DgItem::End => {
                &&& post == pre
                &&& summaries_start(pre, summary_step(step))
                &&& summary_step(step) is Done ==> texts_or_stores(post, account_sid, 0, step)
            },
        },
        (CallStage::Handling(stage), CallEvent::Performed { delivered, now }) => dg_step(
            step,
        ) matches Some(s) && resumes(pre, stage, delivered, now, post, s),
        (CallStage::Handled, CallEvent::Performed { .. }) => {
            &&& post == pre
            &&& step == CallStep::Act(CallAction::ReadDg, CallStage::Listening)
        },
        (CallStage::Summarizing(stage), CallEvent::Summary(event)) => {
            &&& summaries_resume(pre, stage, event, post, summary_step(step))
            &&& summary_step(step) is Done ==> texts_or_stores(post, account_sid, 0, step)
        },
        (CallStage::Texting { sent }, CallEvent::Texted) => {
            &&& post == pre
            &&& texts_or_stores(pre, account_sid, sent as int, step)
        },
        (CallStage::Storing(stage), CallEvent::Db(event)) => {
            &&& post == pre
            &&& db_step(step) matches Some(s)
            &&& db_resume(pre, stage, event, s)
        },
        _ => false,
    }
}

impl CallStage {
    /// `event` is what comes of the action before the stage.
    pub open spec fn awaits(&self, event: CallEvent) -> bool {
        match (*self, event) {
            (CallStage::Listening, CallEvent::Dg { item, .. }) => item matches DgItem::Message(msg)
                ==> msg.wf(),
            (CallStage::Handling(_), CallEvent::Performed { .. }) => true,
            (CallStage::Handled, CallEvent::Performed { .. }) => true,
            (CallStage::Summarizing(stage), CallEvent::Summary(event)) => stage.awaits(event)
                && event.wf(),
            (CallStage::Texting { .. }, CallEvent::Texted) => true,
            (CallStage::Storing(stage), CallEvent::Db(event)) => stage.awaits(event),
            _ => false,
        }
    }
}

impl ConversationState {
    /// The call can stand at `stage`.
    pub open spec fn at_call_stage(&self, stage: CallStage) -> bool {
        &&& self.wf()
        &&& match stage {
            CallStage::Listening | CallStage::Handled => true,
            CallStage::Handling(stage) => self.at_stage(stage),
            CallStage::Summarizing(stage) => self.at_summary_stage(stage),
            CallStage::Texting { .. } => self.conversation_summaries is Some,
            CallStage::Storing(stage) => self.at_db_stage(stage),
        }
    }

    /// The state and step are such that `manage_conversation` can follow.
    pub open spec fn can_go_on_with_call(&self, step: CallStep) -> bool {
        step matches CallStep::Act(_, stage) ==> self.at_call_stage(stage)
    }

    /// Goes on with the text message of summary `i`, or with storing the call.
    fn text_or_store(&self, account_sid: &str, i: usize) -> (step: CallStep)
        requires
            self.wf(),
            self.conversation_summaries is Some,
        ensures
            texts_or_stores(*self, account_sid@, i as int, step),
            self.can_go_on_with_call(step),
            summary_step(step) is Done,
    {
        if let Some(summaries) = &self.conversation_summaries {
            if i < summaries.len() {
                let sms = sms_request(account_sid, &self.twilio_connect_payload, &summaries[i]);
                return CallStep::Act(CallAction::Text(sms), CallStage::Texting { sent: i + 1 });
            }
        }
        match self.insert_db_row() {
            DbStep::Act(action, stage) => CallStep::Act(
                CallAction::Store(action),
                CallStage::Storing(stage),
            ),
            DbStep::Done(result) => CallStep::Done(result),
        }
    }

    /// Goes on with the summaries, or where they are made with what is to be done with them.
    fn summarize(&self, account_sid: &str, next: SummaryStep) -> (step: CallStep)
        requires
            self.can_go_on_with_summaries(next),
        ensures
            summary_step(step) == next,
            next is Done ==> texts_or_stores(*self, account_sid@, 0, step),
            self.can_go_on_with_call(step),
    {
        match next {
            SummaryStep::Act(action, stage) => CallStep::Act(
                CallAction::Summarize(action),
                CallStage::Summarizing(stage),
            ),
            SummaryStep::Done => self.text_or_store(account_sid, 0),
        }
    }

    /// Goes on with the message that is being handled, or where it is handled with the next.
    fn converse(&self, next: Step) -> (step: CallStep)
        requires
            self.can_go_on(next),
        ensures
            dg_step(step) == Some(next),
            self.can_go_on_with_call(step),
    {
        match next {
            Step::Act(action, stage) => CallStep::Act(
                CallAction::Converse(action),
                CallStage::Handling(stage),
            ),
            Step::Last(action) => CallStep::Act(CallAction::Converse(action), CallStage::Handled),
            Step::Done(Ok(done)) => {
                assert(done == ());
                CallStep::Act(CallAction::ReadDg, CallStage::Listening)
            },
            Step::Done(Err(e)) => CallStep::Done(Err(e)),
        }
    }

    /// Task that handles the back and forth of the bot's interaction with a caller, and when the
    /// call is over sends the caller what it was about and stores it. `event` is what came of the
    /// action before `stage`; a call begins with `CallStage::Listening`.
    pub fn manage_conversation(
        &mut self,
        account_sid: &str,
        stage: CallStage,
        event: CallEvent,
    ) -> (step: CallStep)
        requires
            old(self).at_call_stage(stage),
            stage.awaits(event),
        ensures
            call_steps(*old(self), account_sid@, stage, event, *final(self), step),
            final(self).can_go_on_with_call(step),
    {
        match (stage, event) {
            (CallStage::Listening, CallEvent::Dg { item, now }) => match item {
                DgItem::Message(msg) => {
                    let next = self.handle_dg_message(msg, now);
                    self.converse(next)
                },
                DgItem::Failed => CallStep::Done(Err(AppError("dg stream error"))),
                DgItem::End => {
                    let next = self.get_conversation_summaries();
                    self.summarize(account_sid, next)
                },
            },
            (CallStage::Handling(stage), CallEvent::Performed { delivered, now }) => {
                let next = self.resume(stage, delivered, now);
                self.converse(next)
            },
            (CallStage::Handled, CallEvent::Performed { .. }) => CallStep::Act(
                CallAction::ReadDg,
                CallStage::Listening,
            ),
            (CallStage::Summarizing(stage), CallEvent::Summary(event)) => {
                let next = self.resume_summaries(stage, event);
                self.summarize(account_sid, next)
            },
            (CallStage::Texting { sent }, CallEvent::Texted) => self.text_or_store(
                account_sid,
                sent,
            ),
            (CallStage::Storing(stage), CallEvent::Db(event)) => match self.resume_db_row(
                stage,
                event,
            ) {
                DbStep::Act(action, stage) => CallStep::Act(
                    CallAction::Store(action),
                    CallStage::Storing(stage),
                ),
                DbStep::Done(result) => CallStep::Done(result),
            },
            _ => CallStep::Done(Ok(())),
        }
    }
}

} // verus!
