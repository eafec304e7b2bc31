//! What the bot's answers were about: after a call OpenAI is asked for a topic and a summary of
//! each.

use vstd::prelude::*;

use crate::conversation_state::{said_meanwhile, summaries_wf, ConversationState};
use crate::error::AppError;
use crate::openai_types::{
    chat_view, OpenAIBatchResponse, OpenAIMessage, OpenAIMessageView, OpenAIPayload,
};
use crate::types::ConversationSummary;

verus! {

/// How often unfinished tasks are looked after before summaries are made without them.
pub const MAX_TRIES: u32 = 5;

/// How long unfinished tasks get from one look to the next.
pub const TRY_AGAIN_MILLIS: u64 = 1_000;

/// The question for the topic of an answer.
pub const TOPIC_PROMPT: &'static str =
    "In one to three words, please give the topic of the following:\n\n";

/// The question for the summary of an answer.
pub const SUMMARY_PROMPT: &'static str =
    "In fewer than twenty words, please give a summary of the following:\n\n";

/// What came of a request to OpenAI.
pub enum OpenAIReply {
    /// The request could not be sent.
    NotSent,
    /// The response could not be decoded.
    Undecodable,
    Batch(OpenAIBatchResponse),
}

/// What OpenAI was asked about an answer.
pub enum EditorQuestion {
    Topic,
    /// The summary, when the topic is known.
    Summary { topic: String },
}

/// How asking about an answer goes on.
pub enum EditorStep {
    /// Send this request, which puts the question.
    Ask(OpenAIPayload, EditorQuestion),
    /// The answer is summarized, or cannot be.
    Done(Result<ConversationSummary, AppError>),
}

/// What is known to come next in making summaries, once it is known what came of an action.
pub enum SummaryStage {
    /// The tasks are looked after, as often before as `tries` says.
    Checking { tries: u32 },
    /// The tasks were looked after, as often as `tries` says, and get more time.
    Sleeping { tries: u32 },
    /// OpenAI is asked about what the bot said in turn `idx`; `summaries` are those of the turns
    /// before.
    Asking {
        idx: usize,
        bot_side: String,
        question: EditorQuestion,
        summaries: Vec<ConversationSummary>,
    },
}

/// What the surrounding program is to do.
pub enum SummaryAction {
    /// Find out whether all tasks in `join_handles` have finished.
    CheckTasks,
    Sleep { millis: u64 },
    Ask(OpenAIPayload),
}

/// What came of an action.
pub enum SummaryEvent {
    Checked { all_finished: bool },
    Slept,
    Replied(OpenAIReply),
}

/// How making summaries goes on.
pub enum SummaryStep {
    /// Do this, and come back at the stage.
    Act(SummaryAction, SummaryStage),
    /// The summaries are made.
    Done,
}

/// `payload` puts a question to a knowledgeable editor.
pub open spec fn asks_editor(payload: OpenAIPayload, question: Seq<char>) -> bool {
    &&& payload.model@ == "gpt-3.5-turbo"@
    &&& chat_view(payload.messages@) == seq![
        OpenAIMessageView { role: "system"@, content: "You are a knowledgeable editor."@ },
        OpenAIMessageView { role: "assistant"@, content: question },
    ]
    &&& payload.stream is None
    &&& payload.max_tokens is None
}

/// The request that puts the question `prompt` about `text`.
pub fn editor_payload(prompt: &str, text: &str) -> (payload: OpenAIPayload)
    ensures
        asks_editor(payload, prompt@ + text@),
{
    let mut content = prompt.to_string();
    content.append(text);
    let mut messages: Vec<OpenAIMessage> = Vec::new();
    messages.push(
        OpenAIMessage {
            role: "system".to_string(),
            content: "You are a knowledgeable editor.".to_string(),
        },
    );
    messages.push(OpenAIMessage { role: "assistant".to_string(), content });
    assert(chat_view(messages@) =~= seq![
        OpenAIMessageView { role: "system"@, content: "You are a knowledgeable editor."@ },
        OpenAIMessageView { role: "assistant"@, content: prompt@ + text@ },
    ]);
    OpenAIPayload { model: "gpt-3.5-turbo".to_string(), messages, stream: None, max_tokens: None }
}

impl OpenAIReply {
    /// A response has something to say.
    pub open spec fn wf(&self) -> bool {
        self matches OpenAIReply::Batch(batch) ==> batch.choices@.len() > 0
    }
}

/// What a response says.
pub open spec fn batch_answer(batch: OpenAIBatchResponse) -> String {
    batch.choices@[0].message.content
}

/// What asking about the answer `bot_side` of turn `idx` does when `reply` comes to `question`.
pub open spec fn editor_steps(
    idx: usize,
    bot_side: Seq<char>,
    question: EditorQuestion,
    reply: OpenAIReply,
    step: EditorStep,
) -> bool {
    match (reply, question) {
        (OpenAIReply::NotSent, _) => step == EditorStep::Done(
            Err(AppError("Failed to send request to OpenAI")),
        ),
        (OpenAIReply::Undecodable, _) => step == EditorStep::Done(Err(AppError("deserialize"))),
        (OpenAIReply::Batch(batch), EditorQuestion::Topic) => {
            &&& step matches EditorStep::Ask(payload, next)
            &&& asks_editor(payload, SUMMARY_PROMPT@ + bot_side)
            &&& next == (EditorQuestion::Summary { topic: batch_answer(batch) })
        },
        (OpenAIReply::Batch(batch), EditorQuestion::Summary { topic }) => step == EditorStep::Done(
            Ok(ConversationSummary { idx, topic, summary: batch_answer(batch) }),
        ),
    }
}

/// Goes on with asking about the answer of a turn.
pub fn get_conversation_summary_for_bot_side(
    idx: usize,
    bot_side: &str,
    question: EditorQuestion,
    reply: OpenAIReply,
) -> (step: EditorStep)
    requires
        reply.wf(),
    ensures
        editor_steps(idx, bot_side@, question, reply, step),
{
    let answer = match reply {
        OpenAIReply::NotSent => {
            return EditorStep::Done(Err(AppError("Failed to send request to OpenAI")));
        },
        OpenAIReply::Undecodable => {
            return EditorStep::Done(Err(AppError("deserialize")));
        },
        OpenAIReply::Batch(resp) => resp.choices[0].message.content.clone(),
    };
    match question {
        EditorQuestion::Topic => EditorStep::Ask(
            editor_payload(SUMMARY_PROMPT, bot_side),
            EditorQuestion::Summary { topic: answer },
        ),
        EditorQuestion::Summary { topic } => EditorStep::Done(
            Ok(ConversationSummary { idx, topic, summary: answer }),
        ),
    }
}

/// Making summaries goes on with turn `idx`, when `summaries` are those of the turns before: its
/// answer is asked about, or where there is no such turn the summaries are made.
pub open spec fn asks_about_turn(
    pre: ConversationState,
    idx: int,
    summaries: Seq<ConversationSummary>,
    post: ConversationState,
    step: SummaryStep,
) -> bool {
    if idx < pre.conversation_turns@.len() {
        &&& post == pre
        &&& step matches SummaryStep::Act(
            SummaryAction::Ask(payload),
            SummaryStage::Asking { idx: next, bot_side, question, summaries: so_far },
        )
        &&& asks_editor(payload, TOPIC_PROMPT@ + bot_side@)
        &&& next == idx
        &&& bot_side == pre.conversation_turns@[idx].bot_side
        &&& question is Topic
        &&& so_far@ == summaries
    } else {
        &&& post == (ConversationState {
            conversation_summaries: post.conversation_summaries,
            ..pre
        })
        &&& post.conversation_summaries matches Some(made)
        &&& made@ == summaries
        &&& step is Done
    }
}

/// What `get_conversation_summaries` does.
pub open spec fn summaries_start(pre: ConversationState, step: SummaryStep) -> bool {
    step == if pre.conversation_summaries is Some {
        SummaryStep::Done
    } else {
        SummaryStep::Act(SummaryAction::CheckTasks, SummaryStage::Checking { tries: 0 })
    }
}

/// What `resume_summaries` does: in state `pre` it makes `post` of the state and goes on with
/// `step`.
pub open spec fn summaries_resume(
    pre: ConversationState,
    stage: SummaryStage,
    event: SummaryEvent,
    post: ConversationState,
    step: SummaryStep,
) -> bool {
    match (stage, event) {
        (SummaryStage::Checking { tries }, SummaryEvent::Checked { all_finished }) =>
            if all_finished {
                asks_about_turn(pre, 0, seq![], post, step)
            } else {
                &&& post == pre
                &&& step == SummaryStep::Act(
                    SummaryAction::Sleep { millis: TRY_AGAIN_MILLIS },
                    SummaryStage::Sleeping { tries: (tries + 1) as u32 },
                )
            },
        (SummaryStage::Sleeping { tries }, SummaryEvent::Slept) => if tries < MAX_TRIES {
            &&& post == pre
            &&& step == SummaryStep::Act(
                SummaryAction::CheckTasks,
                SummaryStage::Checking { tries },
            )
        } else {
            asks_about_turn(pre, 0, seq![], post, step)
        },
        (
            SummaryStage::Asking { idx, bot_side, question, summaries },
            SummaryEvent::Replied(reply),
        ) => match (reply, question) {
            (OpenAIReply::Batch(batch), EditorQuestion::Topic) => {
                &&& post == pre
                &&& step matches SummaryStep::Act(SummaryAction::Ask(payload), next)
                &&& asks_editor(payload, SUMMARY_PROMPT@ + bot_side@)
                &&& next == (SummaryStage::Asking {
                    idx,
                    bot_side,
                    question: EditorQuestion::Summary { topic: batch_answer(batch) },
                    summaries,
                })
            },
            (OpenAIReply::Batch(batch), EditorQuestion::Summary { topic }) => asks_about_turn(
                pre,
                idx + 1,
                summaries@.push(
                    ConversationSummary { idx, topic, summary: batch_answer(batch) },
                ),
                post,
                step,
            ),
            _ => asks_about_turn(pre, idx + 1, summaries@, post, step),
        },
        _ => false,
    }
}

impl SummaryEvent {
    /// A response has something to say.
    pub open spec fn wf(&self) -> bool {
        self matches SummaryEvent::Replied(reply) ==> reply.wf()
    }
}

impl SummaryStage {
    /// `event` is what comes of the action before the stage.
    pub open spec fn awaits(&self, event: SummaryEvent) -> bool {
        match self {
            SummaryStage::Checking { .. } => event is Checked,
            SummaryStage::Sleeping { .. } => event is Slept,
            SummaryStage::Asking { .. } => event is Replied,
        }
    }
}

impl ConversationState {
    /// Making summaries can stand at `stage`.
    pub open spec fn at_summary_stage(&self, stage: SummaryStage) -> bool {
        &&& self.wf()
        &&& match stage {
            SummaryStage::Checking { tries } => tries < MAX_TRIES,
            SummaryStage::Sleeping { tries } => tries <= MAX_TRIES,
            SummaryStage::Asking { idx, summaries, .. } => {
                &&& idx < self.conversation_turns@.len()
                &&& summaries_wf(summaries@, idx as nat)
            },
        }
    }

    /// The state and step are such that `resume_summaries` can follow, or the summaries are there.
    pub open spec fn can_go_on_with_summaries(&self, step: SummaryStep) -> bool {
        match step {
            SummaryStep::Act(_, stage) => self.at_summary_stage(stage),
            SummaryStep::Done => self.wf() && self.conversation_summaries is Some,
        }
    }

    /// Asks about turn `idx`, or ends where there is no such turn.
    fn ask_about_turn(&mut self, idx: usize, summaries: Vec<ConversationSummary>) -> (step:
        SummaryStep)
        requires
            old(self).wf(),
            idx <= old(self).conversation_turns@.len(),
            summaries_wf(summaries@, idx as nat),
        ensures
            asks_about_turn(*old(self), idx as int, summaries@, *final(self), step),
            final(self).can_go_on_with_summaries(step),
    {
        if idx < self.conversation_turns.len() {
            let bot_side = self.conversation_turns[idx].bot_side.clone();
            let payload = editor_payload(TOPIC_PROMPT, bot_side.as_str());
            SummaryStep::Act(
                SummaryAction::Ask(payload),
                SummaryStage::Asking { idx, bot_side, question: EditorQuestion::Topic, summaries },
            )
        } else {
            self.conversation_summaries = Some(summaries);
            SummaryStep::Done
        }
    }

    /// Has summaries made of what the bot said in each turn, unless that was done before. Tasks
    /// that have not finished get some time first.
    pub fn get_conversation_summaries(&mut self) -> (step: SummaryStep)
        requires
            old(self).wf(),
        ensures
            *final(self) == *old(self),
            summaries_start(*old(self), step),
            final(self).can_go_on_with_summaries(step),
    {
        if self.conversation_summaries.is_some() {
            SummaryStep::Done
        } else {
            SummaryStep::Act(SummaryAction::CheckTasks, SummaryStage::Checking { tries: 0 })
        }
    }

    /// Goes on with making summaries: `event` is what came of the action before `stage`.
    pub fn resume_summaries(&mut self, stage: SummaryStage, event: SummaryEvent) -> (step:
        SummaryStep)
        requires
            old(self).at_summary_stage(stage),
            stage.awaits(event),
            event.wf(),
        ensures
            summaries_resume(*old(self), stage, event, *final(self), step),
            final(self).can_go_on_with_summaries(step),
    {
        match (stage, event) {
            (SummaryStage::Checking { tries }, SummaryEvent::Checked { all_finished }) => {
                if all_finished {
                    self.ask_about_turn(0, Vec::new())
                } else {
                    SummaryStep::Act(
                        SummaryAction::Sleep { millis: TRY_AGAIN_MILLIS },
                        SummaryStage::Sleeping { tries: tries + 1 },
                    )
                }
            },
            (SummaryStage::Sleeping { tries }, SummaryEvent::Slept) => {
                if tries < MAX_TRIES {
                    SummaryStep::Act(SummaryAction::CheckTasks, SummaryStage::Checking { tries })
                } else {
                    self.ask_about_turn(0, Vec::new())
                }
            },
            (
                SummaryStage::Asking { idx, bot_side, question, summaries },
                SummaryEvent::Replied(reply),
            ) => {
                assert(idx < self.conversation_turns.len());
                let step = get_conversation_summary_for_bot_side(
                    idx,
                    bot_side.as_str(),
                    question,
                    reply,
                );
                match step {
                    EditorStep::Ask(payload, question) => SummaryStep::Act(
                        SummaryAction::Ask(payload),
                        SummaryStage::Asking { idx, bot_side, question, summaries },
                    ),
                    EditorStep::Done(Ok(summary)) => {
                        let mut summaries = summaries;
                        summaries.push(summary);
                        self.ask_about_turn(idx + 1, summaries)
                    },
                    EditorStep::Done(Err(_)) => self.ask_about_turn(idx + 1, summaries),
                }
            },
            _ => SummaryStep::Done,
        }
    }
}

/// Once made, summaries are not made again: OpenAI is not asked a second time.
pub proof fn law_summaries_are_made_once(pre: ConversationState, step: SummaryStep)
    requires
        pre.conversation_summaries is Some,
        summaries_start(pre, step),
    ensures
        step is Done,
{
}

/// A turn whose topic and summary both come back contributes exactly these, and whatever fails
/// costs no more than the summary of its own turn: the next turn is asked about in any case.
pub proof fn law_each_turn_stands_for_itself(
    state: ConversationState,
    stage: SummaryStage,
    topic: OpenAIReply,
    between: ConversationState,
    second: SummaryStep,
    later: ConversationState,
    summary: OpenAIReply,
    post: ConversationState,
    last: SummaryStep,
)
    requires
        state.at_summary_stage(stage),
        stage matches SummaryStage::Asking { question, .. } && question is Topic,
        summaries_resume(state, stage, SummaryEvent::Replied(topic), between, second),
        topic is Batch ==> {
            &&& second matches SummaryStep::Act(_, next)
            &&& said_meanwhile(between, later)
            &&& summaries_resume(later, next, SummaryEvent::Replied(summary), post, last)
        },
        !(topic is Batch) ==> later == state && post == between && last == second,
    ensures
        stage matches SummaryStage::Asking { idx, summaries, .. } && asks_about_turn(
            later,
            idx + 1,
            if topic is Batch && summary is Batch {
                summaries@.push(
                    ConversationSummary {
                        idx,
                        topic: topic->Batch_0.choices@[0].message.content,
                        summary: summary->Batch_0.choices@[0].message.content,
                    },
                )
            } else {
                summaries@
            },
            post,
            last,
        ),
{
}

/// Unfinished tasks are waited for at most five times, a second each; then summaries are made
/// without them.
pub proof fn law_the_wait_is_bounded(
    state: ConversationState,
    stage: SummaryStage,
    event: SummaryEvent,
    post: ConversationState,
    step: SummaryStep,
)
    requires
        state.at_summary_stage(stage),
        summaries_resume(state, stage, event, post, step),
    ensures
        step matches SummaryStep::Act(SummaryAction::Sleep { millis }, next) ==> {
            &&& millis == 1_000
            &&& stage matches SummaryStage::Checking { tries }
            &&& tries < 5
            &&& next == (SummaryStage::Sleeping { tries: (tries + 1) as u32 })
        },
        step matches SummaryStep::Act(SummaryAction::CheckTasks, next) ==> {
            &&& stage matches SummaryStage::Sleeping { tries }
            &&& tries < 5
            &&& next == (SummaryStage::Checking { tries })
        },
{
}

} // verus!
