//! What holds of a call as a whole.

use uuid::Uuid;
use vstd::prelude::*;

use crate::bot_side::{
    all_received, answer_runs, answer_text, bot_side_steps, law_whole_answer_is_collected,
    BotSideAction, BotSideEvent, BotSideManager,
};
use crate::caller_side::{
    final_transcripts, law_caller_side_is_final_transcripts, side_after, side_after_all, spaced,
};
use crate::conversation_state::{
    conversation_context, handles, opens_turn, resumes, said_meanwhile, side_message,
    starts_answer, summaries_wf, system_message, to_turn_messages,
    turn_messages, turns_grow, Action, CallTask, ConversationState, DgMessage, Stage, Step,
};
use crate::deepgram_types::{StreamMessage, StreamingMeta, StreamingResponse};
use crate::error::AppError;
use crate::storage::{
    db_resume, db_start, rows_of, summaries_of, summary_of, DbAction, DbEvent, DbStage,
    DbStep, TurnRows,
};
use crate::summaries::{
    asks_about_turn, summaries_resume, OpenAIReply, SummaryEvent, SummaryStage,
    SummaryStep,
};
use crate::tasks::{
    call_steps, texts_or_stores, CallAction, CallEvent, CallStage, CallStep, DgItem, SmsRequest,
};
use crate::twilio_types::{TwilioConnectPayload, TwilioOutbound};
use crate::types::{
    ConversationSignal, ConversationSummary, ConversationTurn, ConversationTurnView,
    CurrentBotAction,
};

verus! {

/// The message that says what the caller said.
pub open spec fn heard(said: StreamingResponse) -> DgMessage {
    DgMessage::Text(Some(StreamMessage::StreamingResponse(said)))
}

/// The stage of a step that has one.
pub open spec fn stage_of(step: Step) -> Stage
    recommends
        step is Act,
{
    step->Act_1
}

proof fn lemma_turns_grow(a: Seq<ConversationTurn>, b: Seq<ConversationTurn>, c: Seq<ConversationTurn>)
    requires
        turns_grow(a, b),
        turns_grow(b, c),
    ensures
        turns_grow(a, c),
{
    assert forall|i: int| 0 <= i < a.len() implies (#[trigger] a[i]).caller_side@.is_prefix_of(
        c[i].caller_side@,
    ) && a[i].bot_side@.is_prefix_of(c[i].bot_side@) by {
        assert(b[i].caller_side@.is_prefix_of(c[i].caller_side@));
        lemma_prefix(a[i].caller_side@, b[i].caller_side@, c[i].caller_side@);
        lemma_prefix(a[i].bot_side@, b[i].bot_side@, c[i].bot_side@);
    }
}

proof fn lemma_prefix(a: Seq<char>, b: Seq<char>, c: Seq<char>)
    requires
        a.is_prefix_of(b),
        b.is_prefix_of(c),
    ensures
        a.is_prefix_of(c),
{
    assert(c.take(a.len() as int) =~= c.take(b.len() as int).take(a.len() as int));
}

proof fn lemma_same_turns_grow(turns: Seq<ConversationTurn>)
    ensures
        turns_grow(turns, turns),
{
    assert forall|i: int| 0 <= i < turns.len() implies (
    #[trigger] turns[i]).caller_side@.is_prefix_of(turns[i].caller_side@)
        && turns[i].bot_side@.is_prefix_of(turns[i].bot_side@) by {
        assert(turns[i].caller_side@.take(turns[i].caller_side@.len() as int)
            =~= turns[i].caller_side@);
        assert(turns[i].bot_side@.take(turns[i].bot_side@.len() as int) =~= turns[i].bot_side@);
    }
}

proof fn lemma_opened_turns_grow(pre: Seq<ConversationTurn>, post: Seq<ConversationTurn>)
    requires
        opens_turn(pre, post),
    ensures
        turns_grow(pre, post),
{
    lemma_same_turns_grow(pre);
    assert forall|i: int| 0 <= i < pre.len() implies pre[i] == #[trigger] post[i] by {
        assert(post.drop_last()[i] == post[i]);
    }
}

/// A caller who cuts in is heard: Twilio is told to drop what it still plays, the playing is
/// stopped, and the bot listens in a new turn, which begins with what the caller says and has its
/// own task. Nothing else of the call changes, and nothing is lost of what was said, however much
/// the tasks of the call add to it meanwhile.
pub proof fn law_cutting_in(
    pre: ConversationState,
    said: StreamingResponse,
    t0: u128,
    a: ConversationState,
    s1: Step,
    later_a: ConversationState,
    t1: u128,
    b: ConversationState,
    s2: Step,
    later_b: ConversationState,
    t2: u128,
    c: ConversationState,
    s3: Step,
)
    requires
        pre.current_bot_action is Talking,
        pre.current_twilio_media_message_stream,
        said.channel.alternatives@[0].transcript@.len() > 0,
        handles(pre, heard(said), t0, a, s1),
        said_meanwhile(a, later_a),
        s1 is Act ==> resumes(later_a, stage_of(s1), true, t1, b, s2),
        said_meanwhile(b, later_b),
        s2 is Act ==> resumes(later_b, stage_of(s2), true, t2, c, s3),
    ensures
        s1 matches Step::Act(Action::SendOutbound(TwilioOutbound::Clear { stream_sid }), _)
            && stream_sid == pre.twilio_stream_id,
        s2 matches Step::Act(Action::OpenTurn { abort_media, first }, _) && abort_media && first
            == ConversationSignal::StreamingResponse(said),
        s3 matches Step::Last(Action::StartCallerSide { turn }) && turn
            == pre.conversation_turns@.len() as usize,
        opens_turn(later_b.conversation_turns@, c.conversation_turns@),
        c.conversation_turns@.len() == pre.conversation_turns@.len() + 1,
        turns_grow(pre.conversation_turns@, c.conversation_turns@),
        c.join_handles@ == pre.join_handles@.push(
            CallTask::CallerSide { turn: pre.conversation_turns@.len() as usize },
        ),
        c == (ConversationState {
            join_handles: c.join_handles,
            current_bot_action: CurrentBotAction::Listening,
            current_twilio_media_message_stream: false,
            last_talking: t1,
            conversation_turns: c.conversation_turns,
            ..pre
        }),
{
    lemma_opened_turns_grow(later_b.conversation_turns@, c.conversation_turns@);
    lemma_turns_grow(
        later_a.conversation_turns@,
        later_b.conversation_turns@,
        c.conversation_turns@,
    );
    lemma_turns_grow(pre.conversation_turns@, later_a.conversation_turns@, c.conversation_turns@);
}

/// A caller who speaks when nothing is being played is heard in a new turn as well, and Twilio is
/// told nothing.
pub proof fn law_speaking_up(
    pre: ConversationState,
    said: StreamingResponse,
    t0: u128,
    a: ConversationState,
    s1: Step,
    later_a: ConversationState,
    t1: u128,
    b: ConversationState,
    s2: Step,
)
    requires
        pre.current_bot_action is Talking,
        !pre.current_twilio_media_message_stream,
        said.channel.alternatives@[0].transcript@.len() > 0,
        handles(pre, heard(said), t0, a, s1),
        said_meanwhile(a, later_a),
        s1 is Act ==> resumes(later_a, stage_of(s1), true, t1, b, s2),
    ensures
        s1 matches Step::Act(Action::OpenTurn { abort_media, first }, _) && !abort_media && first
            == ConversationSignal::StreamingResponse(said),
        s2 matches Step::Last(Action::StartCallerSide { turn }) && turn
            == pre.conversation_turns@.len() as usize,
        opens_turn(later_a.conversation_turns@, b.conversation_turns@),
        b.conversation_turns@.len() == pre.conversation_turns@.len() + 1,
        turns_grow(pre.conversation_turns@, b.conversation_turns@),
        b.join_handles@ == pre.join_handles@.push(
            CallTask::CallerSide { turn: pre.conversation_turns@.len() as usize },
        ),
        b == (ConversationState {
            join_handles: b.join_handles,
            current_bot_action: CurrentBotAction::Listening,
            last_talking: t0,
            conversation_turns: b.conversation_turns,
            ..pre
        }),
{
    lemma_opened_turns_grow(later_a.conversation_turns@, b.conversation_turns@);
    lemma_turns_grow(pre.conversation_turns@, later_a.conversation_turns@, b.conversation_turns@);
}

/// A caller who has been silent for long enough is acknowledged, the caller's side of the turn is
/// closed, and the conversation so far is answered in that turn, aloud, by a task of its own. What
/// has been added to it when the answer is asked for is part of the conversation so far.
pub proof fn law_answering(
    pre: ConversationState,
    said: StreamingResponse,
    t0: u128,
    a: ConversationState,
    s1: Step,
    later_a: ConversationState,
    t1: u128,
    b: ConversationState,
    s2: Step,
    later_b: ConversationState,
    t2: u128,
    c: ConversationState,
    s3: Step,
)
    requires
        pre.current_bot_action is Listening,
        said.channel.alternatives@[0].transcript@.len() == 0,
        t0 >= pre.last_talking + 1_500_000_000,
        handles(pre, heard(said), t0, a, s1),
        said_meanwhile(a, later_a),
        s1 is Act ==> resumes(later_a, stage_of(s1), true, t1, b, s2),
        said_meanwhile(b, later_b),
        s2 is Act ==> resumes(later_b, stage_of(s2), true, t2, c, s3),
    ensures
        s1 matches Step::Act(Action::SendOutbound(message), _) && message == pre.pause_msg,
        s2 matches Step::Act(Action::SignalTurn(signal), _) && signal is Go,
        starts_answer(s3, later_b.conversation_turns@),
        turns_grow(pre.conversation_turns@, later_b.conversation_turns@),
        c.join_handles@ == pre.join_handles@.push(
            CallTask::BotSide { turn: (pre.conversation_turns@.len() - 1) as usize },
        ),
        c == (ConversationState {
            join_handles: c.join_handles,
            current_bot_action: CurrentBotAction::Talking,
            current_twilio_media_message_stream: true,
            conversation_turns: later_b.conversation_turns,
            ..pre
        }),
{
    lemma_turns_grow(
        pre.conversation_turns@,
        later_a.conversation_turns@,
        later_b.conversation_turns@,
    );
}

/// Silence changes nothing while the bot talks, nor before the caller has been silent for one and
/// a half seconds.
pub proof fn law_polite_space(
    pre: ConversationState,
    said: StreamingResponse,
    now: u128,
    post: ConversationState,
    step: Step,
)
    requires
        said.channel.alternatives@[0].transcript@.len() == 0,
        pre.current_bot_action is Talking || now <= pre.last_talking || now - pre.last_talking
            < 1_500_000_000,
        handles(pre, heard(said), now, post, step),
    ensures
        post == pre,
        step == Step::Done(Ok(())),
{
}

/// What cannot be delivered ends the handling of a message with an error, and changes nothing.
pub proof fn law_undelivered_changes_nothing(
    pre: ConversationState,
    stage: Stage,
    now: u128,
    post: ConversationState,
    step: Step,
)
    requires
        resumes(pre, stage, false, now, post, step),
    ensures
        post == pre,
        step == Step::Done(
            Err(
                match stage {
                    Stage::Acknowledging => AppError("Error sending twilio outbound message"),
                    Stage::Going => AppError("Failed to stop message to turn manager."),
                    Stage::Relaying => AppError("Failed to send transcript to turn manager."),
                    Stage::Clearing(_) => AppError("Error sending twilio outbound message"),
                    Stage::Opening => AppError("Failed to send transcript to turn manager."),
                },
            ),
        ),
{
}

/// The bot never loses track of whether it talks or listens: a message that could be decoded is
/// never answered with an error before anything has been tried.
pub proof fn law_never_out_of_whack(
    pre: ConversationState,
    msg: DgMessage,
    now: u128,
    post: ConversationState,
    step: Step,
)
    requires
        handles(pre, msg, now, post, step),
        step matches Step::Done(Err(_)),
    ensures
        msg matches DgMessage::Text(None),
        post == pre,
{
}

/// No message ever takes a turn away or alters one: the turns there were are the first of those
/// there are, and one is added exactly when a turn was opened.
pub proof fn law_turns_are_kept(
    pre: ConversationState,
    stage: Stage,
    delivered: bool,
    now: u128,
    post: ConversationState,
    step: Step,
)
    requires
        resumes(pre, stage, delivered, now, post, step),
    ensures
        stage is Opening && delivered ==> opens_turn(
            pre.conversation_turns@,
            post.conversation_turns@,
        ),
        !(stage is Opening && delivered) ==> post.conversation_turns == pre.conversation_turns,
        pre.conversation_turns@.is_prefix_of(post.conversation_turns@),
{
    assert(pre.conversation_turns@.is_prefix_of(post.conversation_turns@)) by {
        if stage is Opening && delivered {
            assert(post.conversation_turns@.take(pre.conversation_turns@.len() as int)
                =~= post.conversation_turns@.drop_last());
        }
    }
}

/// The same of the first step of handling a message, which leaves the turns as they are.
pub proof fn law_hearing_keeps_turns(
    pre: ConversationState,
    msg: DgMessage,
    now: u128,
    post: ConversationState,
    step: Step,
)
    requires
        handles(pre, msg, now, post, step),
    ensures
        post.conversation_turns == pre.conversation_turns,
        post.conversation_summaries == pre.conversation_summaries,
        post.current_bot_action == pre.current_bot_action,
{
}

/// Silence is never relayed: what a turn is told, at its opening or later, is something that the
/// caller said.
pub proof fn law_only_speech_is_relayed(
    pre: ConversationState,
    said: StreamingResponse,
    t0: u128,
    post: ConversationState,
    step: Step,
    later: ConversationState,
    t1: u128,
    cleared: ConversationState,
    open: Step,
)
    requires
        handles(pre, heard(said), t0, post, step),
        said_meanwhile(post, later),
        step matches Step::Act(_, stage) ==> stage is Clearing ==> resumes(
            later,
            stage,
            true,
            t1,
            cleared,
            open,
        ),
    ensures
        step matches Step::Act(Action::SignalTurn(signal), _) ==> signal
            == ConversationSignal::StreamingResponse(said) && said.channel.alternatives@[0].transcript@.len() > 0,
        step matches Step::Act(Action::OpenTurn { first, .. }, _) ==> first
            == ConversationSignal::StreamingResponse(said) && said.channel.alternatives@[0].transcript@.len() > 0,
        step matches Step::Act(_, Stage::Clearing(_)) ==> {
            &&& open matches Step::Act(Action::OpenTurn { first, .. }, _)
            &&& first == ConversationSignal::StreamingResponse(said)
            &&& said.channel.alternatives@[0].transcript@.len() > 0
        },
{
}

/// The answer belongs to the turn that was opened for what it answers: if no turn has been opened
/// since, the caller's and the bot's side are managed under the same number.
pub proof fn law_answer_belongs_to_its_turn(
    pre: ConversationState,
    t0: u128,
    opened: ConversationState,
    open: Step,
    asked: ConversationState,
    t1: u128,
    answering: ConversationState,
    answer: Step,
)
    requires
        resumes(pre, Stage::Opening, true, t0, opened, open),
        asked.conversation_turns@.len() == opened.conversation_turns@.len(),
        resumes(asked, Stage::Going, true, t1, answering, answer),
    ensures
        open matches Step::Last(Action::StartCallerSide { turn: heard }) && answer matches Step::Last(
            Action::StartBotSide { turn: answered, .. },
        ) && heard == answered,
{
    assert(asked.conversation_turns.len() == asked.conversation_turns@.len());
}

/// The tasks of a call with so many turns, in the order in which they were started: the one that
/// sends to Twilio, then for each turn the one that hears the caller and the one that answers. The
/// last turn is being answered exactly while the bot talks.
pub open spec fn tasks_of(turns: nat, talking: bool) -> Seq<CallTask> {
    Seq::new(
        2 * turns + if talking {
            1nat
        } else {
            0nat
        },
        |i: int|
            if i == 0 {
                CallTask::Outbound
            } else if i % 2 == 1 {
                CallTask::CallerSide { turn: (i / 2) as usize }
            } else {
                CallTask::BotSide { turn: (i / 2 - 1) as usize }
            },
    )
}

/// All parts of the state agree on where the call stands: an answer is being played exactly while
/// the bot talks and there is a turn, the bot listens only where there is a turn, and the tasks
/// are those of the turns.
pub open spec fn in_step(state: ConversationState) -> bool {
    let turns = state.conversation_turns@.len();
    let talking = state.current_bot_action is Talking;
    &&& state.current_twilio_media_message_stream == (talking && turns > 0)
    &&& state.current_bot_action is Listening ==> turns > 0
    &&& state.join_handles@ == tasks_of(turns, talking)
}

/// Handling a message goes on after `step`, in state `later` when the action has been performed, or
/// has come to its end with it. The first signal of a turn is put in a channel that was just
/// opened, and so is always delivered.
pub open spec fn goes_on(
    pre: ConversationState,
    step: Step,
    later: ConversationState,
    delivered: bool,
    now: u128,
    post: ConversationState,
    next: Step,
) -> bool {
    if step is Act {
        &&& stage_of(step) is Opening ==> delivered
        &&& said_meanwhile(pre, later)
        &&& resumes(later, stage_of(step), delivered, now, post, next)
    } else {
        later == pre && post == pre && next == step
    }
}

/// What came of a message that was handled with `step` as the last.
pub open spec fn outcome_of(step: Step) -> Result<(), AppError>
    recommends
        !(step is Act),
{
    match step {
        Step::Done(result) => result,
        _ => Ok(()),
    }
}

/// A message is handled from beginning to end: it makes `post` of `pre`, and `outcome` comes of it.
/// Where it is `quiet`, nothing is added to what was said while the message is handled.
pub open spec fn handles_message(
    pre: ConversationState,
    msg: DgMessage,
    quiet: bool,
    post: ConversationState,
    outcome: Result<(), AppError>,
) -> bool {
    exists|
        t0: u128,
        a: ConversationState,
        s1: Step,
        later_a: ConversationState,
        d1: bool,
        t1: u128,
        b: ConversationState,
        s2: Step,
        later_b: ConversationState,
        d2: bool,
        t2: u128,
        s3: Step,
    |
        {
            &&& #[trigger] handles(pre, msg, t0, a, s1)
            &&& #[trigger] goes_on(a, s1, later_a, d1, t1, b, s2)
            &&& #[trigger] goes_on(b, s2, later_b, d2, t2, post, s3)
            &&& quiet ==> later_a == a && later_b == b
            &&& outcome == outcome_of(s3)
        }
}

/// A message is handled in at most three actions, and keeps the parts of the state in step,
/// whatever could not be delivered, and whatever the tasks of the call add to the turns meanwhile.
/// The tasks there were are the first of those there are, and so are the turns, with no less said
/// in them. Where nothing was added meanwhile, they are the very same.
pub proof fn law_message_keeps_in_step(
    pre: ConversationState,
    msg: DgMessage,
    t0: u128,
    a: ConversationState,
    s1: Step,
    later_a: ConversationState,
    d1: bool,
    t1: u128,
    b: ConversationState,
    s2: Step,
    later_b: ConversationState,
    d2: bool,
    t2: u128,
    c: ConversationState,
    s3: Step,
)
    requires
        in_step(pre),
        handles(pre, msg, t0, a, s1),
        goes_on(a, s1, later_a, d1, t1, b, s2),
        goes_on(b, s2, later_b, d2, t2, c, s3),
    ensures
        !(s3 is Act),
        in_step(c),
        c.join_handles@.len() == 2 * c.conversation_turns@.len() + if c.current_bot_action is Talking {
            1int
        } else {
            0
        },
        turns_grow(pre.conversation_turns@, c.conversation_turns@),
        c.conversation_turns@.len() <= pre.conversation_turns@.len() + 1,
        later_a == a && later_b == b ==> pre.conversation_turns@.is_prefix_of(
            c.conversation_turns@,
        ),
        pre.join_handles@.is_prefix_of(c.join_handles@),
{
    let n = pre.conversation_turns@.len();
    let before = pre.join_handles@;
    let after = c.join_handles@;
    let turns_a = later_a.conversation_turns@;
    let turns_b = later_b.conversation_turns@;
    lemma_same_turns_grow(pre.conversation_turns@);
    lemma_same_turns_grow(turns_a);
    lemma_same_turns_grow(turns_b);
    assert(turns_grow(pre.conversation_turns@, turns_a));
    if s1 is Act && stage_of(s1) is Opening {
        lemma_opened_turns_grow(turns_a, b.conversation_turns@);
    }
    lemma_same_turns_grow(b.conversation_turns@);
    assert(turns_grow(turns_a, b.conversation_turns@));
    assert(turns_grow(b.conversation_turns@, turns_b));
    if s2 is Act && stage_of(s2) is Opening {
        lemma_opened_turns_grow(turns_b, c.conversation_turns@);
    }
    assert(turns_grow(turns_b, c.conversation_turns@));
    lemma_turns_grow(b.conversation_turns@, turns_b, c.conversation_turns@);
    lemma_turns_grow(turns_a, b.conversation_turns@, c.conversation_turns@);
    lemma_turns_grow(pre.conversation_turns@, turns_a, c.conversation_turns@);
    if s2 is Act && stage_of(s2) is Opening || s1 is Act && stage_of(s1) is Opening {
        assert(c.conversation_turns@.take(n as int) =~= c.conversation_turns@.drop_last());
        assert(before.push(CallTask::CallerSide { turn: n as usize }) =~= tasks_of(n + 1, false));
    }
    if s2 is Act && stage_of(s2) is Going && d2 {
        assert(before.push(CallTask::BotSide { turn: (n - 1) as usize }) =~= tasks_of(n, true));
    }
    assert(after.take(before.len() as int) =~= before);
    assert(pre.conversation_turns@.take(n as int) =~= pre.conversation_turns@);
}

/// The tasks of a call only ever add to what was said: the caller-side manager to the caller's side
/// of its turn, the bot-side manager to the bot's side.
pub proof fn law_tasks_only_add(
    side: Seq<char>,
    signal: ConversationSignal,
    pre: BotSideManager,
    found: ConversationTurn,
    event: BotSideEvent,
    post: BotSideManager,
    left: ConversationTurn,
    action: BotSideAction,
)
    requires
        bot_side_steps(pre, found, event, post, left, action),
    ensures
        side.is_prefix_of(side_after(side, signal)),
        found.bot_side@.is_prefix_of(left.bot_side@),
        left.caller_side == found.caller_side,
{
    assert(side_after(side, signal).take(side.len() as int) =~= side);
    assert(left.bot_side@.take(found.bot_side@.len() as int) =~= found.bot_side@);
}

/// Messages are handled one after the other: `pres[i]` is the state before, `posts[i]` the state
/// after message `i`, and `outcomes[i]` what came of it. In between, and unless `quiet[i]` says
/// otherwise also while message `i` is handled, the tasks of the call may add to what was said.
pub open spec fn messages_run(
    pres: Seq<ConversationState>,
    msgs: Seq<DgMessage>,
    quiet: Seq<bool>,
    posts: Seq<ConversationState>,
    outcomes: Seq<Result<(), AppError>>,
) -> bool {
    &&& pres.len() == msgs.len()
    &&& quiet.len() == msgs.len()
    &&& posts.len() == msgs.len()
    &&& outcomes.len() == msgs.len()
    &&& forall|i: int|
        0 <= i < msgs.len() ==> handles_message(
            pres[i],
            #[trigger] msgs[i],
            quiet[i],
            posts[i],
            outcomes[i],
        )
    &&& forall|i: int|
        0 < i < msgs.len() ==> said_meanwhile(posts[i - 1], #[trigger] pres[i])
}

/// Whatever messages come, and whether or not handling them succeeded: before and after each, an
/// answer is being played exactly while the bot talks and there is a turn, the bot listens only
/// where there is a turn, and there are two tasks for each turn, and one more while the bot talks.
/// No message takes a turn or a task away, or anything that was said.
pub proof fn law_call_stays_in_step(
    twilio_stream_id: String,
    twilio_connect_payload: TwilioConnectPayload,
    began: u128,
    pres: Seq<ConversationState>,
    msgs: Seq<DgMessage>,
    quiet: Seq<bool>,
    posts: Seq<ConversationState>,
    outcomes: Seq<Result<(), AppError>>,
    k: int,
)
    requires
        messages_run(pres, msgs, quiet, posts, outcomes),
        0 <= k < msgs.len(),
        ConversationState::starts(pres[0], twilio_stream_id, twilio_connect_payload, began),
    ensures
        in_step(pres[k]),
        in_step(posts[k]),
        posts[k].join_handles@.len() == 2 * posts[k].conversation_turns@.len()
            + if posts[k].current_bot_action is Talking {
            1int
        } else {
            0
        },
        turns_grow(pres[k].conversation_turns@, posts[k].conversation_turns@),
        quiet[k] ==> pres[k].conversation_turns@.is_prefix_of(posts[k].conversation_turns@),
        pres[k].join_handles@.is_prefix_of(posts[k].join_handles@),
    decreases k,
{
    if k == 0 {
        assert(seq![CallTask::Outbound] =~= tasks_of(0, true));
    } else {
        law_call_stays_in_step(
            twilio_stream_id,
            twilio_connect_payload,
            began,
            pres,
            msgs,
            quiet,
            posts,
            outcomes,
            k - 1,
        );
        assert(said_meanwhile(posts[k - 1], pres[k]));
    }
    assert(handles_message(pres[k], msgs[k], quiet[k], posts[k], outcomes[k]));
    let (t0, a, s1, later_a, d1, t1, b, s2, later_b, d2, t2, s3) = choose|
        t0: u128,
        a: ConversationState,
        s1: Step,
        later_a: ConversationState,
        d1: bool,
        t1: u128,
        b: ConversationState,
        s2: Step,
        later_b: ConversationState,
        d2: bool,
        t2: u128,
        s3: Step,
    |
        {
            &&& #[trigger] handles(pres[k], msgs[k], t0, a, s1)
            &&& #[trigger] goes_on(a, s1, later_a, d1, t1, b, s2)
            &&& #[trigger] goes_on(b, s2, later_b, d2, t2, posts[k], s3)
            &&& quiet[k] ==> later_a == a && later_b == b
            &&& outcomes[k] == outcome_of(s3)
        };
    law_message_keeps_in_step(
        pres[k],
        msgs[k],
        t0,
        a,
        s1,
        later_a,
        d1,
        t1,
        b,
        s2,
        later_b,
        d2,
        t2,
        posts[k],
        s3,
    );
}

/// What Deepgram says of its request is kept, whatever else is going on.
pub proof fn law_request_id_is_kept(
    pre: ConversationState,
    meta: StreamingMeta,
    now: u128,
    post: ConversationState,
    step: Step,
)
    requires
        handles(pre, DgMessage::Text(Some(StreamMessage::StreamingMeta(meta))), now, post, step),
    ensures
        post == (ConversationState { dg_request_id: Some(meta.request_id), ..pre }),
        step == Step::Done(Ok(())),
{
}

/// The context of a conversation begins with the instruction to the assistant, and a further turn
/// adds to it what was said in that turn, at the end.
pub proof fn law_context_grows_by_turns(
    turns: Seq<ConversationTurnView>,
    turn: ConversationTurnView,
)
    ensures
        conversation_context(turns)[0] == system_message(),
        conversation_context(turns.push(turn)) == conversation_context(turns) + turn_messages(turn),
{
    turns.lemma_flat_map_push(to_turn_messages(), turn);
    assert(conversation_context(turns.push(turn)) =~= conversation_context(turns) + turn_messages(
        turn,
    ));
}

/// OpenAI is never sent an empty message.
pub proof fn law_context_has_no_empty_message(turns: Seq<ConversationTurnView>, i: int)
    requires
        0 <= i < conversation_context(turns).len(),
    ensures
        conversation_context(turns)[i].content.len() > 0,
    decreases turns.len(),
{
    reveal_strlit("You are a friendly and helpful assistant.");
    if turns.len() == 0 {
        assert(turns.flat_map(to_turn_messages()) =~= seq![]);
    } else {
        let init = turns.drop_last();
        assert(init.push(turns.last()) =~= turns);
        law_context_grows_by_turns(init, turns.last());
        if i < conversation_context(init).len() {
            law_context_has_no_empty_message(init, i);
        }
    }
}

/// The bot remembers: what the caller was understood to say in a turn, however late it was taken
/// in, and all that was received of the answer, is what the next request to OpenAI has to say of
/// the turn, behind what was said before.
pub proof fn law_next_request_remembers_turn(
    before: Seq<ConversationTurnView>,
    signals: Seq<ConversationSignal>,
    managers: Seq<BotSideManager>,
    found: Seq<ConversationTurn>,
    left: Seq<ConversationTurn>,
    events: Seq<BotSideEvent>,
    actions: Seq<BotSideAction>,
)
    requires
        forall|i: int|
            0 <= i < final_transcripts(signals).len() ==> (#[trigger] final_transcripts(
                signals,
            )[i]).len() > 0,
        answer_runs(managers, found, left, events, actions),
        managers[0].todo().len() == 0,
        found[0].bot_side@ == Seq::<char>::empty(),
        left.last().caller_side@ == side_after_all(Seq::empty(), signals),
        actions.last() == BotSideAction::Done(Ok(())),
    ensures
        conversation_context(before.push(left.last()@)) == conversation_context(before)
            + side_message("user"@, spaced(final_transcripts(signals))) + side_message(
            "assistant"@,
            answer_text(all_received(events)),
        ),
{
    law_caller_side_is_final_transcripts(signals);
    law_whole_answer_is_collected(managers, found, left, events, actions);
    assert(managers.last().todo() =~= seq![]);
    assert(answer_text(seq![]) =~= Seq::<char>::empty());
    assert(left.last().bot_side@ =~= answer_text(all_received(events)));
    law_context_grows_by_turns(before, left.last()@);
    assert(conversation_context(before.push(left.last()@)) =~= conversation_context(before)
        + side_message("user"@, spaced(final_transcripts(signals))) + side_message(
        "assistant"@,
        answer_text(all_received(events)),
    ));
}

/// A call that came in is found when its media stream starts, also when others have come in since
/// under other sids, and is found once.
pub proof fn law_call_is_found_once(
    streams: Map<Seq<char>, TwilioConnectPayload>,
    payload: TwilioConnectPayload,
    other: TwilioConnectPayload,
)
    requires
        other.call_sid@ != payload.call_sid@,
    ensures
        ({
            let noted = streams.insert(payload.call_sid@, payload).insert(other.call_sid@, other);
            &&& noted.contains_key(payload.call_sid@)
            &&& noted[payload.call_sid@] == payload
            &&& !noted.remove(payload.call_sid@).contains_key(payload.call_sid@)
            &&& noted.remove(payload.call_sid@).contains_key(other.call_sid@)
        }),
{
}

/// The summaries that come of the replies to the two questions about each turn.
pub open spec fn summaries_from(replies: Seq<(OpenAIReply, OpenAIReply)>) -> Seq<
    ConversationSummary,
>
    decreases replies.len(),
{
    if replies.len() == 0 {
        seq![]
    } else {
        let before = summaries_from(replies.drop_last());
        match replies.last() {
            (OpenAIReply::Batch(topic), OpenAIReply::Batch(summary)) => before.push(
                ConversationSummary {
                    idx: (replies.len() - 1) as usize,
                    topic: topic.choices@[0].message.content,
                    summary: summary.choices@[0].message.content,
                },
            ),
            _ => before,
        }
    }
}

/// The two questions about the answer of a turn are put, as `step` begins with, and replied to with
/// `replies`; the second is not put where the first came to nothing. `post` and `next` are what
/// comes of that. While a reply is waited for, the tasks of the call may add to what was said.
pub open spec fn asks_both(
    state: ConversationState,
    step: SummaryStep,
    replies: (OpenAIReply, OpenAIReply),
    post: ConversationState,
    next: SummaryStep,
) -> bool {
    &&& step is Act
    &&& exists|
        later: ConversationState,
        between: ConversationState,
        second: SummaryStep,
        latest: ConversationState,
    |
        {
            &&& said_meanwhile(state, later)
            &&& #[trigger] summaries_resume(
                later,
                step->Act_1,
                SummaryEvent::Replied(replies.0),
                between,
                second,
            )
            &&& #[trigger] said_meanwhile(between, latest)
            &&& if replies.0 is Batch {
                &&& second matches SummaryStep::Act(_, next_stage)
                &&& summaries_resume(
                    latest,
                    next_stage,
                    SummaryEvent::Replied(replies.1),
                    post,
                    next,
                )
            } else {
                post == between && next == second
            }
        }
}

/// The turns of `state` before turn `k` have been asked about, which gave `summaries`, and nothing
/// else of it has changed but for what was said meanwhile; `step` asks about turn `k`, or there is
/// none.
spec fn asked_up_to(
    state: ConversationState,
    k: int,
    summaries: Seq<ConversationSummary>,
    post: ConversationState,
    step: SummaryStep,
) -> bool {
    &&& said_meanwhile(
        state,
        ConversationState { conversation_summaries: state.conversation_summaries, ..post },
    )
    &&& if k < state.conversation_turns@.len() {
        &&& post.conversation_summaries == state.conversation_summaries
        &&& step matches SummaryStep::Act(
            _,
            SummaryStage::Asking { idx, question, summaries: so_far, .. },
        )
        &&& idx == k
        &&& question is Topic
        &&& so_far@ == summaries
    } else {
        &&& step is Done
        &&& post.conversation_summaries matches Some(made)
        &&& made@ == summaries
    }
}

proof fn lemma_said_meanwhile(a: ConversationState, b: ConversationState, c: ConversationState)
    requires
        said_meanwhile(a, b),
        said_meanwhile(b, c),
    ensures
        said_meanwhile(a, c),
{
    lemma_turns_grow(a.conversation_turns@, b.conversation_turns@, c.conversation_turns@);
}

proof fn lemma_summaries_so_far(
    state: ConversationState,
    replies: Seq<(OpenAIReply, OpenAIReply)>,
    states: Seq<ConversationState>,
    steps: Seq<SummaryStep>,
    k: int,
)
    requires
        replies.len() == state.conversation_turns@.len(),
        states.len() == replies.len() + 1,
        steps.len() == replies.len() + 1,
        asks_about_turn(state, 0, seq![], states[0], steps[0]),
        forall|i: int|
            0 <= i < replies.len() ==> asks_both(
                states[i],
                steps[i],
                #[trigger] replies[i],
                states[i + 1],
                steps[i + 1],
            ),
        0 <= k <= replies.len(),
    ensures
        asked_up_to(state, k, summaries_from(replies.take(k)), states[k], steps[k]),
    decreases k,
{
    if k == 0 {
        assert(replies.take(0) =~= seq![]);
        lemma_same_turns_grow(state.conversation_turns@);
    } else {
        let i = k - 1;
        lemma_summaries_so_far(state, replies, states, steps, i);
        assert(asks_both(states[i], steps[i], replies[i], states[i + 1], steps[i + 1]));
        assert(replies.take(k).drop_last() =~= replies.take(i));
        assert(replies.take(k).last() == replies[i]);
        let (later, between, second, latest) = choose|
            later: ConversationState,
            between: ConversationState,
            second: SummaryStep,
            latest: ConversationState,
        |
            {
                &&& said_meanwhile(states[i], later)
                &&& #[trigger] summaries_resume(
                    later,
                    steps[i]->Act_1,
                    SummaryEvent::Replied(replies[i].0),
                    between,
                    second,
                )
                &&& #[trigger] said_meanwhile(between, latest)
                &&& if replies[i].0 is Batch {
                    &&& second matches SummaryStep::Act(_, next_stage)
                    &&& summaries_resume(
                        latest,
                        next_stage,
                        SummaryEvent::Replied(replies[i].1),
                        states[k],
                        steps[k],
                    )
                } else {
                    states[k] == between && steps[k] == second
                }
            };
        lemma_said_meanwhile(state, states[i], later);
        if replies[i].0 is Batch {
            lemma_said_meanwhile(state, later, latest);
        }
    }
}

/// When all turns have been asked about, the summaries are exactly those of the turns of which both
/// the topic and the summary came back, in the order of the turns, and nothing else of the call has
/// changed, but for what was said meanwhile.
pub proof fn law_summaries_follow_replies(
    state: ConversationState,
    replies: Seq<(OpenAIReply, OpenAIReply)>,
    states: Seq<ConversationState>,
    steps: Seq<SummaryStep>,
)
    requires
        replies.len() == state.conversation_turns@.len(),
        states.len() == replies.len() + 1,
        steps.len() == replies.len() + 1,
        asks_about_turn(state, 0, seq![], states[0], steps[0]),
        forall|i: int|
            0 <= i < replies.len() ==> asks_both(
                states[i],
                steps[i],
                #[trigger] replies[i],
                states[i + 1],
                steps[i + 1],
            ),
    ensures
        steps.last() is Done,
        summaries_of(states.last().conversation_summaries) == summaries_from(replies),
        said_meanwhile(
            state,
            ConversationState {
                conversation_summaries: state.conversation_summaries,
                ..states.last()
            },
        ),
{
    lemma_summaries_so_far(state, replies, states, steps, replies.len() as int);
    assert(replies.take(replies.len() as int) =~= replies);
}

/// A summary stands in the row of the turn that it is of.
pub proof fn law_summary_stands_in_its_row(summaries: Seq<ConversationSummary>, turns: nat, k: int)
    requires
        summaries_wf(summaries, turns),
        0 <= k < summaries.len(),
    ensures
        summary_of(summaries, summaries[k].idx as int) == Some(summaries[k]),
    decreases summaries.len(),
{
    if k < summaries.len() - 1 {
        assert(summaries[k].idx < summaries[summaries.len() - 1].idx);
        assert(summaries.drop_last()[k] == summaries[k]);
        law_summary_stands_in_its_row(summaries.drop_last(), turns, k);
    }
}

/// A turn without a summary has none in its row.
pub proof fn law_no_summary_in_other_rows(summaries: Seq<ConversationSummary>, turn: int)
    requires
        forall|k: int| 0 <= k < summaries.len() ==> (#[trigger] summaries[k]).idx != turn,
    ensures
        summary_of(summaries, turn) is None,
    decreases summaries.len(),
{
    if summaries.len() > 0 {
        assert(summaries[summaries.len() - 1].idx != turn);
        assert forall|k: int| 0 <= k < summaries.drop_last().len() implies (
        #[trigger] summaries.drop_last()[k]).idx != turn by {
            assert(summaries[k].idx != turn);
        }
        law_no_summary_in_other_rows(summaries.drop_last(), turn);
    }
}

/// All columns of the rows of a call are of the same length: that of the call.
pub proof fn law_columns_align(
    rows: TurnRows,
    call: i32,
    turns: Seq<ConversationTurn>,
    summaries: Seq<ConversationSummary>,
)
    requires
        rows_of(rows, call, turns, summaries),
    ensures
        rows.call_ids@.len() == turns.len(),
        rows.call_idxs@.len() == turns.len(),
        rows.caller_sides@.len() == turns.len(),
        rows.bot_sides@.len() == turns.len(),
        rows.topics@.len() == turns.len(),
        rows.summaries@.len() == turns.len(),
{
}

/// A call counts as stored only when its transaction has been committed, and no transaction
/// begins without the id of the Deepgram request.
pub proof fn law_stored_means_committed(
    state: ConversationState,
    stage: DbStage,
    event: DbEvent,
    step: DbStep,
)
    requires
        db_resume(state, stage, event, step),
    ensures
        step matches DbStep::Done(Ok(_)) ==> stage is Committing && event is Completed,
        step matches DbStep::Act(DbAction::Begin, _) ==> state.dg_request_id is Some,
{
}

/// Where all goes well a call is stored: a caller who is not known is added, with all that Twilio
/// said of where the call came from, then the call, with its caller and its ids, then its turns, with
/// what was said in them by then. `later[i]` is the state in which step `i` is
/// taken: the tasks of the call may still add to what was said.
pub proof fn law_storing(
    state: ConversationState,
    later: Seq<ConversationState>,
    known: bool,
    caller: i32,
    call: i32,
    s: Seq<DbStep>,
)
    requires
        state.dg_request_id is Some,
        later.len() == 7,
        forall|i: int| 0 <= i < 7 ==> said_meanwhile(state, #[trigger] later[i]),
        s.len() == 7,
        db_start(later[0], s[0]),
        s[0] matches DbStep::Act(_, stage) ==> if known {
            s[1] == s[0]
        } else {
            db_resume(later[1], stage, DbEvent::Failed, s[1])
        },
        s[1] matches DbStep::Act(_, stage) ==> db_resume(
            later[2],
            stage,
            DbEvent::Row(caller),
            s[2],
        ),
        s[2] matches DbStep::Act(_, stage) ==> db_resume(later[3], stage, DbEvent::Completed, s[3]),
        s[3] matches DbStep::Act(_, stage) ==> db_resume(later[4], stage, DbEvent::Row(call), s[4]),
        s[4] matches DbStep::Act(_, stage) ==> db_resume(later[5], stage, DbEvent::Completed, s[5]),
        s[5] matches DbStep::Act(_, stage) ==> db_resume(later[6], stage, DbEvent::Completed, s[6]),
    ensures
        s[0] matches DbStep::Act(DbAction::FindCaller { phone }, _) && phone
            == state.twilio_connect_payload.from,
        !known ==> {
            &&& s[1] matches DbStep::Act(
                DbAction::AddCaller { phone, city, state: province, country, zip },
                _,
            )
            &&& phone == state.twilio_connect_payload.from
            &&& city == state.twilio_connect_payload.from_city
            &&& province == state.twilio_connect_payload.from_state
            &&& country == state.twilio_connect_payload.from_country
            &&& zip == state.twilio_connect_payload.from_zip
        },
        s[2] matches DbStep::Act(DbAction::Begin, _),
        s[3] matches DbStep::Act(
            DbAction::AddCall { caller: of, twilio_call_sid, twilio_stream_sid, dg_request_id },
            _,
        ) && of == caller && twilio_call_sid == state.twilio_connect_payload.call_sid
            && twilio_stream_sid == state.twilio_stream_id && Some(dg_request_id)
            == state.dg_request_id,
        s[4] matches DbStep::Act(DbAction::AddTurns(rows), _) && rows_of(
            rows,
            call,
            later[4].conversation_turns@,
            summaries_of(state.conversation_summaries),
        ),
        turns_grow(state.conversation_turns@, later[4].conversation_turns@),
        s[5] matches DbStep::Act(DbAction::Commit, _),
        s[6] == DbStep::Done(Ok(())),
{
    assert(said_meanwhile(state, later[0]) && said_meanwhile(state, later[1]));
    assert(said_meanwhile(state, later[2]) && said_meanwhile(state, later[3]));
    assert(said_meanwhile(state, later[4]));
}

/// Only a call whose Deepgram stream came to its end is summarized, texted about or stored: until
/// then every step converses, reads on, or ends the call with an error.
pub proof fn law_only_complete_calls_are_kept(
    pre: ConversationState,
    account_sid: Seq<char>,
    stage: CallStage,
    event: CallEvent,
    post: ConversationState,
    step: CallStep,
)
    requires
        call_steps(pre, account_sid, stage, event, post, step),
        stage is Listening || stage is Handling || stage is Handled,
        !(event matches CallEvent::Dg { item: DgItem::End, .. }),
    ensures
        match step {
            CallStep::Act(action, next) => {
                &&& action is ReadDg || action is Converse
                &&& next is Listening || next is Handling || next is Handled
            },
            CallStep::Done(result) => result is Err,
        },
{
}

/// Every summary is texted, in order, whatever comes of the text messages before it; and then the
/// call is stored.
pub proof fn law_every_summary_is_texted(
    state: ConversationState,
    account_sid: Seq<char>,
    i: int,
    step: CallStep,
    later: ConversationState,
    post: ConversationState,
    next: CallStep,
)
    requires
        0 <= i < summaries_of(state.conversation_summaries).len(),
        state.conversation_summaries is Some,
        texts_or_stores(state, account_sid, i, step),
        said_meanwhile(state, later),
        step matches CallStep::Act(_, stage) ==> call_steps(
            later,
            account_sid,
            stage,
            CallEvent::Texted,
            post,
            next,
        ),
    ensures
        step matches CallStep::Act(CallAction::Text(_), _),
        post == later,
        texts_or_stores(later, account_sid, i + 1, next),
{
}

/// A run of a call: it begins with listening, every event is taken in at the stage that the step
/// before led to, and `pres` and `posts` are the states before and after the steps.
pub open spec fn call_runs(
    account_sid: Seq<char>,
    pres: Seq<ConversationState>,
    stages: Seq<CallStage>,
    events: Seq<CallEvent>,
    posts: Seq<ConversationState>,
    steps: Seq<CallStep>,
) -> bool {
    &&& events.len() > 0
    &&& pres.len() == events.len()
    &&& stages.len() == events.len()
    &&& posts.len() == events.len()
    &&& steps.len() == events.len()
    &&& stages[0] is Listening
    &&& forall|i: int|
        0 <= i < events.len() ==> call_steps(
            pres[i],
            account_sid,
            stages[i],
            #[trigger] events[i],
            posts[i],
            steps[i],
        )
    &&& forall|i: int|
        0 < i < events.len() ==> {
            &&& steps[i - 1] matches CallStep::Act(_, next)
            &&& #[trigger] stages[i] == next
            &&& said_meanwhile(posts[i - 1], pres[i])
        }
}

/// The id of the Deepgram request that an event tells, where it tells it.
pub open spec fn told_request_id(event: CallEvent) -> Option<Uuid> {
    match event {
        CallEvent::Dg {
            item: DgItem::Message(DgMessage::Text(Some(StreamMessage::StreamingMeta(meta)))),
            ..
        } => Some(meta.request_id),
        _ => None,
    }
}

/// One of `events` tells that the id of the Deepgram request is `id`.
pub open spec fn heard_request_id(events: Seq<CallEvent>, id: Uuid) -> bool {
    exists|i: int| 0 <= i < events.len() && told_request_id(#[trigger] events[i]) == Some(id)
}

/// The text messages that steps send, in order.
pub open spec fn texted(steps: Seq<CallStep>) -> Seq<SmsRequest>
    decreases steps.len(),
{
    if steps.len() == 0 {
        seq![]
    } else {
        let before = texted(steps.drop_last());
        match steps.last() {
            CallStep::Act(CallAction::Text(sms), _) => before.push(sms),
            _ => before,
        }
    }
}

/// `sent` are the text messages with the first `n` of the summaries of the call, one each, in the
/// order of the summaries.
pub open spec fn texts_first(
    state: ConversationState,
    account_sid: Seq<char>,
    sent: Seq<SmsRequest>,
    n: int,
) -> bool {
    &&& state.conversation_summaries matches Some(summaries)
    &&& sent.len() == n
    &&& n <= summaries@.len()
    &&& forall|j: int|
        0 <= j < n ==> {
            &&& (#[trigger] sent[j]).url@ == "https://api.twilio.com/2010-04-01/Accounts/"@
                + account_sid + "/Messages.json"@
            &&& sent[j].from@ == state.twilio_connect_payload.to@
            &&& sent[j].to@ == state.twilio_connect_payload.from@
            &&& sent[j].body@ == summaries@[j].topic@ + ": "@ + summaries@[j].summary@
        }
}

/// What holds of a call at `stage`, when `events` came in and `steps` were taken before.
spec fn call_so_far(
    state: ConversationState,
    account_sid: Seq<char>,
    stage: CallStage,
    events: Seq<CallEvent>,
    steps: Seq<CallStep>,
) -> bool {
    &&& state.dg_request_id matches Some(id) ==> heard_request_id(events, id)
    &&& match stage {
        CallStage::Texting { sent } => texts_first(
            state,
            account_sid,
            texted(steps),
            sent as int,
        ),
        CallStage::Storing(stage) => {
            &&& texts_first(
                state,
                account_sid,
                texted(steps),
                summaries_of(state.conversation_summaries).len() as int,
            )
            &&& !(stage is FindingCaller || stage is AddingCaller) ==> state.dg_request_id is Some
        },
        _ => texted(steps).len() == 0,
    }
}

proof fn lemma_heard_request_id(events: Seq<CallEvent>, event: CallEvent, id: Uuid)
    requires
        heard_request_id(events, id) || told_request_id(event) == Some(id),
    ensures
        heard_request_id(events.push(event), id),
{
    let all = events.push(event);
    if heard_request_id(events, id) {
        let i = choose|i: int|
            0 <= i < events.len() && told_request_id(#[trigger] events[i]) == Some(id);
        assert(all[i] == events[i]);
    } else {
        assert(all[events.len() as int] == event);
    }
}

proof fn lemma_call_step(
    pre: ConversationState,
    account_sid: Seq<char>,
    stage: CallStage,
    event: CallEvent,
    post: ConversationState,
    step: CallStep,
    events: Seq<CallEvent>,
    steps: Seq<CallStep>,
)
    requires
        call_so_far(pre, account_sid, stage, events, steps),
        call_steps(pre, account_sid, stage, event, post, step),
    ensures
        step matches CallStep::Act(_, next) ==> call_so_far(
            post,
            account_sid,
            next,
            events.push(event),
            steps.push(step),
        ),
{
    assert(steps.push(step).drop_last() =~= steps);
    if post.dg_request_id is Some {
        lemma_heard_request_id(events, event, post.dg_request_id->0);
    }
}

proof fn lemma_call_so_far(
    account_sid: Seq<char>,
    pres: Seq<ConversationState>,
    stages: Seq<CallStage>,
    events: Seq<CallEvent>,
    posts: Seq<ConversationState>,
    steps: Seq<CallStep>,
    k: int,
)
    requires
        call_runs(account_sid, pres, stages, events, posts, steps),
        pres[0].dg_request_id is None,
        0 <= k < events.len(),
    ensures
        call_so_far(pres[k], account_sid, stages[k], events.take(k), steps.take(k)),
    decreases k,
{
    if k == 0 {
        assert(steps.take(0) =~= seq![]);
    } else {
        let i = k - 1;
        lemma_call_so_far(account_sid, pres, stages, events, posts, steps, i);
        assert(call_steps(pres[i], account_sid, stages[i], events[i], posts[i], steps[i]));
        lemma_call_step(
            pres[i],
            account_sid,
            stages[i],
            events[i],
            posts[i],
            steps[i],
            events.take(i),
            steps.take(i),
        );
        assert(events.take(i).push(events[i]) =~= events.take(k));
        assert(steps.take(i).push(steps[i]) =~= steps.take(k));
        assert(stages[k] == steps[i]->Act_1);
        assert(said_meanwhile(posts[i], pres[k]));
    }
}

/// A call that comes to its good end has heard from Deepgram what its request was, has sent the
/// caller every summary once and in order, and has ended with the commit of its transaction.
pub proof fn law_finished_call(
    account_sid: Seq<char>,
    pres: Seq<ConversationState>,
    stages: Seq<CallStage>,
    events: Seq<CallEvent>,
    posts: Seq<ConversationState>,
    steps: Seq<CallStep>,
)
    requires
        call_runs(account_sid, pres, stages, events, posts, steps),
        pres[0].dg_request_id is None,
        steps.last() == CallStep::Done(Ok(())),
    ensures
        posts.last().dg_request_id matches Some(id) && heard_request_id(events, id),
        texts_first(
            posts.last(),
            account_sid,
            texted(steps),
            summaries_of(posts.last().conversation_summaries).len() as int,
        ),
        events.len() > 1,
        steps[events.len() - 2] == CallStep::Act(
            CallAction::Store(DbAction::Commit),
            CallStage::Storing(DbStage::Committing),
        ),
        events.last() == CallEvent::Db(DbEvent::Completed),
{
    let k = events.len() - 1;
    lemma_call_so_far(account_sid, pres, stages, events, posts, steps, k);
    assert(call_steps(pres[k], account_sid, stages[k], events[k], posts[k], steps[k]));
    assert(stages[k] == CallStage::Storing(DbStage::Committing));
    assert(call_steps(
        pres[k - 1],
        account_sid,
        stages[k - 1],
        events[k - 1],
        posts[k - 1],
        steps[k - 1],
    ));
    assert(events.take(k).push(events[k]) =~= events);
    lemma_heard_request_id(events.take(k), events[k], posts[k].dg_request_id->0);
    assert(steps.drop_last() =~= steps.take(k));
}

} // verus!
