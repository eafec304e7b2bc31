//! How a call is summarized, texted about and stored, said of the calls themselves.

use vstd::prelude::*;

use crate::conversation_state::{said_meanwhile, ConversationState};
use crate::error::AppError;
use crate::laws::law_no_summary_in_other_rows;
use crate::openai_types::{chat_view, OpenAIPayload};
use crate::storage::{
    summaries_of, summary_of, summary_text_of, topic_of, turn_rows, DbAction, DbEvent, DbStage,
    DbStep, TurnRows,
};
use crate::summaries::{
    asks_about_turn, asks_editor, editor_payload, get_conversation_summary_for_bot_side,
    summaries_resume, EditorQuestion, EditorStep, OpenAIReply, SummaryAction, SummaryEvent,
    SummaryStage, SummaryStep,
};
use crate::types::{ConversationSummary, ConversationTurn};

verus! {

/// `payload` puts a question to OpenAI, in the name of an editor, and wants the answer in one piece.
pub open spec fn puts_question(payload: OpenAIPayload, question: Seq<char>) -> bool {
    &&& payload.model@ == "gpt-3.5-turbo"@
    &&& payload.messages@.len() == 2
    &&& payload.messages@[0].role@ == "system"@
    &&& payload.messages@[0].content@ == "You are a knowledgeable editor."@
    &&& payload.messages@[1].role@ == "assistant"@
    &&& payload.messages@[1].content@ == question
    &&& payload.stream is None
    &&& payload.max_tokens is None
}

proof fn lemma_puts_question(payload: OpenAIPayload, question: Seq<char>)
    requires
        asks_editor(payload, question),
    ensures
        puts_question(payload, question),
{
    let chat = chat_view(payload.messages@);
    assert(chat.len() == payload.messages@.len());
    assert(chat[0] == payload.messages@[0]@);
    assert(chat[1] == payload.messages@[1]@);
}

/// A question is put as it is, with the whole text behind it.
pub proof fn law_question_ends_with_the_text(prompt: &str, text: &str, payload: OpenAIPayload)
    requires
        call_ensures(editor_payload, (prompt, text), payload),
    ensures
        puts_question(payload, prompt@ + text@),
{
    lemma_puts_question(payload, prompt@ + text@);
}

/// When the topic of an answer is known, its summary is asked for, of the same answer; when both are
/// known, they are the summary of that turn, word for word. A request that failed ends the asking.
pub proof fn law_topic_then_summary(
    idx: usize,
    bot_side: &str,
    question: EditorQuestion,
    reply: OpenAIReply,
    step: EditorStep,
)
    requires
        call_ensures(
            get_conversation_summary_for_bot_side,
            (idx, bot_side, question, reply),
            step,
        ),
    ensures
        reply is NotSent ==> step == EditorStep::Done(
            Err(AppError("Failed to send request to OpenAI")),
        ),
        reply is Undecodable ==> step == EditorStep::Done(Err(AppError("deserialize"))),
        reply matches OpenAIReply::Batch(batch) ==> question is Topic ==> {
            &&& step matches EditorStep::Ask(payload, EditorQuestion::Summary { topic })
            &&& puts_question(
                payload,
                "In fewer than twenty words, please give a summary of the following:\n\n"@
                    + bot_side@,
            )
            &&& topic@ == batch.choices@[0].message.content@
        },
        reply matches OpenAIReply::Batch(batch) ==> question matches EditorQuestion::Summary {
            topic,
        } ==> {
            &&& step matches EditorStep::Done(Ok(summary))
            &&& summary.idx == idx
            &&& summary.topic@ == topic@
            &&& summary.summary@ == batch.choices@[0].message.content@
        },
{
    if reply is Batch && question is Topic {
        lemma_puts_question(
            step->Ask_0,
            "In fewer than twenty words, please give a summary of the following:\n\n"@ + bot_side@,
        );
    }
}

/// Summaries are made by looking after the tasks first, unless they have been made.
pub proof fn law_summaries_begin_with_the_tasks(state: &mut ConversationState, step: SummaryStep)
    requires
        call_ensures(ConversationState::get_conversation_summaries, (state,), step),
    ensures
        *final(state) == *old(state),
        old(state).conversation_summaries is Some ==> step == SummaryStep::Done,
        old(state).conversation_summaries is None ==> step == SummaryStep::Act(
            SummaryAction::CheckTasks,
            SummaryStage::Checking { tries: 0 },
        ),
{
}

/// Turn `idx` comes next, when `so_far` has been made: the topic of what the bot said in that very
/// turn is asked for, or where there is no such turn the summaries are those made so far.
pub open spec fn comes_to_turn(
    pre: ConversationState,
    idx: int,
    so_far: Seq<ConversationSummary>,
    post: ConversationState,
    step: SummaryStep,
) -> bool {
    if idx < pre.conversation_turns@.len() {
        &&& post == pre
        &&& step matches SummaryStep::Act(
            SummaryAction::Ask(payload),
            SummaryStage::Asking { idx: next, bot_side, question, summaries },
        )
        &&& puts_question(
            payload,
            "In one to three words, please give the topic of the following:\n\n"@
                + pre.conversation_turns@[idx].bot_side@,
        )
        &&& next == idx
        &&& bot_side@ == pre.conversation_turns@[idx].bot_side@
        &&& question is Topic
        &&& summaries@ == so_far
    } else {
        &&& step is Done
        &&& post.conversation_summaries is Some
        &&& post.conversation_summaries->0@ == so_far
        &&& post == (ConversationState {
            conversation_summaries: post.conversation_summaries,
            ..pre
        })
    }
}

proof fn lemma_comes_to_turn(
    pre: ConversationState,
    idx: int,
    so_far: Seq<ConversationSummary>,
    post: ConversationState,
    step: SummaryStep,
)
    requires
        asks_about_turn(pre, idx, so_far, post, step),
    ensures
        comes_to_turn(pre, idx, so_far, post, step),
{
    if idx < pre.conversation_turns@.len() {
        let payload = step->Act_0->Ask_0;
        lemma_puts_question(
            payload,
            "In one to three words, please give the topic of the following:\n\n"@
                + pre.conversation_turns@[idx].bot_side@,
        );
    }
}

/// The tasks get a second at a time, five times at most, and no more once they have finished; then
/// the turns are asked about from the first on.
pub proof fn law_tasks_get_five_seconds(
    state: &mut ConversationState,
    tries: u32,
    event: SummaryEvent,
    stage: SummaryStage,
    step: SummaryStep,
)
    requires
        tries <= 5,
        stage == (SummaryStage::Checking { tries }) || stage == (SummaryStage::Sleeping { tries }),
        call_ensures(ConversationState::resume_summaries, (state, stage, event), step),
    ensures
        stage is Checking && event == (SummaryEvent::Checked { all_finished: false }) ==> *final(state)
            == *old(state) && step == SummaryStep::Act(
            SummaryAction::Sleep { millis: 1_000 },
            SummaryStage::Sleeping { tries: (tries + 1) as u32 },
        ),
        stage is Sleeping && tries < 5 ==> *final(state) == *old(state) && step == SummaryStep::Act(
            SummaryAction::CheckTasks,
            SummaryStage::Checking { tries },
        ),
        (stage is Checking && event == (SummaryEvent::Checked { all_finished: true })) || (stage
            is Sleeping && tries == 5) ==> comes_to_turn(
            *old(state),
            0,
            seq![],
            *final(state),
            step,
        ),
{
    if (stage is Checking && event == (SummaryEvent::Checked { all_finished: true })) || (
    stage is Sleeping && tries == 5) {
        lemma_comes_to_turn(*old(state), 0, seq![], *final(state), step);
    }
}

/// After the topic the summary of the same text is asked for, still under the number of its turn.
/// After the summary, or where a request failed, the next turn comes; what came back is kept under
/// the number of the turn it was asked for, behind what was made before, and a failure adds nothing.
pub proof fn law_answers_are_asked_about_in_turn(
    state: &mut ConversationState,
    idx: usize,
    bot_side: String,
    question: EditorQuestion,
    summaries: Vec<ConversationSummary>,
    reply: OpenAIReply,
    step: SummaryStep,
)
    requires
        call_ensures(
            ConversationState::resume_summaries,
            (
                state,
                SummaryStage::Asking { idx, bot_side, question, summaries },
                SummaryEvent::Replied(reply),
            ),
            step,
        ),
    ensures
        !(reply is Batch) ==> comes_to_turn(
            *old(state),
            idx + 1,
            summaries@,
            *final(state),
            step,
        ),
        reply matches OpenAIReply::Batch(batch) ==> match question {
            EditorQuestion::Topic => {
                &&& *final(state) == *old(state)
                &&& step matches SummaryStep::Act(SummaryAction::Ask(payload), next)
                &&& puts_question(
                    payload,
                    "In fewer than twenty words, please give a summary of the following:\n\n"@
                        + bot_side@,
                )
                &&& next == (SummaryStage::Asking {
                    idx,
                    bot_side,
                    question: EditorQuestion::Summary {
                        topic: batch.choices@[0].message.content,
                    },
                    summaries,
                })
            },
            EditorQuestion::Summary { topic } => comes_to_turn(
                *old(state),
                idx + 1,
                summaries@.push(
                    ConversationSummary {
                        idx,
                        topic,
                        summary: batch.choices@[0].message.content,
                    },
                ),
                *final(state),
                step,
            ),
        },
{
    if !(reply is Batch) {
        lemma_comes_to_turn(*old(state), idx + 1, summaries@, *final(state), step);
    } else if question is Topic {
        lemma_puts_question(
            step->Act_0->Ask_0,
            "In fewer than twenty words, please give a summary of the following:\n\n"@ + bot_side@,
        );
    } else {
        lemma_comes_to_turn(
            *old(state),
            idx + 1,
            summaries@.push(
                ConversationSummary {
                    idx,
                    topic: question->topic,
                    summary: reply->Batch_0.choices@[0].message.content,
                },
            ),
            *final(state),
            step,
        );
    }
}

/// Turns are asked about one after the other. `firsts[i]` is the step that asks for the topic of
/// turn `i`, which left the state as `asked[i]`; the reply is `replies[i].0`. Where that came, the
/// step `seconds[i]` asks for the summary, and the reply is `replies[i].1`. While a reply is waited
/// for, the tasks of the call may add to what was said.
pub open spec fn turns_are_asked_about(
    asked: Seq<ConversationState>,
    firsts: Seq<SummaryStep>,
    later: Seq<ConversationState>,
    replies: Seq<(OpenAIReply, OpenAIReply)>,
    between: Seq<ConversationState>,
    seconds: Seq<SummaryStep>,
    latest: Seq<ConversationState>,
) -> bool {
    let n = replies.len();
    &&& asked.len() == n + 1
    &&& firsts.len() == n + 1
    &&& later.len() == n
    &&& between.len() == n
    &&& seconds.len() == n
    &&& latest.len() == n
    &&& asked[0].conversation_turns@.len() == n
    &&& forall|i: int|
        0 <= i < n ==> {
            &&& #[trigger] firsts[i] is Act
            &&& said_meanwhile(asked[i], later[i])
            &&& summaries_resume(
                later[i],
                firsts[i]->Act_1,
                SummaryEvent::Replied(replies[i].0),
                between[i],
                seconds[i],
            )
            &&& said_meanwhile(between[i], latest[i])
            &&& if replies[i].0 is Batch {
                &&& seconds[i] is Act
                &&& summaries_resume(
                    latest[i],
                    seconds[i]->Act_1,
                    SummaryEvent::Replied(replies[i].1),
                    asked[i + 1],
                    firsts[i + 1],
                )
            } else {
                asked[i + 1] == between[i] && firsts[i + 1] == seconds[i]
            }
        }
}

/// In a whole run each turn's answer is asked about under its own number: both requests that are
/// sent for turn `k` end with what the bot had said in turn `k` when it was asked about, and
/// begin with the question for a topic and for a summary.
pub proof fn law_every_turn_is_asked_about_its_own_answer(
    began: ConversationState,
    asked: Seq<ConversationState>,
    firsts: Seq<SummaryStep>,
    later: Seq<ConversationState>,
    replies: Seq<(OpenAIReply, OpenAIReply)>,
    between: Seq<ConversationState>,
    seconds: Seq<SummaryStep>,
    latest: Seq<ConversationState>,
    k: int,
)
    requires
        asks_about_turn(began, 0, seq![], asked[0], firsts[0]),
        turns_are_asked_about(asked, firsts, later, replies, between, seconds, latest),
        0 <= k < replies.len(),
    ensures
        asked[k].conversation_turns@.len() == replies.len(),
        firsts[k] matches SummaryStep::Act(
            SummaryAction::Ask(payload),
            SummaryStage::Asking { idx, bot_side, question, .. },
        ) && idx == k && question is Topic && bot_side@ == asked[k].conversation_turns@[k].bot_side@
            && puts_question(
            payload,
            "In one to three words, please give the topic of the following:\n\n"@
                + asked[k].conversation_turns@[k].bot_side@,
        ),
        replies[k].0 matches OpenAIReply::Batch(batch) ==> {
            &&& seconds[k] matches SummaryStep::Act(
                SummaryAction::Ask(payload),
                SummaryStage::Asking { idx, bot_side, question, .. },
            )
            &&& idx == k
            &&& question matches EditorQuestion::Summary { topic }
            &&& topic@ == batch.choices@[0].message.content@
            &&& bot_side@ == asked[k].conversation_turns@[k].bot_side@
            &&& puts_question(
                payload,
                "In fewer than twenty words, please give a summary of the following:\n\n"@
                    + asked[k].conversation_turns@[k].bot_side@,
            )
        },
    decreases k,
{
    if k == 0 {
        lemma_comes_to_turn(began, 0, seq![], asked[0], firsts[0]);
    } else {
        let i = k - 1;
        law_every_turn_is_asked_about_its_own_answer(
            began,
            asked,
            firsts,
            later,
            replies,
            between,
            seconds,
            latest,
            i,
        );
        assert(firsts[i] is Act);
        let stage = firsts[i]->Act_1;
        let so_far = stage->Asking_summaries@;
        if replies[i].0 is Batch {
            let topic = seconds[i]->Act_1->Asking_question->topic;
            let made = if replies[i].1 is Batch {
                so_far.push(
                    ConversationSummary {
                        idx: i as usize,
                        topic,
                        summary: replies[i].1->Batch_0.choices@[0].message.content,
                    },
                )
            } else {
                so_far
            };
            assert(asks_about_turn(latest[i], k, made, asked[k], firsts[k]));
            lemma_comes_to_turn(latest[i], k, made, asked[k], firsts[k]);
        } else {
            lemma_comes_to_turn(later[i], k, so_far, asked[k], firsts[k]);
        }
    }
    assert(firsts[k] is Act);
    if replies[k].0 is Batch {
        lemma_puts_question(
            seconds[k]->Act_0->Ask_0,
            "In fewer than twenty words, please give a summary of the following:\n\n"@
                + asked[k].conversation_turns@[k].bot_side@,
        );
    }
}

proof fn lemma_last_summary(summaries: Seq<ConversationSummary>, turn: int, k: int)
    requires
        0 <= k < summaries.len(),
        summaries[k].idx == turn,
        forall|m: int| k < m < summaries.len() ==> (#[trigger] summaries[m]).idx != turn,
    ensures
        summary_of(summaries, turn) == Some(summaries[k]),
    decreases summaries.len(),
{
    if k < summaries.len() - 1 {
        assert(summaries[summaries.len() - 1].idx != turn);
        assert forall|m: int| k < m < summaries.drop_last().len() implies (
        #[trigger] summaries.drop_last()[m]).idx != turn by {
            assert(summaries[m].idx != turn);
        }
        lemma_last_summary(summaries.drop_last(), turn, k);
    }
}

/// The row of a turn says which call it belongs to, which turn it is, and what either side said, as
/// it was said. Its topic and summary are those of the last summary that was made of that turn; they
/// are empty where none was. There is one row for each turn.
pub proof fn law_row_is_of_its_turn(
    call: i32,
    turns: &Vec<ConversationTurn>,
    made: &Option<Vec<ConversationSummary>>,
    rows: TurnRows,
    i: int,
)
    requires
        call_ensures(turn_rows, (call, turns, made), rows),
        0 <= i < turns@.len(),
    ensures
        rows.call_ids@.len() == turns@.len(),
        rows.call_idxs@.len() == turns@.len(),
        rows.caller_sides@.len() == turns@.len(),
        rows.bot_sides@.len() == turns@.len(),
        rows.topics@.len() == turns@.len(),
        rows.summaries@.len() == turns@.len(),
        rows.call_ids@[i] == call,
        i <= i32::MAX ==> rows.call_idxs@[i] == i,
        rows.call_idxs@[i] == i as usize as i32,
        rows.caller_sides@[i]@ == turns@[i].caller_side@,
        rows.bot_sides@[i]@ == turns@[i].bot_side@,
        made is None || (forall|m: int|
            0 <= m < made->0@.len() ==> (#[trigger] made->0@[m]).idx != i) ==> {
            &&& rows.topics@[i]@.len() == 0
            &&& rows.summaries@[i]@.len() == 0
        },
        forall|k: int|
            (made is Some && 0 <= k < made->0@.len() && (#[trigger] made->0@[k]).idx == i && (forall|
                m: int,
            |
                k < m < made->0@.len() ==> (#[trigger] made->0@[m]).idx != i)) ==> {
                &&& rows.topics@[i]@ == made->0@[k].topic@
                &&& rows.summaries@[i]@ == made->0@[k].summary@
            },
{
    let summaries = summaries_of(*made);
    assert(rows.topics@[i]@ == topic_of(summaries, i));
    assert(rows.summaries@[i]@ == summary_text_of(summaries, i));
    if made is None || (forall|m: int|
        0 <= m < made->0@.len() ==> (#[trigger] made->0@[m]).idx != i) {
        law_no_summary_in_other_rows(summaries, i);
    }
    assert forall|k: int|
        (made is Some && 0 <= k < made->0@.len() && (#[trigger] made->0@[k]).idx == i && (forall|
            m: int,
        |
            k < m < made->0@.len() ==> (#[trigger] made->0@[m]).idx != i)) implies {
        &&& rows.topics@[i]@ == made->0@[k].topic@
        &&& rows.summaries@[i]@ == made->0@[k].summary@
    } by {
        lemma_last_summary(summaries, i, k);
    }
    assert(i <= i32::MAX ==> i as usize as i32 == i);
}

/// Storing a call begins with looking for the caller by the number that called.
pub proof fn law_storing_begins_with_the_caller(state: &ConversationState, step: DbStep)
    requires
        call_ensures(ConversationState::insert_db_row, (state,), step),
    ensures
        step == DbStep::Act(
            DbAction::FindCaller { phone: state.twilio_connect_payload.from },
            DbStage::FindingCaller,
        ),
{
}

/// A caller who is not found is added with all that Twilio said of where the call came from; one who
/// is found or added has the call stored in a transaction, which is only begun when the id of the
/// Deepgram request is known.
pub proof fn law_caller_is_found_or_added(
    state: &ConversationState,
    stage: DbStage,
    event: DbEvent,
    step: DbStep,
)
    requires
        stage is FindingCaller || stage is AddingCaller,
        call_ensures(ConversationState::resume_db_row, (state, stage, event), step),
    ensures
        stage is FindingCaller && event is Failed ==> {
            &&& step matches DbStep::Act(
                DbAction::AddCaller { phone, city, state: province, country, zip },
                DbStage::AddingCaller,
            )
            &&& phone == state.twilio_connect_payload.from
            &&& city == state.twilio_connect_payload.from_city
            &&& province == state.twilio_connect_payload.from_state
            &&& country == state.twilio_connect_payload.from_country
            &&& zip == state.twilio_connect_payload.from_zip
        },
        stage is AddingCaller && event is Failed ==> step == DbStep::Done(
            Err(AppError("db error")),
        ),
        event matches DbEvent::Row(caller) ==> step == if state.dg_request_id is Some {
            DbStep::Act(DbAction::Begin, DbStage::Beginning { caller })
        } else {
            DbStep::Done(Err(AppError("dg request id unavailable")))
        },
{
}

/// In the transaction the call is inserted with its caller, its two ids of Twilio and the id of
/// Deepgram; then the rows of its turns, as `turn_rows` makes them for the call that was inserted;
/// then it is committed, and only then is the call stored. Any failure ends it.
pub proof fn law_call_is_inserted_whole(
    state: &ConversationState,
    stage: DbStage,
    event: DbEvent,
    step: DbStep,
)
    requires
        !(stage is FindingCaller || stage is AddingCaller),
        call_ensures(ConversationState::resume_db_row, (state, stage, event), step),
    ensures
        event is Failed ==> step == DbStep::Done(Err(AppError("db error"))),
        stage matches DbStage::Beginning { caller } ==> event is Completed ==> {
            &&& step matches DbStep::Act(
                DbAction::AddCall { caller: of, twilio_call_sid, twilio_stream_sid, dg_request_id },
                DbStage::AddingCall,
            )
            &&& of == caller
            &&& twilio_call_sid == state.twilio_connect_payload.call_sid
            &&& twilio_stream_sid == state.twilio_stream_id
            &&& state.dg_request_id is Some ==> Some(dg_request_id) == state.dg_request_id
        },
        stage is AddingCall && event is Row ==> step matches DbStep::Act(
            DbAction::AddTurns(_),
            DbStage::AddingTurns,
        ),
        stage is AddingTurns && event is Completed ==> step == DbStep::Act(
            DbAction::Commit,
            DbStage::Committing,
        ),
        stage is Committing && event is Completed ==> step == DbStep::Done(Ok(())),
{
}

/// The rows that are inserted for a call say of each turn which call it belongs to, which turn it
/// is, and what either side said, as it was said; its topic and summary are those of the last
/// summary that was made of that turn, and empty where none was.
pub proof fn law_inserted_rows_are_of_their_turns(
    state: &ConversationState,
    call: i32,
    step: DbStep,
    i: int,
)
    requires
        call_ensures(
            ConversationState::resume_db_row,
            (state, DbStage::AddingCall, DbEvent::Row(call)),
            step,
        ),
        0 <= i < state.conversation_turns@.len(),
    ensures
        ({
            let turns = state.conversation_turns@;
            let made = state.conversation_summaries;
            &&& step matches DbStep::Act(DbAction::AddTurns(rows), DbStage::AddingTurns)
            &&& rows.call_ids@.len() == turns.len()
            &&& rows.call_idxs@.len() == turns.len()
            &&& rows.caller_sides@.len() == turns.len()
            &&& rows.bot_sides@.len() == turns.len()
            &&& rows.topics@.len() == turns.len()
            &&& rows.summaries@.len() == turns.len()
            &&& rows.call_ids@[i] == call
            &&& i <= i32::MAX ==> rows.call_idxs@[i] == i
            &&& rows.call_idxs@[i] == i as usize as i32
            &&& rows.caller_sides@[i]@ == turns[i].caller_side@
            &&& rows.bot_sides@[i]@ == turns[i].bot_side@
            &&& made is None || (forall|m: int|
                0 <= m < made->0@.len() ==> (#[trigger] made->0@[m]).idx != i) ==> {
                &&& rows.topics@[i]@.len() == 0
                &&& rows.summaries@[i]@.len() == 0
            }
            &&& forall|k: int|
                (made is Some && 0 <= k < made->0@.len() && (#[trigger] made->0@[k]).idx == i && (
                forall|m: int|
                    k < m < made->0@.len() ==> (#[trigger] made->0@[m]).idx != i)) ==> {
                    &&& rows.topics@[i]@ == made->0@[k].topic@
                    &&& rows.summaries@[i]@ == made->0@[k].summary@
                }
        }),
{
    let made = state.conversation_summaries;
    let rows = step->Act_0->AddTurns_0;
    let summaries = summaries_of(made);
    assert(rows.topics@[i]@ == topic_of(summaries, i));
    assert(rows.summaries@[i]@ == summary_text_of(summaries, i));
    if made is None || (forall|m: int|
        0 <= m < made->0@.len() ==> (#[trigger] made->0@[m]).idx != i) {
        law_no_summary_in_other_rows(summaries, i);
    }
    assert forall|k: int|
        (made is Some && 0 <= k < made->0@.len() && (#[trigger] made->0@[k]).idx == i && (forall|
            m: int,
        |
            k < m < made->0@.len() ==> (#[trigger] made->0@[m]).idx != i)) implies {
        &&& rows.topics@[i]@ == made->0@[k].topic@
        &&& rows.summaries@[i]@ == made->0@[k].summary@
    } by {
        lemma_last_summary(summaries, i, k);
    }
    assert(i <= i32::MAX ==> i as usize as i32 == i);
}

} // verus!
