//! What is kept of a call: a row for the caller, one for the call, and one for each turn.

use uuid::Uuid;
use vstd::prelude::*;

use crate::conversation_state::ConversationState;
use crate::error::AppError;
use crate::types::{ConversationSummary, ConversationTurn};

verus! {

/// The rows of the turns of a call, column by column.
pub struct TurnRows {
    pub call_ids: Vec<i32>,
    pub call_idxs: Vec<i32>,
    pub caller_sides: Vec<String>,
    pub bot_sides: Vec<String>,
    pub topics: Vec<String>,
    pub summaries: Vec<String>,
}

/// What is known to come next in storing a call, once it is known what came of an action.
pub enum DbStage {
    FindingCaller,
    AddingCaller,
    Beginning { caller: i32 },
    AddingCall,
    AddingTurns,
    Committing,
}

/// What the surrounding program is to do. All actions from `Begin` on belong to one transaction.
pub enum DbAction {
    /// Fetch the caller with this phone number.
    FindCaller { phone: String },
    /// Insert a caller.
    AddCaller {
        phone: String,
        city: Option<String>,
        state: Option<String>,
        country: Option<String>,
        zip: Option<String>,
    },
    /// Begin a transaction.
    Begin,
    /// Insert a call.
    AddCall {
        caller: i32,
        twilio_call_sid: String,
        twilio_stream_sid: String,
        dg_request_id: Uuid,
    },
    /// Insert turns.
    AddTurns(TurnRows),
    /// Commit the transaction.
    Commit,
}

/// What came of an action.
pub enum DbEvent {
    /// The row with this id was fetched or inserted.
    Row(i32),
    /// What has no row to show for it was done.
    Completed,
    Failed,
}

/// How storing a call goes on.
pub enum DbStep {
    /// Do this, and come back at the stage.
    Act(DbAction, DbStage),
    /// The call is stored, or cannot be.
    Done(Result<(), AppError>),
}

/// The last of `summaries` that is of turn `turn`, where there is one.
pub open spec fn summary_of(summaries: Seq<ConversationSummary>, turn: int) -> Option<
    ConversationSummary,
>
    decreases summaries.len(),
{
    if summaries.len() == 0 {
        None
    } else if summaries.last().idx == turn {
        Some(summaries.last())
    } else {
        summary_of(summaries.drop_last(), turn)
    }
}

/// The summaries there are; none before they are made.
pub open spec fn summaries_of(made: Option<Vec<ConversationSummary>>) -> Seq<ConversationSummary> {
    match made {
        Some(summaries) => summaries@,
        None => seq![],
    }
}

/// The topic of a turn; empty where nothing is known.
pub open spec fn topic_of(summaries: Seq<ConversationSummary>, turn: int) -> Seq<char> {
    match summary_of(summaries, turn) {
        Some(summary) => summary.topic@,
        None => Seq::empty(),
    }
}

/// The summary of a turn; empty where nothing is known.
pub open spec fn summary_text_of(summaries: Seq<ConversationSummary>, turn: int) -> Seq<char> {
    match summary_of(summaries, turn) {
        Some(summary) => summary.summary@,
        None => Seq::empty(),
    }
}

/// `rows` has a row for each of `turns`, in order: the call it belongs to, its place in the call,
/// what was said, and what it was about.
pub open spec fn rows_of(
    rows: TurnRows,
    call: i32,
    turns: Seq<ConversationTurn>,
    summaries: Seq<ConversationSummary>,
) -> bool {
    &&& rows.call_ids@ == Seq::new(turns.len(), |i: int| call)
    &&& rows.call_idxs@ == Seq::new(turns.len(), |i: int| i as usize as i32)
    &&& rows.caller_sides@ == Seq::new(turns.len(), |i: int| turns[i].caller_side)
    &&& rows.bot_sides@ == Seq::new(turns.len(), |i: int| turns[i].bot_side)
    &&& rows.topics@.len() == turns.len()
    &&& forall|i: int|
        0 <= i < turns.len() ==> (#[trigger] rows.topics@[i])@ == topic_of(summaries, i)
    &&& rows.summaries@.len() == turns.len()
    &&& forall|i: int|
        0 <= i < turns.len() ==> (#[trigger] rows.summaries@[i])@ == summary_text_of(summaries, i)
}

/// Makes the rows of the turns of a call.
pub fn turn_rows(
    call: i32,
    turns: &Vec<ConversationTurn>,
    summaries: &Option<Vec<ConversationSummary>>,
) -> (rows: TurnRows)
    requires
        forall|i: int|
            0 <= i < summaries_of(*summaries).len() ==> (#[trigger] summaries_of(*summaries)[i]).idx
                < turns@.len(),
    ensures
        rows_of(rows, call, turns@, summaries_of(*summaries)),
{
    let mut call_ids: Vec<i32> = Vec::new();
    let mut call_idxs: Vec<i32> = Vec::new();
    let mut caller_sides: Vec<String> = Vec::new();
    let mut bot_sides: Vec<String> = Vec::new();
    let mut topics: Vec<String> = Vec::new();
    let mut texts: Vec<String> = Vec::new();
    for i in 0..turns.len()
        invariant
            call_ids@ == Seq::new(i as nat, |j: int| call),
            call_idxs@ == Seq::new(i as nat, |j: int| j as usize as i32),
            caller_sides@ == Seq::new(i as nat, |j: int| turns@[j].caller_side),
            bot_sides@ == Seq::new(i as nat, |j: int| turns@[j].bot_side),
            topics@.len() == i,
            forall|j: int| 0 <= j < i ==> (#[trigger] topics@[j])@ == Seq::<char>::empty(),
            texts@.len() == i,
            forall|j: int| 0 <= j < i ==> (#[trigger] texts@[j])@ == Seq::<char>::empty(),
    {
        call_ids.push(call);
        call_idxs.push(#[verifier::truncate] (i as i32));
        caller_sides.push(turns[i].caller_side.clone());
        bot_sides.push(turns[i].bot_side.clone());
        topics.push(String::new());
        texts.push(String::new());
    }
    if let Some(made) = summaries {
        assert(made@ == summaries_of(*summaries));
        for k in 0..made.len()
            invariant
                forall|i: int|
                    0 <= i < made@.len() ==> (#[trigger] made@[i]).idx < turns@.len(),
                topics@.len() == turns@.len(),
                forall|j: int|
                    0 <= j < turns@.len() ==> (#[trigger] topics@[j])@ == topic_of(
                        made@.take(k as int),
                        j,
                    ),
                texts@.len() == turns@.len(),
                forall|j: int|
                    0 <= j < turns@.len() ==> (#[trigger] texts@[j])@ == summary_text_of(
                        made@.take(k as int),
                        j,
                    ),
        {
            let summary = &made[k];
            assert(made@[k as int].idx < turns@.len());
            topics.set(summary.idx, summary.topic.clone());
            texts.set(summary.idx, summary.summary.clone());
            assert(made@.take(k + 1).drop_last() =~= made@.take(k as int));
        }
        assert(made@.take(made@.len() as int) =~= made@);
    }
    TurnRows { call_ids, call_idxs, caller_sides, bot_sides, topics, summaries: texts }
}

/// What storing a call does first.
pub open spec fn db_start(state: ConversationState, step: DbStep) -> bool {
    step == DbStep::Act(
        DbAction::FindCaller { phone: state.twilio_connect_payload.from },
        DbStage::FindingCaller,
    )
}

/// What storing a call does once it is known that the caller is `caller`. Without the id of the
/// Deepgram request a call is not stored.
pub open spec fn db_begins(state: ConversationState, caller: i32, step: DbStep) -> bool {
    step == if state.dg_request_id is Some {
        DbStep::Act(DbAction::Begin, DbStage::Beginning { caller })
    } else {
        DbStep::Done(Err(AppError("dg request id unavailable")))
    }
}

/// What `resume_db_row` does.
pub open spec fn db_resume(
    state: ConversationState,
    stage: DbStage,
    event: DbEvent,
    step: DbStep,
) -> bool {
    let payload = state.twilio_connect_payload;
    match (stage, event) {
        (DbStage::FindingCaller, DbEvent::Row(caller)) => db_begins(state, caller, step),
        (DbStage::FindingCaller, DbEvent::Failed) => step == DbStep::Act(
            DbAction::AddCaller {
                phone: payload.from,
                city: payload.from_city,
                state: payload.from_state,
                country: payload.from_country,
                zip: payload.from_zip,
            },
            DbStage::AddingCaller,
        ),
        (DbStage::AddingCaller, DbEvent::Row(caller)) => db_begins(state, caller, step),
        (DbStage::Beginning { caller }, DbEvent::Completed) => step == DbStep::Act(
            DbAction::AddCall {
                caller,
                twilio_call_sid: payload.call_sid,
                twilio_stream_sid: state.twilio_stream_id,
                dg_request_id: state.dg_request_id->0,
            },
            DbStage::AddingCall,
        ),
        (DbStage::AddingCall, DbEvent::Row(call)) => {
            &&& step matches DbStep::Act(DbAction::AddTurns(rows), DbStage::AddingTurns)
            &&& rows_of(
                rows,
                call,
                state.conversation_turns@,
                summaries_of(state.conversation_summaries),
            )
        },
        (DbStage::AddingTurns, DbEvent::Completed) => step == DbStep::Act(
            DbAction::Commit,
            DbStage::Committing,
        ),
        (DbStage::Committing, DbEvent::Completed) => step == DbStep::Done(Ok(())),
        (_, DbEvent::Failed) => step == DbStep::Done(Err(AppError("db error"))),
        _ => false,
    }
}

impl DbStage {
    /// `event` is what comes of the action before the stage.
    pub open spec fn awaits(&self, event: DbEvent) -> bool {
        event is Failed || match self {
            DbStage::FindingCaller | DbStage::AddingCaller | DbStage::AddingCall => event is Row,
            DbStage::Beginning { .. } | DbStage::AddingTurns | DbStage::Committing =>
                event is Completed,
        }
    }
}

impl ConversationState {
    /// Every summary is of a turn that there is.
    pub open spec fn can_be_stored(&self) -> bool {
        let summaries = summaries_of(self.conversation_summaries);
        forall|i: int|
            0 <= i < summaries.len() ==> (#[trigger] summaries[i]).idx
                < self.conversation_turns@.len()
    }

    /// Storing the call can stand at `stage`: no transaction begins without the id of the Deepgram
    /// request.
    pub open spec fn at_db_stage(&self, stage: DbStage) -> bool {
        &&& self.can_be_stored()
        &&& stage is Beginning ==> self.dg_request_id is Some
    }

    /// The state and step are such that `resume_db_row` can follow.
    pub open spec fn can_go_on_with_db(&self, step: DbStep) -> bool {
        step matches DbStep::Act(_, stage) ==> self.at_db_stage(stage)
    }

    /// Stores the call.
    pub fn insert_db_row(&self) -> (step: DbStep)
        requires
            self.can_be_stored(),
        ensures
            db_start(*self, step),
            self.can_go_on_with_db(step),
    {
        DbStep::Act(
            DbAction::FindCaller { phone: self.twilio_connect_payload.from.clone() },
            DbStage::FindingCaller,
        )
    }

    /// Goes on when the caller is known.
    fn begin_db_row(&self, caller: i32) -> (step: DbStep)
        requires
            self.can_be_stored(),
        ensures
            db_begins(*self, caller, step),
            self.can_go_on_with_db(step),
    {
        if self.dg_request_id.is_none() {
            return DbStep::Done(Err(AppError("dg request id unavailable")));
        }
        DbStep::Act(DbAction::Begin, DbStage::Beginning { caller })
    }

    /// Goes on with storing the call: `event` is what came of the action before `stage`.
    pub fn resume_db_row(&self, stage: DbStage, event: DbEvent) -> (step: DbStep)
        requires
            self.at_db_stage(stage),
            stage.awaits(event),
        ensures
            db_resume(*self, stage, event, step),
            self.can_go_on_with_db(step),
    {
        let payload = &self.twilio_connect_payload;
        match (stage, event) {
            (DbStage::FindingCaller, DbEvent::Row(caller)) => self.begin_db_row(caller),
            (DbStage::FindingCaller, _) => DbStep::Act(
                DbAction::AddCaller {
                    phone: payload.from.clone(),
                    city: payload.from_city.clone(),
                    state: payload.from_state.clone(),
                    country: payload.from_country.clone(),
                    zip: payload.from_zip.clone(),
                },
                DbStage::AddingCaller,
            ),
            (DbStage::AddingCaller, DbEvent::Row(caller)) => self.begin_db_row(caller),
            (DbStage::Beginning { caller }, DbEvent::Completed) => match self.dg_request_id {
                Some(dg_request_id) => DbStep::Act(
                    DbAction::AddCall {
                        caller,
                        twilio_call_sid: payload.call_sid.clone(),
                        twilio_stream_sid: self.twilio_stream_id.clone(),
                        dg_request_id,
                    },
                    DbStage::AddingCall,
                ),
                None => DbStep::Done(Err(AppError("dg request id unavailable"))),
            },
            (DbStage::AddingCall, DbEvent::Row(call)) => DbStep::Act(
                DbAction::AddTurns(
                    turn_rows(call, &self.conversation_turns, &self.conversation_summaries),
                ),
                DbStage::AddingTurns,
            ),
            (DbStage::AddingTurns, DbEvent::Completed) => DbStep::Act(
                DbAction::Commit,
                DbStage::Committing,
            ),
            (DbStage::Committing, DbEvent::Completed) => DbStep::Done(Ok(())),
            _ => DbStep::Done(Err(AppError("db error"))),
        }
    }
}

} // verus!
