//! The caller's side of a turn: what Deepgram has written down for good is collected until the
//! bot is to answer.

use vstd::prelude::*;

use crate::error::AppError;
use crate::types::{ConversationSignal, ConversationTurn};

verus! {

/// How the caller-side manager goes on.
pub enum CallerSideStep {
    /// Wait for the next signal.
    Wait,
    /// The manager ends.
    Done(Result<(), AppError>),
}

/// What the caller said, when `side` was said before and then `chunk`: the two, with a space in
/// between.
pub open spec fn said_more(side: Seq<char>, chunk: Seq<char>) -> Seq<char> {
    if side.len() == 0 {
        chunk
    } else {
        side + " "@ + chunk
    }
}

impl ConversationSignal {
    /// A final transcript has a reading to go by.
    pub open spec fn wf(&self) -> bool {
        self matches ConversationSignal::StreamingResponse(said) ==> said.is_final
            ==> said.has_transcript()
    }
}

/// What the caller said, when `side` was said before `signal` came.
pub open spec fn side_after(side: Seq<char>, signal: ConversationSignal) -> Seq<char> {
    match signal {
        ConversationSignal::StreamingResponse(said) => if said.is_final {
            said_more(side, said.spec_transcript())
        } else {
            side
        },
        ConversationSignal::Go => side,
    }
}

/// Adds to what the caller says in a turn.
pub fn extend_caller_side(turn: &mut ConversationTurn, chunk: &str)
    ensures
        final(turn).caller_side@ == said_more(old(turn).caller_side@, chunk@),
        final(turn).bot_side == old(turn).bot_side,
{
    if !turn.caller_side.as_str().is_empty() {
        turn.caller_side.append(" ");
    } else {
        assert(Seq::<char>::empty() + chunk@ =~= chunk@);
        assert(turn.caller_side@ =~= Seq::<char>::empty());
    }
    turn.caller_side.append(chunk);
}

/// Takes a signal in; `None` says that there will be no more.
pub fn caller_side_manager(turn: &mut ConversationTurn, signal: Option<ConversationSignal>) -> (step:
    CallerSideStep)
    requires
        signal matches Some(s) ==> s.wf(),
    ensures
        final(turn).bot_side == old(turn).bot_side,
        final(turn).caller_side@ == match signal {
            Some(s) => side_after(old(turn).caller_side@, s),
            None => old(turn).caller_side@,
        },
        step == match signal {
            Some(ConversationSignal::StreamingResponse(_)) => CallerSideStep::Wait,
            _ => CallerSideStep::Done(Ok(())),
        },
{
    match signal {
        Some(ConversationSignal::Go) => CallerSideStep::Done(Ok(())),
        Some(ConversationSignal::StreamingResponse(streaming_response)) => {
            if streaming_response.is_final {
                extend_caller_side(turn, streaming_response.transcript());
            }
            CallerSideStep::Wait
        },
        None => CallerSideStep::Done(Ok(())),
    }
}

/// What the manager makes of the caller's side of a turn, when `side` was there and `signals`
/// come in: it takes in one after the other, and none after the first `Go`.
pub open spec fn side_after_all(side: Seq<char>, signals: Seq<ConversationSignal>) -> Seq<char>
    decreases signals.len(),
{
    if signals.len() == 0 || signals[0] is Go {
        side
    } else {
        side_after_all(side_after(side, signals[0]), signals.skip(1))
    }
}

/// The final transcripts that come in before the first `Go`.
pub open spec fn final_transcripts(signals: Seq<ConversationSignal>) -> Seq<Seq<char>>
    decreases signals.len(),
{
    if signals.len() == 0 {
        seq![]
    } else {
        match signals[0] {
            ConversationSignal::Go => seq![],
            ConversationSignal::StreamingResponse(said) => if said.is_final {
                seq![said.channel.alternatives@[0].transcript@] + final_transcripts(signals.skip(1))
            } else {
                final_transcripts(signals.skip(1))
            },
        }
    }
}

/// Texts with a space between each and the next.
pub open spec fn spaced(texts: Seq<Seq<char>>) -> Seq<char>
    decreases texts.len(),
{
    if texts.len() == 0 {
        Seq::empty()
    } else if texts.len() == 1 {
        texts[0]
    } else {
        texts[0] + " "@ + spaced(texts.skip(1))
    }
}

proof fn lemma_side_after_all(side: Seq<char>, signals: Seq<ConversationSignal>)
    requires
        forall|i: int|
            0 <= i < final_transcripts(signals).len() ==> (#[trigger] final_transcripts(
                signals,
            )[i]).len() > 0,
    ensures
        side_after_all(side, signals) == if final_transcripts(signals).len() == 0 {
            side
        } else {
            said_more(side, spaced(final_transcripts(signals)))
        },
    decreases signals.len(),
{
    if signals.len() > 0 && signals[0] is StreamingResponse {
        let said = signals[0]->StreamingResponse_0;
        let rest = final_transcripts(signals.skip(1));
        if said.is_final {
            let text = said.spec_transcript();
            let all = final_transcripts(signals);
            assert(all[0] == text);
            assert(text.len() > 0);
            assert forall|i: int| 0 <= i < rest.len() implies (#[trigger] rest[i]).len() > 0 by {
                assert(rest[i] == all[i + 1]);
            }
            lemma_side_after_all(said_more(side, text), signals.skip(1));
            assert(all.skip(1) =~= rest);
            if rest.len() > 0 {
                assert(said_more(said_more(side, text), spaced(rest)) =~= said_more(
                    side,
                    text + " "@ + spaced(rest),
                ));
            }
        } else {
            lemma_side_after_all(side, signals.skip(1));
        }
    }
}

/// What the manager collects in a new turn is what Deepgram wrote down for good, piece by piece
/// with a space in between; what was provisional leaves no trace. Every piece says something:
/// silence is not relayed.
pub proof fn law_caller_side_is_final_transcripts(signals: Seq<ConversationSignal>)
    requires
        forall|i: int|
            0 <= i < final_transcripts(signals).len() ==> (#[trigger] final_transcripts(
                signals,
            )[i]).len() > 0,
    ensures
        side_after_all(Seq::empty(), signals) == spaced(final_transcripts(signals)),
{
    lemma_side_after_all(Seq::empty(), signals);
}

} // verus!
