//! The bot's side of a turn: the streamed answer of OpenAI is collected as it comes in, and
//! spoken clause by clause.

use vstd::prelude::*;
use vstd::utf8::{decode_utf8, valid_utf8};

use crate::consts::ASCII_CLAUSE_ENDINGS;
use crate::error::AppError;
use crate::event_stream::{chunk_events, data_payloads, texts};
use crate::openai_types::{OpenAIMessage, OpenAIPayload, OpenAIStreamResponse, StreamDelta};
use crate::texttospeech_v1_types::{AudioConfigAudioEncoding, SynthesizeSpeechRequest};
use crate::types::{asks_to_speak, speech_request, ConversationTurn};

verus! {

/// Collects the answer of a turn.
pub struct BotSideManager {
    /// What has been received and not been spoken yet.
    pub chat_buffer: String,
    /// The events of the chunk that was read last.
    pub responses: Vec<OpenAIStreamResponse>,
    /// How many of them have been handled.
    pub handled: usize,
}

/// What came of an action.
pub enum BotSideEvent {
    /// The request was sent, or could not be.
    Requested(bool),
    /// A chunk of the answer.
    Chunk(Vec<u8>),
    /// Reading the answer failed.
    ChunkFailed,
    /// The answer is complete.
    EndOfAnswer,
    /// The events of a chunk, each decoded where it could be.
    Decoded(Vec<Option<OpenAIStreamResponse>>),
    /// The audio was synthesized and is on its way.
    Spoken,
    /// The audio was synthesized, but the channel for it was closed. That isn't really an error,
    /// since it (probably) just means that we've stopped talking to allow the caller to speak.
    SpeechUnheard,
    /// The audio was synthesized, but the channel for it was full.
    SpeechBlocked,
}

/// What the surrounding program is to do.
pub enum BotSideAction {
    /// Read the next chunk of the answer.
    ReadChunk,
    /// Decode these events.
    Decode(Vec<String>),
    /// Have this synthesized, and put the audio in the channel of the media message task.
    Speak(SynthesizeSpeechRequest),
    /// The manager ends.
    Done(Result<(), AppError>),
}

/// `text` ends a clause.
pub open spec fn is_clause_ending(text: Seq<char>) -> bool {
    exists|i: int| 0 <= i < ASCII_CLAUSE_ENDINGS@.len() && (#[trigger] ASCII_CLAUSE_ENDINGS@[i])@ == text
}

/// Whether a text ends a clause.
pub fn ends_clause(text: &String) -> (yes: bool)
    ensures
        yes == is_clause_ending(text@),
{
    let endings = ASCII_CLAUSE_ENDINGS;
    for i in 0..endings.len()
        invariant
            endings@ == ASCII_CLAUSE_ENDINGS@,
            forall|j: int| 0 <= j < i ==> (#[trigger] ASCII_CLAUSE_ENDINGS@[j])@ != text@,
    {
        if *text == endings[i].to_string() {
            assert(ASCII_CLAUSE_ENDINGS@[i as int]@ == text@);
            return true;
        }
    }
    false
}

/// What a delta adds to the answer.
pub open spec fn delta_text(delta: StreamDelta) -> Seq<char> {
    match delta {
        StreamDelta::Content { content } => content@,
        _ => Seq::empty(),
    }
}

/// `delta_text` as a value.
pub open spec fn to_delta_text() -> spec_fn(StreamDelta) -> Seq<char> {
    |delta: StreamDelta| delta_text(delta)
}

/// What deltas add to the answer together.
pub open spec fn answer_text(deltas: Seq<StreamDelta>) -> Seq<char> {
    deltas.flat_map(to_delta_text())
}

/// After `delta` what has been received is spoken: it ends a clause, or the answer.
pub open spec fn completes_clause(delta: StreamDelta) -> bool {
    match delta {
        StreamDelta::Role { .. } => false,
        StreamDelta::Content { content } => is_clause_ending(content@),
        StreamDelta::Empty {  } => true,
    }
}

/// How many deltas come before the first that completes a clause.
pub open spec fn clause_end(deltas: Seq<StreamDelta>) -> nat
    decreases deltas.len(),
{
    if deltas.len() == 0 || completes_clause(deltas[0]) {
        0
    } else {
        1 + clause_end(deltas.skip(1))
    }
}

/// The events that could be decoded, in order; the others are dropped.
pub open spec fn understood(decoded: Seq<Option<OpenAIStreamResponse>>) -> Seq<
    OpenAIStreamResponse,
> {
    decoded.filter_map(|response: Option<OpenAIStreamResponse>| response)
}

/// Every event says what it adds.
pub open spec fn have_choices(responses: Seq<OpenAIStreamResponse>) -> bool {
    forall|i: int| 0 <= i < responses.len() ==> (#[trigger] responses[i]).choices@.len() > 0
}

/// What events add.
pub open spec fn deltas(responses: Seq<OpenAIStreamResponse>) -> Seq<StreamDelta> {
    responses.map_values(|r: OpenAIStreamResponse| r.choices@[0].delta)
}

/// `payload` asks OpenAI to go on with `conversation`, and to stream what it says.
pub open spec fn asks_to_stream(payload: OpenAIPayload, conversation: Vec<OpenAIMessage>) -> bool {
    &&& payload.model@ == "gpt-3.5-turbo"@
    &&& payload.messages == conversation
    &&& payload.stream == Some(true)
    &&& payload.max_tokens is None
}

/// Handling events up to the end of a clause: what they add goes to the bot's side of the turn;
/// if a clause is completed all that was received is spoken, else it is kept and the next chunk
/// is read.
pub open spec fn advances(
    pre: BotSideManager,
    turn_pre: ConversationTurn,
    post: BotSideManager,
    turn_post: ConversationTurn,
    action: BotSideAction,
) -> bool {
    let todo = pre.todo();
    let end = clause_end(todo) as int;
    let n = if end < todo.len() {
        end + 1
    } else {
        end
    };
    let added = answer_text(todo.take(n));
    &&& post.responses == pre.responses
    &&& post.handled == pre.handled + n
    &&& turn_post.caller_side == turn_pre.caller_side
    &&& turn_post.bot_side@ == turn_pre.bot_side@ + added
    &&& if end < todo.len() {
        &&& action matches BotSideAction::Speak(request)
        &&& asks_to_speak(
            request,
            pre.chat_buffer@ + added,
            AudioConfigAudioEncoding::MULAW,
        )
        &&& post.chat_buffer@ == Seq::<char>::empty()
    } else {
        &&& action is ReadChunk
        &&& post.chat_buffer@ == pre.chat_buffer@ + added
    }
}

/// What the manager does about an event: it makes `post` of itself and `turn_post` of the turn,
/// and goes on with `action`.
pub open spec fn bot_side_steps(
    pre: BotSideManager,
    turn_pre: ConversationTurn,
    event: BotSideEvent,
    post: BotSideManager,
    turn_post: ConversationTurn,
    action: BotSideAction,
) -> bool {
    match event {
        BotSideEvent::Decoded(decoded) => {
            &&& post.responses@ == understood(decoded@)
            &&& advances(
                BotSideManager { responses: post.responses, handled: 0, ..pre },
                turn_pre,
                post,
                turn_post,
                action,
            )
        },
        BotSideEvent::Spoken | BotSideEvent::SpeechUnheard => advances(
            pre,
            turn_pre,
            post,
            turn_post,
            action,
        ),
        BotSideEvent::Chunk(chunk) => {
            &&& post == pre
            &&& turn_post == turn_pre
            &&& if valid_utf8(chunk@) {
                &&& action matches BotSideAction::Decode(payloads)
                &&& texts(payloads@) == data_payloads(decode_utf8(chunk@))
            } else {
                action == BotSideAction::Done(
                    Err(AppError("Error deserializing OpenAI streamed choice")),
                )
            }
        },
        _ => {
            &&& post == pre
            &&& turn_post == turn_pre
            &&& action == match event {
                BotSideEvent::Requested(true) => BotSideAction::ReadChunk,
                BotSideEvent::Requested(false) => BotSideAction::Done(
                    Err(AppError("Failed to send request to OpenAI")),
                ),
                BotSideEvent::ChunkFailed => BotSideAction::Done(
                    Err(AppError("Error getting bytes chunk from OpenAI response stream")),
                ),
                BotSideEvent::EndOfAnswer => BotSideAction::Done(Ok(())),
                _ => BotSideAction::Done(
                    Err(AppError("Error sending tts payload through channel")),
                ),
            }
        },
    }
}

impl BotSideEvent {
    /// Every decoded event says what it adds.
    pub open spec fn wf(&self) -> bool {
        self matches BotSideEvent::Decoded(decoded) ==> have_choices(understood(decoded@))
    }
}

/// Drops the events that could not be decoded.
fn keep_understood(decoded: Vec<Option<OpenAIStreamResponse>>) -> (responses: Vec<
    OpenAIStreamResponse,
>)
    ensures
        responses@ == understood(decoded@),
{
    let mut responses: Vec<OpenAIStreamResponse> = Vec::new();
    assert(responses@ =~= understood(decoded@.take(0)));
    for response in it: decoded
        invariant
            it.seq() == decoded@,
            responses@ == understood(decoded@.take(it.index() as int)),
    {
        let ghost i = it.index() as int;
        assert(decoded@.take(i + 1).drop_last() =~= decoded@.take(i));
        if let Some(response) = response {
            responses.push(response);
        }
    }
    assert(decoded@.take(decoded@.len() as int) =~= decoded@);
    responses
}

/// Adds to what the bot says in a turn.
pub fn extend_bot_side(turn: &mut ConversationTurn, chunk: &str)
    ensures
        final(turn).bot_side@ == old(turn).bot_side@ + chunk@,
        final(turn).caller_side == old(turn).caller_side,
{
    turn.bot_side.append(chunk);
}

impl BotSideManager {
    /// Every event says what it adds, and no more have been handled than there are.
    pub open spec fn wf(&self) -> bool {
        &&& have_choices(self.responses@)
        &&& self.handled <= self.responses@.len()
    }

    /// What the events add that have not been handled yet.
    pub open spec fn todo(&self) -> Seq<StreamDelta> {
        deltas(self.responses@).skip(self.handled as int)
    }

    /// A manager that has received nothing yet, and the request for an answer to `conversation`.
    pub fn new(conversation: Vec<OpenAIMessage>) -> (manager: (BotSideManager, OpenAIPayload))
        ensures
            manager.0.wf(),
            manager.0.chat_buffer@ == Seq::<char>::empty(),
            manager.0.responses@.len() == 0,
            manager.0.handled == 0,
            asks_to_stream(manager.1, conversation),
    {
        let payload = OpenAIPayload {
            model: "gpt-3.5-turbo".to_string(),
            messages: conversation,
            stream: Some(true),
            max_tokens: None,
        };
        (
            BotSideManager { chat_buffer: String::new(), responses: Vec::new(), handled: 0 },
            payload,
        )
    }

    /// Handles events until a clause is complete or there are no more.
    fn advance(&mut self, turn: &mut ConversationTurn) -> (action: BotSideAction)
        requires
            old(self).wf(),
        ensures
            final(self).wf(),
            advances(*old(self), *old(turn), *final(self), *final(turn), action),
    {
        let ghost todo = self.todo();
        let ghost start = self.handled as int;
        proof {
            assert(answer_text(todo.take(0)) =~= Seq::<char>::empty());
            assert(self.chat_buffer@ + Seq::<char>::empty() =~= self.chat_buffer@);
            assert(turn.bot_side@ + Seq::<char>::empty() =~= turn.bot_side@);
        }
        while self.handled < self.responses.len()
            invariant
                self.wf(),
                self.responses == old(self).responses,
                start == old(self).handled,
                start <= self.handled,
                todo == old(self).todo(),
                todo.len() == self.responses@.len() - start,
                forall|i: int| 0 <= i < self.handled - start ==> !completes_clause(#[trigger] todo[i]),
                turn.caller_side == old(turn).caller_side,
                turn.bot_side@ == old(turn).bot_side@ + answer_text(
                    todo.take(self.handled - start),
                ),
                self.chat_buffer@ == old(self).chat_buffer@ + answer_text(
                    todo.take(self.handled - start),
                ),
            decreases self.responses@.len() - self.handled,
        {
            let ghost at = self.handled - start;
            let ghost added = answer_text(todo.take(at));
            let delta = &self.responses[self.handled].choices[0].delta;
            assert(*delta == todo[at]);
            proof {
                todo.take(at).lemma_flat_map_push(to_delta_text(), *delta);
                assert(todo.take(at + 1) =~= todo.take(at).push(*delta));
            }
            let complete = match delta {
                StreamDelta::Role { .. } => {
                    assert(added + Seq::<char>::empty() =~= added);
                    false
                },
                StreamDelta::Content { content } => {
                    extend_bot_side(turn, content.as_str());
                    self.chat_buffer.append(content.as_str());
                    assert(old(turn).bot_side@ + added + content@ =~= old(turn).bot_side@ + (added
                        + content@));
                    assert(old(self).chat_buffer@ + added + content@ =~= old(self).chat_buffer@ + (
                    added + content@));
                    ends_clause(content)
                },
                StreamDelta::Empty {  } => {
                    assert(added + Seq::<char>::empty() =~= added);
                    true
                },
            };
            self.handled = self.handled + 1;
            if complete {
                proof {
                    lemma_clause_end(todo, at);
                }
                let request = speech_request(
                    self.chat_buffer.as_str(),
                    AudioConfigAudioEncoding::MULAW,
                );
                self.chat_buffer = String::new();
                return BotSideAction::Speak(request);
            }
        }
        proof {
            lemma_clause_end(todo, todo.len() as int);
        }
        BotSideAction::ReadChunk
    }

    /// Decides what to do about an event.
    pub fn bot_side_manager(&mut self, turn: &mut ConversationTurn, event: BotSideEvent) -> (action:
        BotSideAction)
        requires
            old(self).wf(),
            event.wf(),
        ensures
            final(self).wf(),
            bot_side_steps(*old(self), *old(turn), event, *final(self), *final(turn), action),
    {
        match event {
            BotSideEvent::Requested(sent) => if sent {
                BotSideAction::ReadChunk
            } else {
                BotSideAction::Done(Err(AppError("Failed to send request to OpenAI")))
            },
            BotSideEvent::Chunk(chunk) => match chunk_events(chunk) {
                Some(payloads) => BotSideAction::Decode(payloads),
                None => BotSideAction::Done(
                    Err(AppError("Error deserializing OpenAI streamed choice")),
                ),
            },
            BotSideEvent::ChunkFailed => BotSideAction::Done(
                Err(AppError("Error getting bytes chunk from OpenAI response stream")),
            ),
            BotSideEvent::EndOfAnswer => BotSideAction::Done(Ok(())),
            BotSideEvent::Decoded(decoded) => {
                self.responses = keep_understood(decoded);
                self.handled = 0;
                self.advance(turn)
            },
            BotSideEvent::Spoken | BotSideEvent::SpeechUnheard => self.advance(turn),
            BotSideEvent::SpeechBlocked => BotSideAction::Done(
                Err(AppError("Error sending tts payload through channel")),
            ),
        }
    }
}

proof fn lemma_clause_end(deltas: Seq<StreamDelta>, k: int)
    requires
        0 <= k <= deltas.len(),
        forall|i: int| 0 <= i < k ==> !completes_clause(#[trigger] deltas[i]),
        k < deltas.len() ==> completes_clause(deltas[k]),
    ensures
        clause_end(deltas) == k,
    decreases deltas.len(),
{
    if k > 0 {
        assert(!completes_clause(deltas[0]));
        assert forall|i: int| 0 <= i < k - 1 implies !completes_clause(
            #[trigger] deltas.skip(1)[i],
        ) by {
            assert(deltas.skip(1)[i] == deltas[i + 1]);
        }
        lemma_clause_end(deltas.skip(1), k - 1);
    }
}

/// What is spoken, text by text, of an answer that adds `deltas` when `buffer` waits to be spoken.
pub open spec fn spoken(buffer: Seq<char>, deltas: Seq<StreamDelta>) -> Seq<Seq<char>>
    decreases deltas.len(),
{
    let n = clause_end(deltas) as int + 1;
    if n <= deltas.len() {
        seq![buffer + answer_text(deltas.take(n))] + spoken(Seq::empty(), deltas.skip(n))
    } else {
        seq![]
    }
}

/// What then still waits to be spoken.
pub open spec fn unspoken(buffer: Seq<char>, deltas: Seq<StreamDelta>) -> Seq<char>
    decreases deltas.len(),
{
    let n = clause_end(deltas) as int + 1;
    if n <= deltas.len() {
        unspoken(Seq::empty(), deltas.skip(n))
    } else {
        buffer + answer_text(deltas)
    }
}

proof fn lemma_answer_text_add(a: Seq<StreamDelta>, b: Seq<StreamDelta>)
    ensures
        answer_text(a + b) == answer_text(a) + answer_text(b),
    decreases b.len(),
{
    if b.len() == 0 {
        assert(a + b =~= a);
        assert(answer_text(b) =~= Seq::<char>::empty());
        assert(answer_text(a) + answer_text(b) =~= answer_text(a));
    } else {
        let init = b.drop_last();
        lemma_answer_text_add(a, init);
        (a + init).lemma_flat_map_push(to_delta_text(), b.last());
        init.lemma_flat_map_push(to_delta_text(), b.last());
        assert((a + init).push(b.last()) =~= a + b);
        assert(init.push(b.last()) =~= b);
        assert(answer_text(a + b) =~= answer_text(a) + answer_text(b));
    }
}

pub proof fn lemma_clause_end_fits(deltas: Seq<StreamDelta>)
    ensures
        clause_end(deltas) <= deltas.len(),
        forall|i: int|
            0 <= i < clause_end(deltas) ==> !completes_clause(#[trigger] deltas[i]),
        clause_end(deltas) < deltas.len() ==> completes_clause(deltas[clause_end(deltas) as int]),
    decreases deltas.len(),
{
    if deltas.len() > 0 && !completes_clause(deltas[0]) {
        lemma_clause_end_fits(deltas.skip(1));
        assert forall|i: int| 0 <= i < clause_end(deltas) implies !completes_clause(
            #[trigger] deltas[i],
        ) by {
            if i > 0 {
                assert(deltas.skip(1)[i - 1] == deltas[i]);
            }
        }
    }
}

/// Nothing of an answer is lost and nothing is made up: what is spoken, and what waits to be
/// spoken, is what waited before and all that the answer adds, in order.
pub proof fn law_nothing_is_lost(buffer: Seq<char>, deltas: Seq<StreamDelta>)
    ensures
        spoken(buffer, deltas).flatten() + unspoken(buffer, deltas) == buffer + answer_text(deltas),
    decreases deltas.len(),
{
    let n = clause_end(deltas) as int + 1;
    if n <= deltas.len() {
        let text = buffer + answer_text(deltas.take(n));
        let rest = spoken(Seq::empty(), deltas.skip(n));
        law_nothing_is_lost(Seq::empty(), deltas.skip(n));
        assert(deltas.take(n) + deltas.skip(n) =~= deltas);
        lemma_answer_text_add(deltas.take(n), deltas.skip(n));
        assert((seq![text] + rest).drop_first() =~= rest);
        assert(spoken(buffer, deltas).flatten() =~= text + rest.flatten());
        assert(Seq::<char>::empty() + answer_text(deltas.skip(n)) =~= answer_text(deltas.skip(n)));
        assert(spoken(buffer, deltas).flatten() + unspoken(buffer, deltas) =~= buffer + answer_text(
            deltas,
        ));
    } else {
        assert(spoken(buffer, deltas).flatten() =~= Seq::<char>::empty());
        assert(spoken(buffer, deltas).flatten() + unspoken(buffer, deltas) =~= buffer + answer_text(
            deltas,
        ));
    }
}

/// It does not matter how an answer is cut into chunks: the same texts are spoken, and the same
/// waits to be spoken.
pub proof fn law_chunks_do_not_matter(
    buffer: Seq<char>,
    first: Seq<StreamDelta>,
    second: Seq<StreamDelta>,
)
    ensures
        spoken(buffer, first + second) == spoken(buffer, first) + spoken(
            unspoken(buffer, first),
            second,
        ),
        unspoken(buffer, first + second) == unspoken(unspoken(buffer, first), second),
    decreases first.len() + second.len(),
{
    let all = first + second;
    let n = clause_end(first) as int + 1;
    lemma_clause_end_fits(first);
    lemma_clause_end_fits(second);
    if n <= first.len() {
        lemma_clause_end(all, n - 1);
        assert(all.take(n) =~= first.take(n));
        assert(all.skip(n) =~= first.skip(n) + second);
        law_chunks_do_not_matter(Seq::empty(), first.skip(n), second);
        assert(spoken(buffer, all) =~= spoken(buffer, first) + spoken(
            unspoken(buffer, first),
            second,
        ));
    } else {
        let m = clause_end(second) as int;
        assert forall|i: int| 0 <= i < first.len() + m implies !completes_clause(
            #[trigger] all[i],
        ) by {
            if i < first.len() {
                assert(all[i] == first[i]);
            } else {
                assert(all[i] == second[i - first.len()]);
            }
        }
        lemma_clause_end(all, first.len() + m);
        if m < second.len() {
            assert(all.take(first.len() + m + 1) =~= first + second.take(m + 1));
            assert(all.skip(first.len() + m + 1) =~= second.skip(m + 1));
            lemma_answer_text_add(first, second.take(m + 1));
            assert(buffer + (answer_text(first) + answer_text(second.take(m + 1))) =~= (buffer
                + answer_text(first)) + answer_text(second.take(m + 1)));
        } else {
            lemma_answer_text_add(first, second);
            assert(buffer + (answer_text(first) + answer_text(second)) =~= (buffer + answer_text(
                first,
            )) + answer_text(second));
        }
        assert(spoken(buffer, first) =~= seq![]);
        assert(spoken(buffer, all) =~= spoken(buffer, first) + spoken(
            unspoken(buffer, first),
            second,
        ));
    }
}

/// At the end of a clause, and at the end of the answer, nothing waits to be spoken.
pub proof fn law_clause_end_is_spoken(buffer: Seq<char>, deltas: Seq<StreamDelta>)
    requires
        deltas.len() > 0,
        completes_clause(deltas.last()),
    ensures
        unspoken(buffer, deltas) == Seq::<char>::empty(),
    decreases deltas.len(),
{
    lemma_clause_end_fits(deltas);
    let n = clause_end(deltas) as int + 1;
    assert(deltas[deltas.len() - 1] == deltas.last());
    if n < deltas.len() {
        assert(deltas.skip(n).last() == deltas.last());
        law_clause_end_is_spoken(Seq::empty(), deltas.skip(n));
    } else {
        assert(deltas.skip(n) =~= seq![]);
        assert(answer_text(seq![]) =~= Seq::<char>::empty());
        assert(Seq::<char>::empty() + answer_text(seq![]) =~= Seq::<char>::empty());
        assert(unspoken(Seq::empty(), seq![]) =~= Seq::<char>::empty());
    }
}

/// A step of the manager speaks the next of the texts that are to be spoken, or reads on when
/// there is none left; and what it speaks or keeps is on the bot's side of the turn.
pub proof fn law_steps_speak_in_order(
    pre: BotSideManager,
    turn_pre: ConversationTurn,
    post: BotSideManager,
    turn_post: ConversationTurn,
    action: BotSideAction,
)
    requires
        pre.wf(),
        advances(pre, turn_pre, post, turn_post, action),
    ensures
        unspoken(post.chat_buffer@, post.todo()) == unspoken(pre.chat_buffer@, pre.todo()),
        turn_post.bot_side@ + answer_text(post.todo()) == turn_pre.bot_side@ + answer_text(
            pre.todo(),
        ),
        match action {
            BotSideAction::Speak(request) => {
                let texts = spoken(pre.chat_buffer@, pre.todo());
                &&& texts.len() > 0
                &&& asks_to_speak(request, texts[0], AudioConfigAudioEncoding::MULAW)
                &&& spoken(post.chat_buffer@, post.todo()) == texts.drop_first()
            },
            _ => {
                &&& action is ReadChunk
                &&& spoken(pre.chat_buffer@, pre.todo()).len() == 0
                &&& post.todo().len() == 0
                &&& post.chat_buffer@ == unspoken(pre.chat_buffer@, pre.todo())
            },
        },
{
    let todo = pre.todo();
    lemma_clause_end_fits(todo);
    let n = post.handled - pre.handled;
    assert(post.todo() =~= todo.skip(n));
    assert(todo.take(n) + todo.skip(n) =~= todo);
    lemma_answer_text_add(todo.take(n), todo.skip(n));
    assert(turn_post.bot_side@ + answer_text(post.todo()) =~= turn_pre.bot_side@ + answer_text(
        pre.todo(),
    ));
    if n == todo.len() {
        assert(todo.take(n) =~= todo);
        assert(answer_text(todo.skip(n)) =~= Seq::<char>::empty());
        assert(post.chat_buffer@ + Seq::<char>::empty() =~= post.chat_buffer@);
    }
    let texts = spoken(pre.chat_buffer@, todo);
    if clause_end(todo) < todo.len() {
        assert(texts.drop_first() =~= spoken(Seq::empty(), todo.skip(n)));
        assert(post.chat_buffer@ =~= Seq::<char>::empty());
    }
}

/// What an event brings of the answer.
pub open spec fn received(event: BotSideEvent) -> Seq<StreamDelta> {
    match event {
        BotSideEvent::Decoded(decoded) => deltas(understood(decoded@)),
        _ => seq![],
    }
}

/// What events bring of the answer together.
pub open spec fn all_received(events: Seq<BotSideEvent>) -> Seq<StreamDelta>
    decreases events.len(),
{
    if events.len() == 0 {
        seq![]
    } else {
        all_received(events.drop_last()) + received(events.last())
    }
}

/// The text that an action has spoken, where it has one spoken.
pub open spec fn said(action: BotSideAction) -> Seq<Seq<char>> {
    match action {
        BotSideAction::Speak(request) => seq![request.input->0.text->0@],
        _ => seq![],
    }
}

/// The texts that actions have spoken, in order.
pub open spec fn all_said(actions: Seq<BotSideAction>) -> Seq<Seq<char>>
    decreases actions.len(),
{
    if actions.len() == 0 {
        seq![]
    } else {
        all_said(actions.drop_last()) + said(actions.last())
    }
}

/// `event` is what comes of `action`.
pub open spec fn comes_of(action: BotSideAction, event: BotSideEvent) -> bool {
    match action {
        BotSideAction::ReadChunk => event is Chunk || event is ChunkFailed || event is EndOfAnswer,
        BotSideAction::Decode(_) => event is Decoded,
        BotSideAction::Speak(_) => event is Spoken || event is SpeechUnheard || event is SpeechBlocked,
        BotSideAction::Done(_) => false,
    }
}

/// A run of the manager: it begins when the request has been sent or could not be, every event
/// comes of the action before it, and `managers` are what the steps make of the manager. A step
/// finds the turn as in `found` and leaves it as in `left`; in between others may write to the
/// caller's side of it.
pub open spec fn answer_runs(
    managers: Seq<BotSideManager>,
    found: Seq<ConversationTurn>,
    left: Seq<ConversationTurn>,
    events: Seq<BotSideEvent>,
    actions: Seq<BotSideAction>,
) -> bool {
    &&& events.len() > 0
    &&& events[0] is Requested
    &&& actions.len() == events.len()
    &&& managers.len() == events.len() + 1
    &&& found.len() == events.len()
    &&& left.len() == events.len()
    &&& forall|i: int| 0 <= i < managers.len() ==> (#[trigger] managers[i]).wf()
    &&& forall|i: int|
        0 <= i < events.len() ==> bot_side_steps(
            managers[i],
            found[i],
            #[trigger] events[i],
            managers[i + 1],
            left[i],
            actions[i],
        )
    &&& forall|i: int| 0 < i < events.len() ==> comes_of(actions[i - 1], #[trigger] events[i])
    &&& forall|i: int|
        0 < i < events.len() ==> (#[trigger] found[i]).bot_side == left[i - 1].bot_side
}

/// Over a whole run the answer is collected and spoken as it was received, wherever it was cut
/// into chunks, and whether or not anybody still listened: the bot's side of the turn is extended
/// by all that was received, but for what still has to be handled; the texts that were spoken and
/// those that are still to be spoken are the clauses of the answer, in order. Whenever the next
/// chunk is to be read, and at the good end of the run, everything has been handled. The caller's
/// side of the turn is left as it is found.
pub proof fn law_whole_answer_is_collected(
    managers: Seq<BotSideManager>,
    found: Seq<ConversationTurn>,
    left: Seq<ConversationTurn>,
    events: Seq<BotSideEvent>,
    actions: Seq<BotSideAction>,
)
    requires
        answer_runs(managers, found, left, events, actions),
        managers[0].todo().len() == 0,
    ensures
        left.last().caller_side == found.last().caller_side,
        left.last().bot_side@ + answer_text(managers.last().todo()) == found[0].bot_side@
            + answer_text(all_received(events)),
        all_said(actions) + spoken(managers.last().chat_buffer@, managers.last().todo()) == spoken(
            managers[0].chat_buffer@,
            all_received(events),
        ),
        unspoken(managers.last().chat_buffer@, managers.last().todo()) == unspoken(
            managers[0].chat_buffer@,
            all_received(events),
        ),
        actions.last() is ReadChunk || actions.last() is Decode || actions.last()
            == BotSideAction::Done(Ok(())) ==> managers.last().todo().len() == 0,
    decreases events.len(),
{
    let n = events.len() - 1;
    let pre = managers[n];
    let post = managers[n + 1];
    let event = events[n];
    let action = actions[n];
    let before = all_received(events.drop_last());
    let buffer = managers[0].chat_buffer@;
    assert(bot_side_steps(pre, found[n], event, post, left[n], action));
    assert(pre.wf() && post.wf());
    if n == 0 {
        assert(events.drop_last() =~= seq![]);
        assert(actions.drop_last() =~= seq![]);
        lemma_nothing_to_do(buffer);
        lemma_nothing_to_do(post.chat_buffer@);
        assert(pre.todo() =~= seq![]);
        assert(all_received(events) =~= seq![]);
        assert(all_said(actions.drop_last()) =~= seq![]);
        assert(all_said(actions) =~= seq![]);
    } else {
        let ms = managers.drop_last();
        let fs = found.drop_last();
        let ls = left.drop_last();
        let es = events.drop_last();
        let acts = actions.drop_last();
        assert forall|i: int| 0 <= i < ms.len() implies (#[trigger] ms[i]).wf() by {
            assert(managers[i].wf());
        }
        assert forall|i: int| 0 <= i < es.len() implies bot_side_steps(
            ms[i],
            fs[i],
            #[trigger] es[i],
            ms[i + 1],
            ls[i],
            acts[i],
        ) by {
            assert(events[i] == es[i]);
        }
        assert forall|i: int| 0 < i < es.len() implies comes_of(acts[i - 1], #[trigger] es[i]) by {
            assert(events[i] == es[i]);
        }
        assert forall|i: int| 0 < i < es.len() implies (#[trigger] fs[i]).bot_side == ls[i
            - 1].bot_side by {
            assert(found[i] == fs[i]);
        }
        law_whole_answer_is_collected(ms, fs, ls, es, acts);
        assert(comes_of(actions[n - 1], events[n]));
        assert(acts.last() == actions[n - 1]);
        assert(ms.last() == pre);
        assert(ls.last().bot_side == found[n].bot_side);
        let start = match event {
            BotSideEvent::Decoded(_) => BotSideManager {
                responses: post.responses,
                handled: 0,
                ..pre
            },
            _ => pre,
        };
        if event is Decoded {
            assert(pre.todo() =~= seq![]);
            assert(start.todo() =~= received(event));
            lemma_nothing_to_do(pre.chat_buffer@);
            law_chunks_do_not_matter(buffer, before, received(event));
            lemma_answer_text_add(before, received(event));
            assert(all_said(acts) + Seq::<Seq<char>>::empty() =~= all_said(acts));
            assert(found[n].bot_side@ + Seq::<char>::empty() =~= found[n].bot_side@);
        } else {
            assert(all_received(events) =~= before);
        }
        assert(found[n].bot_side@ + answer_text(start.todo()) =~= found[0].bot_side@ + answer_text(
            all_received(events),
        ));
        if event is Decoded || event is Spoken || event is SpeechUnheard {
            law_steps_speak_in_order(start, found[n], post, left[n], action);
            let texts = spoken(start.chat_buffer@, start.todo());
            assert(said(action) + spoken(post.chat_buffer@, post.todo()) =~= texts);
            assert(all_said(actions) + spoken(post.chat_buffer@, post.todo()) =~= all_said(acts)
                + texts);
        } else {
            assert(all_said(actions) =~= all_said(acts));
        }
    }
}

proof fn lemma_nothing_to_do(buffer: Seq<char>)
    ensures
        answer_text(seq![]) == Seq::<char>::empty(),
        spoken(buffer, seq![]) == Seq::<Seq<char>>::empty(),
        unspoken(buffer, seq![]) == buffer,
{
    assert(answer_text(seq![]) =~= Seq::<char>::empty());
    assert(buffer + Seq::<char>::empty() =~= buffer);
}

} // verus!
