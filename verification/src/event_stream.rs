//! The framing of a streamed OpenAI answer: lines of text, of which those that start with
//! `data: ` carry an event each.

use vstd::prelude::*;
use vstd::utf8::{decode_utf8, valid_utf8};

verus! {

/// What stands in front of the payload of an event.
pub const DATA_PREFIX: &'static str = "data: ";

/// Where the first line of `text` ends: at its first line feed, or at its own end.
pub open spec fn line_end(text: Seq<char>) -> nat
    decreases text.len(),
{
    if text.len() == 0 || text[0] == '\n' {
        0
    } else {
        1 + line_end(text.skip(1))
    }
}

/// A line without the carriage return that stands in front of its line feed.
pub open spec fn strip_cr(line: Seq<char>) -> Seq<char> {
    if line.len() > 0 && line.last() == '\r' {
        line.drop_last()
    } else {
        line
    }
}

/// The lines of `text`, each without the line feed, or carriage return and line feed, that ends
/// it. The last line may go without; an empty last line is none.
pub open spec fn lines(text: Seq<char>) -> Seq<Seq<char>>
    decreases text.len(),
{
    if text.len() == 0 {
        seq![]
    } else if line_end(text) < text.len() {
        seq![strip_cr(text.take(line_end(text) as int))] + lines(text.skip(line_end(text) as int + 1))
    } else {
        seq![text]
    }
}

/// The payload of a line, where it has one.
pub open spec fn data_payload(line: Seq<char>) -> Option<Seq<char>> {
    if DATA_PREFIX@.is_prefix_of(line) {
        Some(line.skip(DATA_PREFIX@.len() as int))
    } else {
        None
    }
}

/// `data_payload` as a value.
pub open spec fn to_data_payload() -> spec_fn(Seq<char>) -> Option<Seq<char>> {
    |line: Seq<char>| data_payload(line)
}

/// The payloads of the events in `text`, in order.
pub open spec fn data_payloads(text: Seq<char>) -> Seq<Seq<char>> {
    lines(text).filter_map(to_data_payload())
}

/// The texts of a vector of strings.
pub open spec fn texts(strings: Seq<String>) -> Seq<Seq<char>> {
    strings.map_values(|s: String| s@)
}

pub proof fn lemma_line_end(text: Seq<char>, k: int)
    requires
        0 <= k <= text.len(),
        forall|i: int| 0 <= i < k ==> text[i] != '\n',
        k < text.len() ==> text[k] == '\n',
    ensures
        line_end(text) == k,
    decreases text.len(),
{
    if k > 0 {
        lemma_line_end(text.skip(1), k - 1);
    }
}

/// Splits a text into lines and takes the payloads of those that have one.
pub fn data_events(text: &str) -> (payloads: Vec<String>)
    ensures
        texts(payloads@) == data_payloads(text@),
{
    proof {
        reveal_strlit("data: ");
    }
    let mut chars: Vec<char> = Vec::new();
    for c in it: text.chars()
        invariant
            it.seq() == text@,
            chars@ == text@.take(it.index() as int),
    {
        chars.push(c);
    }
    assert(chars@ =~= text@);
    let n: usize = chars.len();
    let mut payloads: Vec<String> = Vec::new();
    let mut pos: usize = 0;
    let ghost mut done: Seq<Seq<char>> = seq![];
    assert(text@.skip(0) =~= text@);
    assert(texts(payloads@) =~= done.filter_map(to_data_payload()));
    while pos < n
        invariant
            n == chars.len(),
            chars@ == text@,
            pos <= n,
            DATA_PREFIX@ == seq!['d', 'a', 't', 'a', ':', ' '],
            lines(text@) == done + lines(text@.skip(pos as int)),
            texts(payloads@) == done.filter_map(to_data_payload()),
        decreases n - pos,
    {
        let mut end: usize = pos;
        while end < n && chars[end] != '\n'
            invariant
                n == chars.len(),
                pos <= end <= n,
                forall|i: int| pos <= i < end ==> chars@[i] != '\n',
            decreases n - end,
        {
            end = end + 1;
        }
        let stop: usize = if end < n && end > pos && chars[end - 1] == '\r' {
            end - 1
        } else {
            end
        };
        let ghost line = text@.subrange(pos as int, stop as int);
        let ghost rest = text@.skip(pos as int);
        proof {
            lemma_line_end(rest, end - pos);
            if end < n {
                assert(rest.take(end - pos) =~= text@.subrange(pos as int, end as int));
                assert(strip_cr(rest.take(end - pos)) =~= line);
                assert(rest.skip(end - pos + 1) =~= text@.skip(end + 1));
            } else {
                assert(rest =~= line);
                assert(text@.skip(n as int) =~= seq![]);
            }
            let after = text@.skip(if end < n { end + 1 } else { n as int });
            assert(lines(rest) =~= seq![line] + lines(after));
            assert(lines(text@) =~= done.push(line) + lines(after));
            assert(done.push(line).drop_last() =~= done);
        }
        if stop - pos >= 6 && chars[pos] == 'd' && chars[pos + 1] == 'a' && chars[pos + 2] == 't'
            && chars[pos + 3] == 'a' && chars[pos + 4] == ':' && chars[pos + 5] == ' ' {
            payloads.push(text.substring_char(pos + 6, stop).to_string());
            assert(DATA_PREFIX@ =~= line.take(6));
            assert(text@.subrange(pos + 6, stop as int) =~= line.skip(6));
            assert(texts(payloads@) =~= done.filter_map(to_data_payload()).push(line.skip(6)));
        } else {
            assert(!DATA_PREFIX@.is_prefix_of(line)) by {
                if DATA_PREFIX@.is_prefix_of(line) {
                    assert(forall|i: int| 0 <= i < 6 ==> line[i] == DATA_PREFIX@[i]);
                }
            }
        }
        proof {
            done = done.push(line);
        }
        pos = if end < n {
            end + 1
        } else {
            n
        };
    }
    assert(text@.skip(n as int) =~= seq![]);
    assert(done + lines(seq![]) =~= done);
    payloads
}

/// Turns bytes into text with `String::from_utf8`. Trusted: that succeeds exactly on UTF-8, and
/// gives the characters that the bytes encode.
#[verifier::external_body]
fn text_of_utf8(bytes: Vec<u8>) -> (text: Option<String>)
    ensures
        text is Some == valid_utf8(bytes@),
        text matches Some(t) ==> t@ == decode_utf8(bytes@),
{
    match String::from_utf8(bytes) {
        Ok(text) => Some(text),
        Err(_) => None,
    }
}

/// The payloads of the events in a chunk of a streamed answer; `None` where the chunk is not UTF-8.
pub fn chunk_events(chunk: Vec<u8>) -> (payloads: Option<Vec<String>>)
    ensures
        payloads is Some == valid_utf8(chunk@),
        payloads matches Some(p) ==> texts(p@) == data_payloads(decode_utf8(chunk@)),
{
    match text_of_utf8(chunk) {
        Some(text) => Some(data_events(text.as_str())),
        None => None,
    }
}

/// The event that carries `payload`, as it is sent.
pub open spec fn data_event(payload: Seq<char>) -> Seq<char> {
    DATA_PREFIX@ + payload + seq!['\n', '\n']
}

/// `data_event` as a value.
pub open spec fn to_data_event() -> spec_fn(Seq<char>) -> Seq<char> {
    |payload: Seq<char>| data_event(payload)
}

/// `payload` fits on one line: there is no line feed in it, nor a carriage return at its end.
pub open spec fn fits_on_line(payload: Seq<char>) -> bool {
    &&& forall|i: int| 0 <= i < payload.len() ==> payload[i] != '\n'
    &&& payload.len() > 0 ==> payload.last() != '\r'
}

pub proof fn lemma_filter_map_add<A, B>(a: Seq<A>, b: Seq<A>, f: spec_fn(A) -> Option<B>)
    ensures
        (a + b).filter_map(f) == a.filter_map(f) + b.filter_map(f),
    decreases b.len(),
{
    if b.len() == 0 {
        assert(a + b =~= a);
        assert(a.filter_map(f) + b.filter_map(f) =~= a.filter_map(f));
    } else {
        lemma_filter_map_add(a, b.drop_last(), f);
        assert((a + b).drop_last() =~= a + b.drop_last());
        assert((a + b).filter_map(f) =~= a.filter_map(f) + b.filter_map(f));
    }
}

pub proof fn lemma_first_line(line: Seq<char>, rest: Seq<char>)
    requires
        forall|i: int| 0 <= i < line.len() ==> line[i] != '\n',
    ensures
        lines(line + seq!['\n'] + rest) == seq![strip_cr(line)] + lines(rest),
{
    let text = line + seq!['\n'] + rest;
    lemma_line_end(text, line.len() as int);
    assert(text.take(line.len() as int) =~= line);
    assert(text.skip(line.len() as int + 1) =~= rest);
}

proof fn lemma_lines_add(a: Seq<char>, b: Seq<char>)
    requires
        a.len() > 0 ==> a.last() == '\n',
    ensures
        lines(a + b) == lines(a) + lines(b),
    decreases a.len(),
{
    if a.len() == 0 {
        assert(a + b =~= b);
        assert(lines(a) + lines(b) =~= lines(b));
    } else {
        lemma_some_line_feed(a, a.len() - 1);
        let k = line_end(a) as int;
        let line = a.take(k);
        let rest = a.skip(k + 1);
        assert(a =~= line + seq!['\n'] + rest);
        assert(a + b =~= line + seq!['\n'] + (rest + b));
        lemma_first_line(line, rest);
        lemma_first_line(line, rest + b);
        if rest.len() > 0 {
            assert(rest.last() == a.last());
        }
        lemma_lines_add(rest, b);
        assert(lines(a + b) =~= lines(a) + lines(b));
    }
}

proof fn lemma_some_line_feed(text: Seq<char>, at: int)
    requires
        0 <= at < text.len(),
        text[at] == '\n',
    ensures
        line_end(text) <= at,
        text[line_end(text) as int] == '\n',
        forall|i: int| 0 <= i < line_end(text) ==> text[i] != '\n',
    decreases text.len(),
{
    if text[0] != '\n' {
        lemma_some_line_feed(text.skip(1), at - 1);
        assert forall|i: int| 0 <= i < line_end(text) implies text[i] != '\n' by {
            if i > 0 {
                assert(text.skip(1)[i - 1] == text[i]);
            }
        }
    }
}

/// Where a text is cut after a line feed, the events of its parts are its events: none is lost
/// and none is made up.
pub proof fn law_chunks_join(a: Seq<char>, b: Seq<char>)
    requires
        a.len() > 0 ==> a.last() == '\n',
    ensures
        data_payloads(a + b) == data_payloads(a) + data_payloads(b),
{
    lemma_lines_add(a, b);
    lemma_filter_map_add(lines(a), lines(b), to_data_payload());
}

proof fn lemma_one_event(payload: Seq<char>)
    requires
        fits_on_line(payload),
    ensures
        data_payloads(data_event(payload)) == seq![payload],
{
    reveal_strlit("data: ");
    let line = DATA_PREFIX@ + payload;
    let nl = seq!['\n'];
    assert(forall|i: int| 0 <= i < line.len() ==> line[i] != '\n');
    assert(data_event(payload) =~= line + nl + nl);
    lemma_first_line(line, nl);
    assert(nl =~= Seq::<char>::empty() + nl + Seq::<char>::empty());
    lemma_first_line(Seq::empty(), Seq::empty());
    assert(line.last() != '\r');
    let ls = seq![line, Seq::<char>::empty()];
    assert(lines(data_event(payload)) =~= ls);
    assert(line.skip(6) =~= payload);
    assert(DATA_PREFIX@.is_prefix_of(line));
    assert(!DATA_PREFIX@.is_prefix_of(Seq::<char>::empty()));
    assert(ls.drop_last() =~= seq![line]);
    assert(seq![line].drop_last() =~= Seq::<Seq<char>>::empty());
    reveal_with_fuel(Seq::filter_map, 3);
    assert(ls.filter_map(to_data_payload()) =~= seq![payload]);
}

/// What was framed as events comes back: the payloads of a text that is made of events are the
/// payloads that the events were made from.
pub proof fn law_framing_round_trip(payloads: Seq<Seq<char>>)
    requires
        forall|i: int| 0 <= i < payloads.len() ==> fits_on_line(#[trigger] payloads[i]),
    ensures
        data_payloads(payloads.flat_map(to_data_event())) == payloads,
    decreases payloads.len(),
{
    if payloads.len() == 0 {
        assert(payloads.flat_map(to_data_event()) =~= Seq::<char>::empty());
        assert(data_payloads(Seq::<char>::empty()) =~= payloads);
    } else {
        let init = payloads.drop_last();
        let text = init.flat_map(to_data_event());
        law_framing_round_trip(init);
        init.lemma_flat_map_push(to_data_event(), payloads.last());
        assert(init.push(payloads.last()) =~= payloads);
        lemma_events_end_in_line_feed(init);
        law_chunks_join(text, data_event(payloads.last()));
        lemma_one_event(payloads.last());
        assert(init + seq![payloads.last()] =~= payloads);
    }
}

proof fn lemma_events_end_in_line_feed(payloads: Seq<Seq<char>>)
    ensures
        payloads.flat_map(to_data_event()).len() > 0 ==> payloads.flat_map(to_data_event()).last()
            == '\n',
{
    if payloads.len() > 0 {
        let init = payloads.drop_last();
        init.lemma_flat_map_push(to_data_event(), payloads.last());
        assert(init.push(payloads.last()) =~= payloads);
        assert(data_event(payloads.last()).last() == '\n');
    } else {
        assert(payloads.flat_map(to_data_event()) =~= Seq::<char>::empty());
    }
}

} // verus!
