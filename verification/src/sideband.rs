//! Free-text progress that the remote side sends during a transfer, turned
//! into numbered lines.

use vstd::prelude::*;
use vstd::slice::slice_subrange;
use vstd::string::*;
use crate::backend::{decode_lossy, utf8_lossy};
use crate::text::ends_with;

verus! {

/// A line of progress with the index under which it is delivered. A line
/// with the index of an earlier one replaces it.
#[derive(Clone, Debug, PartialEq, Eq)]
pub struct ProgressMessage {
    pub index: usize,
    pub text: String,
}

impl View for ProgressMessage {
    type V = (nat, Seq<char>);

    open spec fn view(&self) -> (nat, Seq<char>) {
        (self.index as nat, self.text@)
    }
}

/// The lines of a list, each as its index and its characters.
pub open spec fn message_views(messages: Seq<ProgressMessage>) -> Seq<(nat, Seq<char>)> {
    Seq::new(messages.len(), |i: int| messages[i]@)
}

/// What `update_remote` hands back: the lines to deliver, in order, and the
/// index for the next call.
#[derive(Clone, Debug, PartialEq, Eq)]
pub struct RemoteUpdate {
    pub next_index: usize,
    pub messages: Vec<ProgressMessage>,
}

/// A line feed or a carriage return: the remote side ends a line with the
/// first and rewrites a line in place with the second.
pub open spec fn is_line_break(b: u8) -> bool {
    b == 10 || b == 13
}

/// The position of the first line break in `s`, or its length where it has
/// none.
pub open spec fn first_break(s: Seq<u8>) -> int
    decreases s.len(),
{
    if s.len() == 0 || is_line_break(s[0]) {
        0
    } else {
        1 + first_break(s.skip(1))
    }
}

/// The pieces of `s` between its line breaks, in order, empty ones included:
/// one more than it has line breaks. Cutting at line feeds and then cutting
/// each piece at carriage returns gives the same pieces.
pub open spec fn fragments(s: Seq<u8>) -> Seq<Seq<u8>>
    decreases s.len(),
{
    let k = first_break(s);
    if 0 <= k < s.len() {
        seq![s.take(k)] + fragments(s.skip(k + 1))
    } else {
        seq![s]
    }
}

/// The position of the first `sep` in `s`, or its length where it has none.
pub open spec fn first_of(s: Seq<u8>, sep: u8) -> int
    decreases s.len(),
{
    if s.len() == 0 || s[0] == sep {
        0
    } else {
        1 + first_of(s.skip(1), sep)
    }
}

/// The pieces of `s` between each `sep` and the next, in order, empty ones
/// included.
pub open spec fn split_at(s: Seq<u8>, sep: u8) -> Seq<Seq<u8>>
    decreases s.len(),
{
    let k = first_of(s, sep);
    if 0 <= k < s.len() {
        seq![s.take(k)] + split_at(s.skip(k + 1), sep)
    } else {
        seq![s]
    }
}

/// The pieces of every one of `pieces`, cut at `sep`, in order.
pub open spec fn split_each(pieces: Seq<Seq<u8>>, sep: u8) -> Seq<Seq<u8>>
    decreases pieces.len(),
{
    if pieces.len() == 0 {
        Seq::empty()
    } else {
        split_at(pieces[0], sep) + split_each(pieces.skip(1), sep)
    }
}

/// The first `sep` stands where nothing before it is one.
pub proof fn lemma_first_of(s: Seq<u8>, sep: u8, k: int)
    requires
        0 <= k <= s.len(),
        forall|j: int| 0 <= j < k ==> s[j] != sep,
        k < s.len() ==> s[k] == sep,
    ensures
        first_of(s, sep) == k,
    decreases k,
{
    if k > 0 {
        let t = s.skip(1);
        assert forall|j: int| 0 <= j < k - 1 implies t[j] != sep by {
            assert(t[j] == s[j + 1]);
        }
        lemma_first_of(t, sep, k - 1);
    }
}

/// The first `sep` lies within the buffer or at its end.
pub proof fn lemma_first_of_bounds(s: Seq<u8>, sep: u8)
    ensures
        0 <= first_of(s, sep) <= s.len(),
        first_of(s, sep) < s.len() ==> s[first_of(s, sep)] == sep,
        forall|j: int| 0 <= j < first_of(s, sep) ==> s[j] != sep,
    decreases s.len(),
{
    if s.len() == 0 || s[0] == sep {
    } else {
        let t = s.skip(1);
        lemma_first_of_bounds(t, sep);
        let k = first_of(s, sep);
        if k < s.len() {
            assert(t[k - 1] == s[k]);
        }
        assert forall|j: int| 0 <= j < k implies s[j] != sep by {
            if j > 0 {
                assert(t[j - 1] == s[j]);
            }
        }
    }
}

/// Where a buffer holds no line feed, cutting it at line breaks is cutting
/// it at carriage returns.
pub proof fn lemma_fragments_without_line_feed(s: Seq<u8>)
    requires
        forall|j: int| 0 <= j < s.len() ==> s[j] != 10,
    ensures
        fragments(s) == split_at(s, 13),
    decreases s.len(),
{
    lemma_first_of_bounds(s, 13);
    let k = first_of(s, 13);
    lemma_first_break(s, k);
    if k < s.len() {
        let rest = s.skip(k + 1);
        assert forall|j: int| 0 <= j < rest.len() implies rest[j] != 10 by {
            assert(rest[j] == s[k + 1 + j]);
        }
        lemma_fragments_without_line_feed(rest);
    }
}

/// Cutting what stands before a line break and what stands behind it, each
/// for itself, gives the pieces of the whole.
pub proof fn lemma_fragments_around_break(a: Seq<u8>, b: u8, rest: Seq<u8>)
    requires
        is_line_break(b),
    ensures
        fragments(a + seq![b] + rest) == fragments(a) + fragments(rest),
    decreases a.len(),
{
    let whole = a + seq![b] + rest;
    lemma_first_break_bounds(a);
    let k = first_break(a);
    assert forall|j: int| 0 <= j < k implies !is_line_break(whole[j]) by {
        assert(whole[j] == a[j]);
    }
    if k < a.len() {
        assert(whole[k] == a[k]);
        lemma_first_break(whole, k);
        let tail = a.skip(k + 1);
        assert(whole.take(k) =~= a.take(k));
        assert(whole.skip(k + 1) =~= tail + seq![b] + rest);
        lemma_fragments_around_break(tail, b, rest);
        assert(fragments(whole) =~= fragments(a) + fragments(rest));
    } else {
        assert(whole[k] == b);
        lemma_first_break(whole, k);
        assert(whole.take(k) =~= a);
        assert(whole.skip(k + 1) =~= rest);
        assert(fragments(a) == seq![a]);
    }
}

/// Cutting a buffer at its line feeds and then each piece at its carriage
/// returns gives the pieces of `fragments`, in the same order.
pub proof fn lemma_fragments_are_nested_split(s: Seq<u8>)
    ensures
        split_each(split_at(s, 10), 13) == fragments(s),
    decreases s.len(),
{
    lemma_first_of_bounds(s, 10);
    let k = first_of(s, 10);
    let lines = split_at(s, 10);
    if k < s.len() {
        let line = s.take(k);
        let rest = s.skip(k + 1);
        assert(lines[0] == line);
        assert(lines.skip(1) =~= split_at(rest, 10));
        assert forall|j: int| 0 <= j < line.len() implies line[j] != 10 by {
            assert(line[j] == s[j]);
        }
        lemma_fragments_without_line_feed(line);
        lemma_fragments_are_nested_split(rest);
        lemma_fragments_around_break(line, 10, rest);
        assert(s =~= line + seq![10u8] + rest);
    } else {
        assert(lines[0] == s);
        assert(lines.skip(1) =~= Seq::<Seq<u8>>::empty());
        lemma_fragments_without_line_feed(s);
        assert(split_each(lines.skip(1), 13) =~= Seq::<Seq<u8>>::empty());
        assert(split_each(lines, 13) =~= split_at(s, 13));
    }
}

/// The bytes of `done.`.
pub open spec fn done_suffix() -> Seq<u8> {
    seq![100u8, 111u8, 110u8, 101u8, 46u8]
}

/// The text of the line for a fragment.
pub open spec fn remote_line(fragment: Seq<u8>) -> Seq<char> {
    "remote: "@ + utf8_lossy(fragment)
}

/// The lines that one fragment gives at `index`: one where it is not empty.
pub open spec fn fragment_messages(index: nat, fragment: Seq<u8>) -> Seq<(nat, Seq<char>)> {
    if fragment.len() > 0 {
        seq![(index, remote_line(fragment))]
    } else {
        Seq::empty()
    }
}

/// The index behind a fragment: one more where the fragment ends in `done.`.
pub open spec fn fragment_next(index: nat, fragment: Seq<u8>) -> nat {
    if ends_with(fragment, done_suffix()) {
        index + 1
    } else {
        index
    }
}

/// The lines that a run of fragments gives, starting at `index`.
pub open spec fn remote_messages(index: nat, frags: Seq<Seq<u8>>) -> Seq<(nat, Seq<char>)>
    decreases frags.len(),
{
    if frags.len() == 0 {
        Seq::empty()
    } else {
        fragment_messages(index, frags[0]) + remote_messages(
            fragment_next(index, frags[0]),
            frags.skip(1),
        )
    }
}

/// The index behind a run of fragments that starts at `index`.
pub open spec fn remote_next_index(index: nat, frags: Seq<Seq<u8>>) -> nat
    decreases frags.len(),
{
    if frags.len() == 0 {
        index
    } else {
        remote_next_index(fragment_next(index, frags[0]), frags.skip(1))
    }
}

/// The first line break stands where nothing before it is one.
pub proof fn lemma_first_break(s: Seq<u8>, k: int)
    requires
        0 <= k <= s.len(),
        forall|j: int| 0 <= j < k ==> !is_line_break(s[j]),
        k < s.len() ==> is_line_break(s[k]),
    ensures
        first_break(s) == k,
    decreases k,
{
    if k > 0 {
        let t = s.skip(1);
        assert forall|j: int| 0 <= j < k - 1 implies !is_line_break(t[j]) by {
            assert(t[j] == s[j + 1]);
        }
        lemma_first_break(t, k - 1);
    }
}

/// The index never goes down over a run of fragments.
pub proof fn lemma_remote_index_grows(index: nat, frags: Seq<Seq<u8>>)
    ensures
        remote_next_index(index, frags) >= index,
    decreases frags.len(),
{
    if frags.len() > 0 {
        lemma_remote_index_grows(fragment_next(index, frags[0]), frags.skip(1));
    }
}

/// Every line of a run carries an index between the one it started at and
/// the one behind it, and the indices never go down along the run.
pub proof fn lemma_remote_messages_ordered(index: nat, frags: Seq<Seq<u8>>)
    ensures
        forall|i: int|
            0 <= i < remote_messages(index, frags).len() ==> index <= (#[trigger] remote_messages(
                index,
                frags,
            )[i]).0 <= remote_next_index(index, frags),
        forall|i: int, j: int|
            0 <= i <= j < remote_messages(index, frags).len() ==> (#[trigger] remote_messages(
                index,
                frags,
            )[i]).0 <= (#[trigger] remote_messages(index, frags)[j]).0,
    decreases frags.len(),
{
    if frags.len() > 0 {
        let next = fragment_next(index, frags[0]);
        let head = fragment_messages(index, frags[0]);
        let tail = remote_messages(next, frags.skip(1));
        lemma_remote_messages_ordered(next, frags.skip(1));
        lemma_remote_index_grows(next, frags.skip(1));
        let all = remote_messages(index, frags);
        assert(all == head + tail);
        assert forall|i: int| 0 <= i < all.len() implies index <= (#[trigger] all[i]).0
            <= remote_next_index(index, frags) by {
            if i >= head.len() {
                assert(all[i] == tail[i - head.len()]);
            }
        }
        assert forall|i: int, j: int| 0 <= i <= j < all.len() implies (#[trigger] all[i]).0 <= (
        #[trigger] all[j]).0 by {
            if i >= head.len() {
                assert(all[i] == tail[i - head.len()]);
                assert(all[j] == tail[j - head.len()]);
            } else if j >= head.len() {
                assert(all[j] == tail[j - head.len()]);
            }
        }
    }
}

/// The index moves on by no more than the buffer has bytes: a caller that
/// has room for as many indices as the buffer has bytes meets what
/// `update_remote` asks.
pub proof fn lemma_remote_index_bound(index: nat, s: Seq<u8>)
    ensures
        remote_next_index(index, fragments(s)) <= index + s.len(),
    decreases s.len(),
{
    let k = first_break(s);
    lemma_first_break_bounds(s);
    let frags = fragments(s);
    if 0 <= k < s.len() {
        let head = s.take(k);
        let rest = s.skip(k + 1);
        assert(frags[0] == head);
        assert(frags.skip(1) =~= fragments(rest));
        lemma_remote_index_bound(fragment_next(index, head), rest);
    } else {
        assert(frags[0] == s);
        assert(frags.skip(1) =~= Seq::<Seq<u8>>::empty());
        assert(remote_next_index(fragment_next(index, s), frags.skip(1)) == fragment_next(
            index,
            s,
        ));
    }
}

/// The first line break lies within the buffer or at its end.
pub proof fn lemma_first_break_bounds(s: Seq<u8>)
    ensures
        0 <= first_break(s) <= s.len(),
        first_break(s) < s.len() ==> is_line_break(s[first_break(s)]),
        forall|j: int| 0 <= j < first_break(s) ==> !is_line_break(s[j]),
    decreases s.len(),
{
    if s.len() == 0 || is_line_break(s[0]) {
    } else {
        let t = s.skip(1);
        lemma_first_break_bounds(t);
        let k = first_break(s);
        if k < s.len() {
            assert(t[k - 1] == s[k]);
        }
        assert forall|j: int| 0 <= j < k implies !is_line_break(s[j]) by {
            if j > 0 {
                assert(t[j - 1] == s[j]);
            }
        }
    }
}

/// Tells whether `fragment` ends in `done.`.
fn ends_in_done(fragment: &[u8]) -> (b: bool)
    ensures
        b == ends_with(fragment@, done_suffix()),
{
    let n = fragment.len();
    if n < 5 {
        return false;
    }
    let b = fragment[n - 5] == 100 && fragment[n - 4] == 111 && fragment[n - 3] == 110
        && fragment[n - 2] == 101 && fragment[n - 1] == 46;
    proof {
        let tail = fragment@.skip(n - 5);
        if b {
            assert(tail =~= done_suffix());
        } else {
            assert(tail[0] == fragment@[n - 5]);
            assert(tail[1] == fragment@[n - 4]);
            assert(tail[2] == fragment@[n - 3]);
            assert(tail[3] == fragment@[n - 2]);
            assert(tail[4] == fragment@[n - 1]);
        }
    }
    b
}

/// The line for one fragment of what the remote side sent.
pub fn remote_line_of(text: &str) -> (line: String)
    ensures
        line@ == "remote: "@ + text@,
{
    let mut line = String::from_str("remote: ");
    line.append(text);
    line
}

/// Takes one fragment: adds its line to `out`, and gives the index behind it.
fn take_fragment(out: &mut Vec<ProgressMessage>, index: usize, fragment: &[u8]) -> (next: usize)
    requires
        fragment_next(index as nat, fragment@) <= usize::MAX,
    ensures
        next == fragment_next(index as nat, fragment@),
        message_views(final(out)@) == message_views(old(out)@) + fragment_messages(
            index as nat,
            fragment@,
        ),
{
    if fragment.len() > 0 {
        let text = decode_lossy(fragment);
        let line = remote_line_of(text.as_str());
        out.push(ProgressMessage { index, text: line });
    }
    assert(message_views(out@) =~= message_views(old(out)@) + fragment_messages(
        index as nat,
        fragment@,
    ));
    if ends_in_done(fragment) {
        index + 1
    } else {
        index
    }
}

/// Turns a buffer of the remote side's progress text into lines.
///
/// The buffer is cut at every line feed and carriage return. Each piece that
/// is not empty gives the line `remote: ` and the piece's text, under the
/// index that is current at that piece; behind each piece that ends in
/// `done.` the index is one more. The result holds the lines in order, and
/// the index for the next call.
pub fn update_remote(index: usize, msg: &[u8]) -> (update: RemoteUpdate)
    requires
        remote_next_index(index as nat, fragments(msg@)) <= usize::MAX,
    ensures
        update.next_index == remote_next_index(index as nat, fragments(msg@)),
        message_views(update.messages@) == remote_messages(index as nat, fragments(msg@)),
{
    let n = msg.len();
    let mut out: Vec<ProgressMessage> = Vec::new();
    let mut current: usize = index;
    let mut start: usize = 0;
    let mut i: usize = 0;
    proof {
        assert(msg@.skip(0) =~= msg@);
        assert(message_views(out@) =~= Seq::empty());
    }
    while i < n
        invariant
            start <= i <= n,
            n == msg@.len(),
            forall|j: int| start <= j < i ==> !is_line_break(msg@[j]),
            remote_messages(index as nat, fragments(msg@)) == message_views(out@)
                + remote_messages(current as nat, fragments(msg@.skip(start as int))),
            remote_next_index(index as nat, fragments(msg@)) == remote_next_index(
                current as nat,
                fragments(msg@.skip(start as int)),
            ),
            remote_next_index(index as nat, fragments(msg@)) <= usize::MAX,
        decreases n - i,
    {
        let b = msg[i];
        if b == 10 || b == 13 {
            let fragment = slice_subrange(msg, start, i);
            proof {
                let rest = msg@.skip(start as int);
                let k = i - start;
                assert forall|j: int| 0 <= j < k implies !is_line_break(rest[j]) by {
                    assert(rest[j] == msg@[start + j]);
                }
                assert(rest[k] == msg@[i as int]);
                lemma_first_break(rest, k);
                assert(rest.take(k) =~= fragment@);
                assert(rest.skip(k + 1) =~= msg@.skip(i + 1));
                let frags = fragments(rest);
                assert(frags == seq![fragment@] + fragments(msg@.skip(i + 1)));
                assert(frags[0] == fragment@);
                assert(frags.skip(1) =~= fragments(msg@.skip(i + 1)));
                lemma_remote_index_grows(
                    fragment_next(current as nat, fragment@),
                    fragments(msg@.skip(i + 1)),
                );
            }
            let ghost before = message_views(out@);
            let ghost at = current as nat;
            current = take_fragment(&mut out, current, fragment);
            start = i + 1;
            proof {
                assert(message_views(out@) + remote_messages(
                    current as nat,
                    fragments(msg@.skip(start as int)),
                ) =~= before + (fragment_messages(at, fragment@) + remote_messages(
                    current as nat,
                    fragments(msg@.skip(start as int)),
                )));
            }
        }
        i = i + 1;
    }
    let fragment = slice_subrange(msg, start, n);
    proof {
        let rest = msg@.skip(start as int);
        assert forall|j: int| 0 <= j < rest.len() implies !is_line_break(rest[j]) by {
            assert(rest[j] == msg@[start + j]);
        }
        lemma_first_break(rest, rest.len() as int);
        assert(rest =~= fragment@);
        let frags = fragments(rest);
        assert(frags == seq![fragment@]);
        assert(frags[0] == fragment@);
        assert(frags.skip(1) =~= Seq::<Seq<u8>>::empty());
        assert(remote_next_index(fragment_next(current as nat, fragment@), frags.skip(1))
            == fragment_next(current as nat, fragment@));
        assert(remote_messages(fragment_next(current as nat, fragment@), frags.skip(1))
            =~= Seq::empty());
    }
    let next = take_fragment(&mut out, current, fragment);
    RemoteUpdate { next_index: next, messages: out }
}

/// As `update_remote`, for every index and buffer: `None` where the index
/// would leave the range of indices. The lines are given wherever the range
/// has room for as many indices as the buffer has bytes.
pub fn checked_update_remote(index: usize, msg: &[u8]) -> (update: Option<RemoteUpdate>)
    ensures
        index + msg@.len() <= usize::MAX ==> update is Some,
        update matches Some(u) ==> u.next_index == remote_next_index(
            index as nat,
            fragments(msg@),
        ) && message_views(u.messages@) == remote_messages(index as nat, fragments(msg@)),
{
    if msg.len() <= usize::MAX - index {
        proof {
            lemma_remote_index_bound(index as nat, msg@);
        }
        Some(update_remote(index, msg))
    } else {
        None
    }
}

} // verus!
