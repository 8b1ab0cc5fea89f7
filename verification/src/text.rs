//! Character-level text utilities: conversion between strings and characters,
//! trimming, and the stripping of a Markdown code fence that is wrapped
//! around a text.

use vstd::prelude::*;
use vstd::std_specs::iter::IteratorSpec;

verus! {

/// `String::push` appends one character to the end of the string.
pub assume_specification[ String::push ](s: &mut String, ch: char)
    ensures
        final(s)@ == old(s)@.push(ch),
;

/// The characters of `s`, in order.
pub fn chars_of(s: &str) -> (v: Vec<char>)
    ensures
        v@ == s@,
{
    broadcast use vstd::string::group_string_axioms;

    let mut v: Vec<char> = Vec::new();
    let mut it = s.chars();
    loop
        invariant
            it.obeys_prophetic_iter_laws(),
            it.decrease() is Some,
            v@ + it.remaining() == s@,
        ensures
            v@ == s@,
        decreases it.decrease()->0,
    {
        match it.next() {
            Some(c) => {
                v.push(c);
            },
            None => {
                assert(v@ + it.remaining() == v@);
                break ;
            },
        }
    }
    v
}

/// The string made of the characters of `v`, in order.
pub fn string_of(v: &Vec<char>) -> (s: String)
    ensures
        s@ == v@,
{
    let mut s = String::new();
    let mut i: usize = 0;
    while i < v.len()
        invariant
            i <= v.len(),
            s@ == v@.take(i as int),
        decreases v.len() - i,
    {
        s.push(v[i]);
        i = i + 1;
        assert(v@.take(i as int) == v@.take(i - 1).push(v@[i - 1]));
    }
    assert(v@.take(v.len() as int) == v@);
    s
}

/// The four characters that JSON treats as white space.
pub open spec fn is_json_space(c: char) -> bool {
    c == ' ' || c == '\n' || c == '\r' || c == '\t'
}

/// The text `s` without the white space at its end.
pub open spec fn trim_end(s: Seq<char>) -> Seq<char>
    decreases s.len(),
{
    if s.len() > 0 && is_json_space(s.last()) {
        trim_end(s.drop_last())
    } else {
        s
    }
}

/// The text `s` without the white space at its start.
pub open spec fn trim_start(s: Seq<char>) -> Seq<char>
    decreases s.len(),
{
    if s.len() > 0 && is_json_space(s[0]) {
        trim_start(s.skip(1))
    } else {
        s
    }
}

/// The text `s` without the white space at either end.
pub open spec fn trim(s: Seq<char>) -> Seq<char> {
    trim_start(trim_end(s))
}

/// Whether every character of `s` is JSON white space.
pub open spec fn all_space(s: Seq<char>) -> bool {
    forall|i: int| 0 <= i < s.len() ==> is_json_space(#[trigger] s[i])
}

/// The Markdown fence: three backticks.
pub open spec fn fence() -> Seq<char> {
    seq!['`', '`', '`']
}

/// The Markdown marker that opens a fenced block of JSON: the fence and the
/// word `json`.
pub open spec fn fence_tag() -> Seq<char> {
    seq!['`', '`', '`', 'j', 's', 'o', 'n']
}

/// The first line of a fenced block of JSON: the opening marker and a line
/// feed.
pub open spec fn fence_open() -> Seq<char> {
    seq!['`', '`', '`', 'j', 's', 'o', 'n', '\n']
}

/// The last line of a fenced block: a line feed and the fence.
pub open spec fn fence_close() -> Seq<char> {
    seq!['\n', '`', '`', '`']
}

/// Whether `t` is a fenced block: it begins with the marker `open`, ends
/// with the fence, and is long enough to hold both.
pub open spec fn wrapped_in(t: Seq<char>, open: Seq<char>) -> bool {
    open.is_prefix_of(t) && fence().is_suffix_of(t) && t.len() >= open.len() + fence().len()
}

/// What stands in the fenced block `t` between the marker `open` and the
/// closing fence.
pub open spec fn inside(t: Seq<char>, open: Seq<char>) -> Seq<char> {
    t.subrange(open.len() as int, t.len() - fence().len())
}

/// The payload of a completion: what stands inside the code fence that is
/// wrapped around the text, and the text itself where none is. White space
/// around the text, and around what stands inside the fence, is no part of
/// the payload. Backticks within the payload stay.
pub open spec fn payload_text(text: Seq<char>) -> Seq<char> {
    let t = trim(text);
    if wrapped_in(t, fence_tag()) {
        trim(inside(t, fence_tag()))
    } else if wrapped_in(t, fence()) {
        trim(inside(t, fence()))
    } else {
        t
    }
}

/// Whether `pat` occurs in `s` at position `at`.
pub fn matches_at(s: &Vec<char>, at: usize, pat: &Vec<char>) -> (yes: bool)
    requires
        at <= s.len(),
    ensures
        yes == pat@.is_prefix_of(s@.skip(at as int)),
{
    if pat.len() > s.len() - at {
        return false;
    }
    let mut k: usize = 0;
    while k < pat.len()
        invariant
            k <= pat.len(),
            at + pat.len() <= s.len(),
            forall|j: int| 0 <= j < k ==> pat@[j] == s@[at + j],
        decreases pat.len() - k,
    {
        if pat[k] != s[at + k] {
            assert(s@.skip(at as int).subrange(0, pat@.len() as int)[k as int] == s@[at + k]);
            return false;
        }
        k = k + 1;
    }
    assert(pat@ =~= s@.skip(at as int).subrange(0, pat@.len() as int));
    true
}

/// Tells whether `c` is one of the four characters of JSON white space.
pub fn is_space(c: char) -> (yes: bool)
    ensures
        yes == is_json_space(c),
{
    c == ' ' || c == '\n' || c == '\r' || c == '\t'
}

/// Removes the white space at both ends of `s`.
pub fn trim_chars(s: &Vec<char>) -> (out: Vec<char>)
    ensures
        out@ == trim(s@),
{
    let mut end: usize = s.len();
    assert(s@.take(end as int) == s@);
    while end > 0 && is_space(s[end - 1])
        invariant
            end <= s.len(),
            trim_end(s@) == trim_end(s@.take(end as int)),
        decreases end,
    {
        assert(s@.take(end as int).drop_last() == s@.take(end - 1));
        end = end - 1;
    }
    let ghost kept = s@.take(end as int);
    assert(trim_end(s@) == kept);
    let mut start: usize = 0;
    assert(kept.skip(0) == kept);
    while start < end && is_space(s[start])
        invariant
            start <= end <= s.len(),
            kept == s@.take(end as int),
            trim_start(kept) == trim_start(kept.skip(start as int)),
        decreases end - start,
    {
        assert(kept.skip(start as int).skip(1) == kept.skip(start + 1));
        start = start + 1;
    }
    assert(trim_start(kept) == kept.skip(start as int));
    let mut out: Vec<char> = Vec::new();
    let mut k: usize = start;
    while k < end
        invariant
            start <= k <= end <= s.len(),
            out@ == s@.subrange(start as int, k as int),
        decreases end - k,
    {
        out.push(s[k]);
        k = k + 1;
        assert(out@ == s@.subrange(start as int, k as int));
    }
    assert(s@.subrange(start as int, end as int) == kept.skip(start as int));
    out
}

/// Copies the characters of `s` from `from` up to `to`.
pub fn slice_chars(s: &Vec<char>, from: usize, to: usize) -> (out: Vec<char>)
    requires
        from <= to <= s.len(),
    ensures
        out@ == s@.subrange(from as int, to as int),
{
    let mut out: Vec<char> = Vec::new();
    let mut k: usize = from;
    while k < to
        invariant
            from <= k <= to <= s.len(),
            out@ == s@.subrange(from as int, k as int),
        decreases to - k,
    {
        out.push(s[k]);
        k = k + 1;
        assert(out@ == s@.subrange(from as int, k as int));
    }
    out
}

/// The opening marker of a JSON block, as characters.
fn fence_tag_chars() -> (pat: Vec<char>)
    ensures
        pat@ == fence_tag(),
{
    let pat = vec!['`', '`', '`', 'j', 's', 'o', 'n'];
    assert(pat@ =~= fence_tag());
    pat
}

/// The fence, as characters.
fn fence_chars() -> (pat: Vec<char>)
    ensures
        pat@ == fence(),
{
    let pat = vec!['`', '`', '`'];
    assert(pat@ =~= fence());
    pat
}

/// Tells whether `t` is a fenced block that the marker `open` opens.
pub fn is_wrapped_in(t: &Vec<char>, open: &Vec<char>) -> (yes: bool)
    ensures
        yes == wrapped_in(t@, open@),
{
    let close = fence_chars();
    if t.len() < close.len() || t.len() - close.len() < open.len() {
        return false;
    }
    let at = t.len() - close.len();
    assert(t@.skip(0) == t@);
    assert(t@.skip(at as int).subrange(0, close@.len() as int) == t@.subrange(
        at as int,
        t@.len() as int,
    ));
    matches_at(t, 0, open) && matches_at(t, at, &close)
}

/// Strips the Markdown code fence that a model may wrap around its JSON:
/// gives what stands between the opening marker, with or without the word
/// `json`, and the closing fence, and the text itself where it is not
/// wrapped in a fence; in either case without the white space around it.
pub fn strip_code_fence(text: &str) -> (payload: String)
    ensures
        payload@ == payload_text(text@),
{
    let chars = chars_of(text);
    let trimmed = trim_chars(&chars);
    let tag = fence_tag_chars();
    let bare = fence_chars();
    if is_wrapped_in(&trimmed, &tag) {
        let inner = slice_chars(&trimmed, tag.len(), trimmed.len() - bare.len());
        string_of(&trim_chars(&inner))
    } else if is_wrapped_in(&trimmed, &bare) {
        let inner = slice_chars(&trimmed, bare.len(), trimmed.len() - bare.len());
        string_of(&trim_chars(&inner))
    } else {
        string_of(&trimmed)
    }
}

/// Nothing is left of white space after trimming its end.
pub proof fn lemma_trim_end_of_space(w: Seq<char>)
    requires
        all_space(w),
    ensures
        trim_end(w) == Seq::<char>::empty(),
    decreases w.len(),
{
    if w.len() > 0 {
        lemma_trim_end_of_space(w.drop_last());
    }
}

/// White space after a text does not change what trimming its end leaves.
pub proof fn lemma_trim_end_after(s: Seq<char>, w: Seq<char>)
    requires
        all_space(w),
    ensures
        trim_end(s + w) == trim_end(s),
    decreases w.len(),
{
    if w.len() == 0 {
        assert(s + w == s);
    } else {
        assert((s + w).last() == w.last());
        assert((s + w).drop_last() == s + w.drop_last());
        lemma_trim_end_after(s, w.drop_last());
    }
}

/// White space before a text does not change what trimming its start
/// leaves.
pub proof fn lemma_trim_start_before(w: Seq<char>, s: Seq<char>)
    requires
        all_space(w),
    ensures
        trim_start(w + s) == trim_start(s),
    decreases w.len(),
{
    if w.len() == 0 {
        assert(w + s == s);
    } else {
        assert((w + s)[0] == w[0]);
        assert((w + s).skip(1) == w.skip(1) + s);
        lemma_trim_start_before(w.skip(1), s);
    }
}

/// White space before a text does not change what trimming leaves.
pub proof fn lemma_trim_before(w: Seq<char>, p: Seq<char>)
    requires
        all_space(w),
    ensures
        trim(w + p) == trim(p),
    decreases p.len(),
{
    if p.len() == 0 {
        assert(w + p == w);
        lemma_trim_end_of_space(w);
    } else if is_json_space(p.last()) {
        assert((w + p).last() == p.last());
        assert((w + p).drop_last() == w + p.drop_last());
        lemma_trim_before(w, p.drop_last());
    } else {
        assert((w + p).last() == p.last());
        lemma_trim_start_before(w, p);
    }
}

/// White space around a text does not change what trimming leaves.
pub proof fn lemma_trim_padded(before: Seq<char>, p: Seq<char>, after: Seq<char>)
    requires
        all_space(before),
        all_space(after),
    ensures
        trim(before + p + after) == trim(p),
{
    lemma_trim_end_after(before + p, after);
    lemma_trim_before(before, p);
}

/// A text that does not begin with a fence once it is trimmed is its own
/// payload: nothing but the white space around it is taken away, and
/// backticks within it stay.
pub proof fn law_unfenced_text_is_kept(text: Seq<char>)
    requires
        !fence().is_prefix_of(trim(text)),
    ensures
        payload_text(text) == trim(text),
{
    let t = trim(text);
    if fence_tag().is_prefix_of(t) {
        assert(fence() =~= t.subrange(0, 3)) by {
            assert(fence_tag() == t.subrange(0, 7));
            assert forall|i: int| 0 <= i < 3 implies fence()[i] == t.subrange(0, 3)[i] by {
                assert(fence_tag()[i] == t.subrange(0, 7)[i]);
            }
        }
    }
}

/// A fenced block of JSON has the payload of what stands in it: a fence
/// with the word `json`, white space, the text, white space and a fence give
/// the same payload as the text alone, for every text that does not itself
/// begin with a fence once it is trimmed.
pub proof fn law_fence_is_stripped(payload: Seq<char>, before: Seq<char>, after: Seq<char>)
    requires
        all_space(before),
        all_space(after),
        !fence().is_prefix_of(trim(payload)),
    ensures
        payload_text(fence_tag() + before + payload + after + fence()) == payload_text(payload),
        payload_text(payload) == trim(payload),
{
    let block = fence_tag() + before + payload + after + fence();
    assert(block[0] == '`');
    assert(block.last() == '`');
    assert(trim(block) == block);
    assert(fence_tag() =~= block.subrange(0, 7));
    assert(fence() =~= block.subrange(block.len() - 3, block.len() as int));
    assert(inside(block, fence_tag()) =~= before + payload + after);
    lemma_trim_padded(before, payload, after);
    law_unfenced_text_is_kept(payload);
}

/// A fenced block without the word `json` has the payload of what stands in
/// it, where white space follows the opening fence.
pub proof fn law_bare_fence_is_stripped(payload: Seq<char>, before: Seq<char>, after: Seq<char>)
    requires
        all_space(before),
        before.len() > 0,
        all_space(after),
        !fence().is_prefix_of(trim(payload)),
    ensures
        payload_text(fence() + before + payload + after + fence()) == payload_text(payload),
{
    let block = fence() + before + payload + after + fence();
    assert(block[0] == '`');
    assert(block.last() == '`');
    assert(trim(block) == block);
    assert(!fence_tag().is_prefix_of(block)) by {
        assert(block[3] == before[0]);
        assert(block.subrange(0, 7)[3] == block[3]);
    }
    assert(fence() =~= block.subrange(0, 3));
    assert(fence() =~= block.subrange(block.len() - 3, block.len() as int));
    assert(inside(block, fence()) =~= before + payload + after);
    lemma_trim_padded(before, payload, after);
    law_unfenced_text_is_kept(payload);
}

/// The usual form of a fenced block of JSON, with a line feed after the
/// opening marker and before the closing fence, has the payload of what
/// stands in it.
pub proof fn law_fenced_lines_are_stripped(payload: Seq<char>)
    requires
        !fence().is_prefix_of(trim(payload)),
    ensures
        payload_text(fence_open() + payload + fence_close()) == payload_text(payload),
{
    let feed = seq!['\n'];
    assert(fence_open() + payload + fence_close() =~= fence_tag() + feed + payload + feed
        + fence());
    law_fence_is_stripped(payload, feed, feed);
}

} // verus!
