//! Text shaping for the response log: a message is shown on one line, its
//! words separated by single spaces.
use vstd::prelude::*;
use vstd::std_specs::iter::IteratorSpec;

verus! {

/// Whether `c` has the Unicode `White_Space` property: the controls
/// U+0009 to U+000D, the space, U+0085, the no-break space U+00A0, U+1680,
/// the spaces U+2000 to U+200A, the line and paragraph separators U+2028
/// and U+2029, U+202F, U+205F and the ideographic space U+3000.
pub open spec fn char_is_whitespace(c: char) -> bool {
    let u = c as u32;
    ||| 0x9 <= u <= 0xd
    ||| u == 0x20
    ||| u == 0x85
    ||| u == 0xa0
    ||| u == 0x1680
    ||| 0x2000 <= u <= 0x200a
    ||| u == 0x2028
    ||| u == 0x2029
    ||| u == 0x202f
    ||| u == 0x205f
    ||| u == 0x3000
}

/// Whether `c` is whitespace in the sense of `char::is_whitespace` (the
/// Unicode `White_Space` property).
fn is_whitespace(c: char) -> (b: bool)
    ensures
        b == char_is_whitespace(c),
{
    let u = c as u32;
    (0x9 <= u && u <= 0xd) || u == 0x20 || u == 0x85 || u == 0xa0 || u == 0x1680 || (0x2000 <= u && u <= 0x200a)
        || u == 0x2028 || u == 0x2029 || u == 0x202f || u == 0x205f || u == 0x3000
}

/// Calls `String::push`, which appends one character.
#[verifier::external_body]
fn push_char(s: &mut String, c: char)
    ensures
        final(s)@ == old(s)@.push(c),
{
    s.push(c)
}

/// Calls `String::push_str`, which appends a string slice.
#[verifier::external_body]
pub(crate) fn push_str(s: &mut String, t: &str)
    ensures
        final(s)@ == old(s)@ + t@,
{
    s.push_str(t)
}

/// The words of `s`: its maximal runs of non-whitespace characters, in
/// order.
pub open spec fn words(s: Seq<char>) -> Seq<Seq<char>>
    decreases s.len(),
{
    if s.len() == 0 {
        Seq::empty()
    } else {
        let c = s.last();
        let prefix = s.drop_last();
        if char_is_whitespace(c) {
            words(prefix)
        } else if prefix.len() > 0 && !char_is_whitespace(prefix.last()) {
            let w = words(prefix);
            w.update(w.len() - 1, w.last().push(c))
        } else {
            words(prefix).push(seq![c])
        }
    }
}

/// The words joined with a single space between consecutive words.
pub open spec fn join_with_spaces(ws: Seq<Seq<char>>) -> Seq<char>
    decreases ws.len(),
{
    if ws.len() == 0 {
        Seq::empty()
    } else if ws.len() == 1 {
        ws[0]
    } else {
        join_with_spaces(ws.drop_last()) + seq![' '] + ws.last()
    }
}

/// A message on one line: its words separated by single spaces, with no
/// leading or trailing whitespace.
pub open spec fn compacted(s: Seq<char>) -> Seq<char> {
    join_with_spaces(words(s))
}

proof fn lemma_words_nonempty_after_word_char(s: Seq<char>)
    requires
        s.len() > 0,
        !char_is_whitespace(s.last()),
    ensures
        words(s).len() > 0,
    decreases s.len(),
{
    let prefix = s.drop_last();
    if prefix.len() > 0 && !char_is_whitespace(prefix.last()) {
        lemma_words_nonempty_after_word_char(prefix);
    }
}

proof fn lemma_join_extend_last(ws: Seq<Seq<char>>, c: char)
    requires
        ws.len() > 0,
    ensures
        join_with_spaces(ws.update(ws.len() - 1, ws.last().push(c))) == join_with_spaces(ws).push(c),
{
    let ws2 = ws.update(ws.len() - 1, ws.last().push(c));
    if ws.len() > 1 {
        assert(ws2.drop_last() =~= ws.drop_last());
    }
}

proof fn lemma_join_push_word(ws: Seq<Seq<char>>, c: char)
    ensures
        join_with_spaces(ws.push(seq![c])) == if ws.len() == 0 {
            seq![c]
        } else {
            join_with_spaces(ws).push(' ').push(c)
        },
{
    let ws2 = ws.push(seq![c]);
    assert(ws2.drop_last() =~= ws);
    if ws.len() > 0 {
        assert(join_with_spaces(ws) + seq![' '] + seq![c] =~= join_with_spaces(ws).push(' ').push(c));
    }
}

/// `message` with every run of whitespace replaced by one space and the
/// whitespace at both ends removed.
pub fn compact_message(message: &str) -> (r: String)
    ensures
        r@ == compacted(message@),
{
    broadcast use vstd::string::group_string_axioms;

    let ghost s = message@;
    let mut out = String::new();
    let mut last_was_word_char = false;
    let mut seen_word = false;
    let mut chars = message.chars();
    let ghost mut consumed: Seq<char> = Seq::empty();
    loop
        invariant
            s == message@,
            consumed + chars.remaining() == s,
            chars.obeys_prophetic_iter_laws(),
            out@ == compacted(consumed),
            last_was_word_char == (consumed.len() > 0 && !char_is_whitespace(consumed.last())),
            seen_word == (words(consumed).len() > 0),
            chars.decrease() is Some,
        ensures
            out@ == compacted(s),
        decreases chars.decrease()->0,
    {
        let ghost before = consumed;
        match chars.next() {
            None => {
                proof {
                    assert(consumed =~= s);
                }
                break;
            },
            Some(c) => {
                proof {
                    consumed = before.push(c);
                    assert(consumed.drop_last() =~= before);
                    assert(consumed + chars.remaining() =~= s);
                }
                if is_whitespace(c) {
                    last_was_word_char = false;
                } else {
                    if last_was_word_char {
                        proof {
                            lemma_words_nonempty_after_word_char(before);
                            lemma_join_extend_last(words(before), c);
                        }
                        push_char(&mut out, c);
                    } else {
                        proof {
                            lemma_join_push_word(words(before), c);
                        }
                        if seen_word {
                            push_char(&mut out, ' ');
                        }
                        push_char(&mut out, c);
                    }
                    proof {
                        lemma_words_nonempty_after_word_char(consumed);
                    }
                    last_was_word_char = true;
                    seen_word = true;
                }
            },
        }
    }
    out
}

/// Whether every word of `ws` is a non-empty run of non-whitespace
/// characters.
pub open spec fn proper_words(ws: Seq<Seq<char>>) -> bool {
    forall|k: int|
        0 <= k < ws.len() ==> (#[trigger] ws[k]).len() > 0 && forall|j: int|
            0 <= j < ws[k].len() ==> !char_is_whitespace(#[trigger] ws[k][j])
}

proof fn lemma_words_proper(s: Seq<char>)
    ensures
        proper_words(words(s)),
    decreases s.len(),
{
    if s.len() > 0 {
        let c = s.last();
        let prefix = s.drop_last();
        lemma_words_proper(prefix);
        let w = words(prefix);
        if !char_is_whitespace(c) {
            if prefix.len() > 0 && !char_is_whitespace(prefix.last()) {
                lemma_words_nonempty_after_word_char(prefix);
                let w2 = w.update(w.len() - 1, w.last().push(c));
                assert forall|k: int| 0 <= k < w2.len() implies (#[trigger] w2[k]).len() > 0 && forall|j: int|
                    0 <= j < w2[k].len() ==> !char_is_whitespace(#[trigger] w2[k][j]) by {
                    if k == w.len() - 1 {
                        assert forall|j: int| 0 <= j < w2[k].len() implies !char_is_whitespace(#[trigger] w2[k][j]) by {
                            if j < w.last().len() {
                                assert(w2[k][j] == w[k][j]);
                            }
                        }
                    } else {
                        assert(w2[k] == w[k]);
                    }
                }
            } else {
                let w2 = w.push(seq![c]);
                assert forall|k: int| 0 <= k < w2.len() implies (#[trigger] w2[k]).len() > 0 && forall|j: int|
                    0 <= j < w2[k].len() ==> !char_is_whitespace(#[trigger] w2[k][j]) by {
                    if k < w.len() {
                        assert(w2[k] == w[k]);
                    } else {
                        assert forall|j: int| 0 <= j < w2[k].len() implies !char_is_whitespace(#[trigger] w2[k][j]) by {
                            assert(w2[k][j] == c);
                        }
                    }
                }
            }
        }
    }
}

/// Whether `t` is on one line with single spaces: it neither starts nor
/// ends with whitespace, and its only whitespace is single spaces between
/// non-whitespace characters.
pub open spec fn single_spaced(t: Seq<char>) -> bool {
    &&& t.len() > 0 ==> !char_is_whitespace(t[0]) && !char_is_whitespace(t[t.len() - 1])
    &&& forall|i: int|
        0 <= i < t.len() && char_is_whitespace(#[trigger] t[i]) ==> t[i] == ' ' && 0 < i < t.len() - 1
            && !char_is_whitespace(t[i - 1]) && !char_is_whitespace(t[i + 1])
}

proof fn lemma_join_single_spaced(ws: Seq<Seq<char>>)
    requires
        proper_words(ws),
    ensures
        single_spaced(join_with_spaces(ws)),
        join_with_spaces(ws).len() == 0 <==> ws.len() == 0,
    decreases ws.len(),
{
    if ws.len() == 1 {
        assert(ws[0].len() > 0);
        let t = ws[0];
        assert(!char_is_whitespace(t[0]));
        assert(!char_is_whitespace(t[t.len() - 1]));
    } else if ws.len() > 1 {
        let p = ws.drop_last();
        assert forall|k: int| 0 <= k < p.len() implies (#[trigger] p[k]).len() > 0 && forall|j: int|
            0 <= j < p[k].len() ==> !char_is_whitespace(#[trigger] p[k][j]) by {
            assert(p[k] == ws[k]);
        }
        lemma_join_single_spaced(p);
        let a = join_with_spaces(p);
        let w = ws.last();
        assert(w == ws[ws.len() - 1]);
        assert(w.len() > 0);
        let t = a + seq![' '] + w;
        assert(t == join_with_spaces(ws));
        assert(a.len() > 0);
        assert(t[0] == a[0]);
        assert(t[t.len() - 1] == w[w.len() - 1]);
        assert(!char_is_whitespace(w[w.len() - 1]));
        assert forall|i: int|
            0 <= i < t.len() && char_is_whitespace(#[trigger] t[i]) implies t[i] == ' ' && 0 < i < t.len() - 1
                && !char_is_whitespace(t[i - 1]) && !char_is_whitespace(t[i + 1]) by {
            if i < a.len() {
                assert(t[i] == a[i]);
                assert(t[i + 1] == if i + 1 < a.len() { a[i + 1] } else { ' ' });
                if i + 1 == a.len() {
                    assert(!char_is_whitespace(a[a.len() - 1]));
                } else {
                    assert(t[i + 1] == a[i + 1]);
                }
                assert(t[i - 1] == a[i - 1]);
            } else if i == a.len() {
                assert(t[i - 1] == a[a.len() - 1]);
                assert(t[i + 1] == w[0]);
                assert(!char_is_whitespace(w[0]));
            } else {
                assert(t[i] == w[i - a.len() - 1]);
                assert(!char_is_whitespace(w[i - a.len() - 1]));
            }
        }
    }
}

/// A compacted message is on one line with single spaces (no whitespace at
/// either end, no run of two whitespace characters, no whitespace other
/// than the plain space), and it is empty exactly when the message has no
/// word.
pub proof fn lemma_compacted_is_single_spaced(s: Seq<char>)
    ensures
        single_spaced(compacted(s)),
        compacted(s).len() == 0 <==> words(s).len() == 0,
        (forall|i: int| 0 <= i < s.len() ==> char_is_whitespace(#[trigger] s[i])) ==> compacted(s).len() == 0,
{
    lemma_words_proper(s);
    lemma_join_single_spaced(words(s));
    lemma_all_whitespace_no_words(s);
}

proof fn lemma_all_whitespace_no_words(s: Seq<char>)
    ensures
        (forall|i: int| 0 <= i < s.len() ==> char_is_whitespace(#[trigger] s[i])) ==> words(s).len() == 0,
    decreases s.len(),
{
    if s.len() > 0 {
        let p = s.drop_last();
        lemma_all_whitespace_no_words(p);
        if forall|i: int| 0 <= i < s.len() ==> char_is_whitespace(#[trigger] s[i]) {
            assert forall|i: int| 0 <= i < p.len() implies char_is_whitespace(#[trigger] p[i]) by {
                assert(p[i] == s[i]);
            }
            assert(char_is_whitespace(s[s.len() - 1]));
        }
    }
}

} // verus!
