//! Whitespace normalisation of text content, used as the dedup key of text items.
use vstd::prelude::*;

verus! {

/// A character with the Unicode `White_Space` property.
pub open spec fn is_white(c: char) -> bool {
    let u = c as u32;
    (0x09 <= u && u <= 0x0D) || u == 0x20 || u == 0x85 || u == 0xA0 || u == 0x1680
        || (0x2000 <= u && u <= 0x200A) || u == 0x2028 || u == 0x2029 || u == 0x202F
        || u == 0x205F || u == 0x3000
}

/// The maximal runs of non-whitespace characters of `s`, left to right.
pub open spec fn words(s: Seq<char>) -> Seq<Seq<char>>
    decreases s.len(),
{
    if s.len() == 0 {
        Seq::empty()
    } else {
        let p = s.drop_last();
        let c = s.last();
        let w = words(p);
        if is_white(c) {
            w
        } else if p.len() > 0 && !is_white(p.last()) {
            w.update(w.len() - 1, w.last().push(c))
        } else {
            w.push(seq![c])
        }
    }
}

/// The words joined by single spaces.
pub open spec fn join_words(ws: Seq<Seq<char>>) -> Seq<char>
    decreases ws.len(),
{
    if ws.len() == 0 {
        Seq::empty()
    } else if ws.len() == 1 {
        ws[0]
    } else {
        join_words(ws.drop_last()) + seq![' '] + ws.last()
    }
}

/// `s` with every run of whitespace collapsed to one space and the ends trimmed.
pub open spec fn normalize(s: Seq<char>) -> Seq<char> {
    join_words(words(s))
}

/// A sequence ending in a non-whitespace character has at least one word.
proof fn lemma_words_nonempty(s: Seq<char>)
    requires
        s.len() > 0,
        !is_white(s.last()),
    ensures
        words(s).len() > 0,
    decreases s.len(),
{
    let p = s.drop_last();
    if p.len() > 0 && !is_white(p.last()) {
        lemma_words_nonempty(p);
    }
}

/// A word: non-empty, without whitespace.
pub open spec fn is_word(w: Seq<char>) -> bool {
    w.len() > 0 && forall|i: int| 0 <= i < w.len() ==> !is_white(#[trigger] w[i])
}

/// After whitespace or at the start, a word adds itself as one more word.
proof fn lemma_words_append_word(y: Seq<char>, w: Seq<char>)
    requires
        y.len() == 0 || is_white(y.last()),
        is_word(w),
    ensures
        words(y + w) == words(y).push(w),
    decreases w.len(),
{
    let x = y + w;
    assert(x.drop_last() == y + w.drop_last());
    assert(x.last() == w.last());
    if w.len() == 1 {
        assert(y + w.drop_last() == y);
        assert(seq![w[0]] == w);
    } else {
        let w2 = w.drop_last();
        assert(is_word(w2)) by {
            assert forall|i: int| 0 <= i < w2.len() implies !is_white(#[trigger] w2[i]) by {
                assert(w2[i] == w[i]);
            }
        }
        lemma_words_append_word(y, w2);
        assert((y + w2).last() == w2.last());
        assert(!is_white(w2.last()) && !is_white(w.last())) by {
            assert(w2.last() == w[w.len() - 2]);
        }
        assert(w2.push(w.last()) == w);
        assert(words(y).push(w2).update(words(y).len() as int, w2.push(w.last())) == words(y).push(w));
    }
}

/// Whitespace at the end adds no word.
proof fn lemma_words_append_white(y: Seq<char>, c: char)
    requires
        is_white(c),
    ensures
        words(y.push(c)) == words(y),
{
    assert(y.push(c).drop_last() == y);
}

/// Words joined by single spaces split back into the same words.
pub proof fn lemma_words_of_join(ws: Seq<Seq<char>>)
    requires
        forall|i: int| 0 <= i < ws.len() ==> is_word(#[trigger] ws[i]),
    ensures
        words(join_words(ws)) == ws,
        ws.len() > 0 ==> join_words(ws).len() > 0 && !is_white(join_words(ws).last()),
    decreases ws.len(),
{
    if ws.len() == 0 {
    } else if ws.len() == 1 {
        assert(is_word(ws[0]));
        lemma_words_append_word(Seq::empty(), ws[0]);
        assert(Seq::<char>::empty() + ws[0] == ws[0]);
        assert(Seq::<Seq<char>>::empty().push(ws[0]) == ws);
        assert(!is_white(ws[0].last())) by {
            assert(ws[0].last() == ws[0][ws[0].len() - 1]);
        }
    } else {
        let p = ws.drop_last();
        let w = ws.last();
        assert forall|i: int| 0 <= i < p.len() implies is_word(#[trigger] p[i]) by {
            assert(p[i] == ws[i]);
        }
        assert(is_word(w)) by {
            assert(w == ws[ws.len() - 1]);
        }
        lemma_words_of_join(p);
        let jp = join_words(p);
        lemma_words_append_white(jp, ' ');
        assert(is_white(' '));
        lemma_words_append_word(jp.push(' '), w);
        assert(jp + seq![' '] + w == jp.push(' ') + w);
        assert(p.push(w) == ws);
        assert(!is_white(w.last())) by {
            assert(w.last() == w[w.len() - 1]);
        }
        assert((jp.push(' ') + w).last() == w.last());
    }
}

/// Every word that `words` finds is a word.
pub proof fn lemma_words_are_words(s: Seq<char>)
    ensures
        forall|i: int| 0 <= i < words(s).len() ==> is_word(#[trigger] words(s)[i]),
    decreases s.len(),
{
    if s.len() > 0 {
        let p = s.drop_last();
        let c = s.last();
        let w = words(p);
        lemma_words_are_words(p);
        if !is_white(c) && p.len() > 0 && !is_white(p.last()) {
            lemma_words_nonempty(p);
            let nw = w.last().push(c);
            assert(is_word(w[w.len() - 1]));
            assert(is_word(nw)) by {
                assert forall|j: int| 0 <= j < nw.len() implies !is_white(#[trigger] nw[j]) by {
                    if j < nw.len() - 1 {
                        assert(nw[j] == w[w.len() - 1][j]);
                    }
                }
            }
            assert forall|i: int| 0 <= i < words(s).len() implies is_word(#[trigger] words(s)[i]) by {
                if i < w.len() - 1 {
                    assert(words(s)[i] == w[i]);
                }
            }
        } else if !is_white(c) {
            assert(is_word(seq![c]));
            assert forall|i: int| 0 <= i < words(s).len() implies is_word(#[trigger] words(s)[i]) by {
                if i < w.len() {
                    assert(words(s)[i] == w[i]);
                }
            }
        }
    }
}

/// Normalising twice is normalising once: a normalised text is its own dedup key.
pub proof fn lemma_normalize_idempotent(s: Seq<char>)
    ensures
        normalize(normalize(s)) == normalize(s),
{
    lemma_words_are_words(s);
    lemma_words_of_join(words(s));
}

/// Extending the last word by one character extends the joined text by it.
proof fn lemma_join_extend_last(ws: Seq<Seq<char>>, c: char)
    requires
        ws.len() > 0,
    ensures
        join_words(ws.update(ws.len() - 1, ws.last().push(c))) == join_words(ws).push(c),
{
    let ws2 = ws.update(ws.len() - 1, ws.last().push(c));
    if ws.len() > 1 {
        assert(ws2.drop_last() == ws.drop_last());
    }
}

/// Relies on `FromIterator<char>` for `String`: the string holds the characters in order.
#[verifier::external_body]
fn string_from_chars(v: &Vec<char>) -> (r: String)
    ensures
        r@ == v@,
{
    v.iter().collect()
}

/// Relies on `==` for `str`: true exactly when the two strings hold the same characters.
#[verifier::external_body]
pub fn str_eq(a: &str, b: &str) -> (r: bool)
    ensures
        r == (a@ == b@),
{
    a == b
}

/// Whether `c` is a Unicode whitespace character.
pub fn is_white_char(c: char) -> (r: bool)
    ensures
        r == is_white(c),
{
    let u = c as u32;
    (0x09 <= u && u <= 0x0D) || u == 0x20 || u == 0x85 || u == 0xA0 || u == 0x1680
        || (0x2000 <= u && u <= 0x200A) || u == 0x2028 || u == 0x2029 || u == 0x202F
        || u == 0x205F || u == 0x3000
}

/// Collapses every run of whitespace in `s` to one space and trims both ends.
pub fn normalize_text(s: &str) -> (r: String)
    ensures
        r@ == normalize(s@),
{
    let mut out: Vec<char> = Vec::new();
    let mut prev_white: bool = true;
    let mut has_word: bool = false;
    let ghost mut seen: Seq<char> = Seq::empty();
    proof {
        broadcast use vstd::string::axiom_spec_iter;
    }
    for c in it: s.chars()
        invariant
            it.seq() == s@,
            seen == s@.take(it.index() as int),
            prev_white == (seen.len() == 0 || is_white(seen.last())),
            has_word == (words(seen).len() > 0),
            out@ == join_words(words(seen)),
    {
        let ghost w = words(seen);
        assert(seen.push(c).drop_last() == seen);
        assert(seen.push(c) == s@.take(it.index() + 1));
        let white = is_white_char(c);
        if white {
            assert(words(seen.push(c)) == w);
            prev_white = true;
        } else {
            if !prev_white {
                proof {
                    lemma_words_nonempty(seen);
                    lemma_join_extend_last(w, c);
                }
                out.push(c);
            } else {
                if has_word {
                    out.push(' ');
                }
                out.push(c);
                assert(w.push(seq![c]).drop_last() == w);
            }
            prev_white = false;
            has_word = true;
        }
        proof {
            seen = seen.push(c);
        }
    }
    assert(seen == s@);
    string_from_chars(&out)
}

} // verus!
