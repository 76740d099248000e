//! Text helpers: line-ending normalization for pasted text, and whitespace
//! queries over strings.

use vstd::prelude::*;

verus! {

/// Line-ending normalization: every `\r\n` pair and every lone `\r` becomes
/// a single `\n`.
pub open spec fn normalize_line_endings(s: Seq<char>) -> Seq<char>
    decreases s.len(),
{
    if s.len() == 0 {
        Seq::empty()
    } else if s[0] == '\r' {
        if s.len() >= 2 && s[1] == '\n' {
            seq!['\n'] + normalize_line_endings(s.subrange(2, s.len() as int))
        } else {
            seq!['\n'] + normalize_line_endings(s.drop_first())
        }
    } else {
        seq![s[0]] + normalize_line_endings(s.drop_first())
    }
}

/// The text of a string with all line endings removed.
pub open spec fn visible_text(s: Seq<char>) -> Seq<char>
    decreases s.len(),
{
    if s.len() == 0 {
        Seq::empty()
    } else if s[0] == '\r' || s[0] == '\n' {
        visible_text(s.drop_first())
    } else {
        seq![s[0]] + visible_text(s.drop_first())
    }
}

/// Normalized text holds no carriage return.
pub proof fn lemma_normalize_no_cr(s: Seq<char>)
    ensures
        forall|i: int|
            0 <= i < normalize_line_endings(s).len() ==> normalize_line_endings(s)[i] != '\r',
    decreases s.len(),
{
    if s.len() > 0 {
        if s[0] == '\r' && s.len() >= 2 && s[1] == '\n' {
            let rest = s.subrange(2, s.len() as int);
            lemma_normalize_no_cr(rest);
            assert forall|i: int|
                0 <= i < normalize_line_endings(s).len() implies normalize_line_endings(s)[i]
                != '\r' by {
                if i > 0 {
                    assert(normalize_line_endings(s)[i] == normalize_line_endings(rest)[i - 1]);
                }
            }
        } else {
            let rest = s.drop_first();
            lemma_normalize_no_cr(rest);
            assert forall|i: int|
                0 <= i < normalize_line_endings(s).len() implies normalize_line_endings(s)[i]
                != '\r' by {
                if i > 0 {
                    assert(normalize_line_endings(s)[i] == normalize_line_endings(rest)[i - 1]);
                }
            }
        }
    }
}

/// Normalization leaves text without carriage returns unchanged.
pub proof fn lemma_normalize_cr_free(s: Seq<char>)
    requires
        forall|i: int| 0 <= i < s.len() ==> s[i] != '\r',
    ensures
        normalize_line_endings(s) == s,
    decreases s.len(),
{
    if s.len() > 0 {
        lemma_normalize_cr_free(s.drop_first());
        assert(normalize_line_endings(s) =~= s);
    } else {
        assert(normalize_line_endings(s) =~= s);
    }
}

/// Normalization is idempotent: a second pass changes nothing.
pub proof fn lemma_normalize_idempotent(s: Seq<char>)
    ensures
        normalize_line_endings(normalize_line_endings(s)) == normalize_line_endings(s),
{
    lemma_normalize_no_cr(s);
    lemma_normalize_cr_free(normalize_line_endings(s));
}

/// Round trip: normalization changes only line endings — the text with all
/// line endings removed is reproduced exactly.
pub proof fn lemma_normalize_preserves_text(s: Seq<char>)
    ensures
        visible_text(normalize_line_endings(s)) == visible_text(s),
    decreases s.len(),
{
    if s.len() == 0 {
    } else if s[0] == '\r' {
        if s.len() >= 2 && s[1] == '\n' {
            let rest = s.subrange(2, s.len() as int);
            lemma_normalize_preserves_text(rest);
            let lhs = seq!['\n'] + normalize_line_endings(rest);
            assert(normalize_line_endings(s) == lhs);
            assert(lhs[0] == '\n');
            assert(lhs.drop_first() =~= normalize_line_endings(rest));
            assert(visible_text(lhs) == visible_text(normalize_line_endings(rest)));
            assert(visible_text(s) == visible_text(s.drop_first()));
            assert(s.drop_first()[0] == '\n');
            assert(visible_text(s.drop_first()) == visible_text(s.drop_first().drop_first()));
            assert(s.drop_first().drop_first() =~= rest);
        } else {
            lemma_normalize_preserves_text(s.drop_first());
            let lhs = seq!['\n'] + normalize_line_endings(s.drop_first());
            assert(normalize_line_endings(s) == lhs);
            assert(lhs[0] == '\n');
            assert(lhs.drop_first() =~= normalize_line_endings(s.drop_first()));
            assert(visible_text(lhs) == visible_text(normalize_line_endings(s.drop_first())));
            assert(visible_text(s) == visible_text(s.drop_first()));
        }
    } else {
        lemma_normalize_preserves_text(s.drop_first());
        let lhs = seq![s[0]] + normalize_line_endings(s.drop_first());
        assert(normalize_line_endings(s) == lhs);
        assert(lhs[0] == s[0]);
        assert(lhs.drop_first() =~= normalize_line_endings(s.drop_first()));
        if s[0] == '\n' {
            assert(visible_text(lhs) == visible_text(normalize_line_endings(s.drop_first())));
            assert(visible_text(s) == visible_text(s.drop_first()));
        } else {
            assert(visible_text(lhs) == seq![s[0]] + visible_text(
                normalize_line_endings(s.drop_first()),
            ));
            assert(visible_text(s) == seq![s[0]] + visible_text(s.drop_first()));
        }
    }
}

/// Line-ending normalization over a character vector.
#[verifier::loop_isolation(false)]
pub fn normalize_line_endings_chars(s: &Vec<char>) -> (r: Vec<char>)
    ensures
        r@ == normalize_line_endings(s@),
{
    let mut r: Vec<char> = Vec::new();
    let mut i: usize = 0;
    proof {
        assert(s@.subrange(0, s@.len() as int) =~= s@);
        assert(r@ + normalize_line_endings(s@) =~= normalize_line_endings(s@));
    }
    while i < s.len()
        invariant
            i <= s@.len(),
            normalize_line_endings(s@) == r@ + normalize_line_endings(
                s@.subrange(i as int, s@.len() as int),
            ),
        decreases s@.len() - i,
    {
        let ghost rest = s@.subrange(i as int, s@.len() as int);
        let c = s[i];
        proof {
            assert(rest[0] == s@[i as int]);
        }
        if c == '\r' {
            if i + 1 < s.len() && s[i + 1] == '\n' {
                proof {
                    assert(rest.len() >= 2 && rest[1] == '\n');
                    assert(rest.subrange(2, rest.len() as int) =~= s@.subrange(
                        i + 2,
                        s@.len() as int,
                    ));
                    assert(r@.push('\n') + normalize_line_endings(
                        s@.subrange(i + 2, s@.len() as int),
                    ) =~= r@ + (seq!['\n'] + normalize_line_endings(
                        s@.subrange(i + 2, s@.len() as int),
                    )));
                }
                r.push('\n');
                i = i + 2;
            } else {
                proof {
                    assert(!(rest.len() >= 2 && rest[1] == '\n')) by {
                        if rest.len() >= 2 {
                            assert(rest[1] == s@[i + 1]);
                        }
                    }
                    assert(rest.drop_first() =~= s@.subrange(i + 1, s@.len() as int));
                    assert(r@.push('\n') + normalize_line_endings(
                        s@.subrange(i + 1, s@.len() as int),
                    ) =~= r@ + (seq!['\n'] + normalize_line_endings(
                        s@.subrange(i + 1, s@.len() as int),
                    )));
                }
                r.push('\n');
                i = i + 1;
            }
        } else {
            proof {
                assert(rest.drop_first() =~= s@.subrange(i + 1, s@.len() as int));
                assert(r@.push(rest[0]) + normalize_line_endings(
                    s@.subrange(i + 1, s@.len() as int),
                ) =~= r@ + (seq![rest[0]] + normalize_line_endings(
                    s@.subrange(i + 1, s@.len() as int),
                )));
            }
            r.push(c);
            i = i + 1;
        }
    }
    proof {
        assert(s@.subrange(s@.len() as int, s@.len() as int) =~= Seq::<char>::empty());
        assert(r@ + Seq::<char>::empty() =~= r@);
    }
    r
}

/// Relies on `str::chars`: the characters of the string, in order.
#[verifier::external_body]
pub fn str_chars(s: &str) -> (r: Vec<char>)
    ensures
        r@ == s@,
{
    s.chars().collect()
}

/// Relies on `String`'s `FromIterator<char>`: collecting characters builds
/// the string of exactly those characters, in order.
#[verifier::external_body]
pub fn string_from_chars(chars: &Vec<char>) -> (r: String)
    ensures
        r@ == chars@,
{
    chars.iter().collect()
}

/// Line-ending normalization of a pasted string.
pub fn normalize_line_endings_str(s: &str) -> (r: String)
    ensures
        r@ == normalize_line_endings(s@),
{
    let cs = str_chars(s);
    let normalized = normalize_line_endings_chars(&cs);
    string_from_chars(&normalized)
}

/// Whether a character has the Unicode White_Space property; a pure
/// function of the character alone.
pub uninterp spec fn whitespace_char(c: char) -> bool;

/// Relies on `char::is_whitespace`: true exactly for characters with the
/// Unicode White_Space property. The property holds for the ASCII
/// whitespace characters and for no printable ASCII character.
#[verifier::external_body]
pub fn char_is_whitespace(c: char) -> (r: bool)
    ensures
        r == whitespace_char(c),
        c == ' ' || c == '\t' || c == '\n' || c == '\r' ==> r,
        '!' <= c && c <= '~' ==> !r,
{
    c.is_whitespace()
}

/// Whether every character of `s` is whitespace (an empty string counts as
/// whitespace).
pub open spec fn all_whitespace(s: Seq<char>) -> bool {
    forall|i: int| 0 <= i < s.len() ==> whitespace_char(s[i])
}

/// Whether the string consists entirely of whitespace.
pub fn is_whitespace_str(s: &str) -> (r: bool)
    ensures
        r == all_whitespace(s@),
{
    let cs = str_chars(s);
    let mut i: usize = 0;
    while i < cs.len()
        invariant
            i <= cs@.len(),
            cs@ == s@,
            forall|j: int| 0 <= j < i ==> whitespace_char(s@[j]),
        decreases cs@.len() - i,
    {
        if !char_is_whitespace(cs[i]) {
            return false;
        }
        i = i + 1;
    }
    true
}

} // verus!
