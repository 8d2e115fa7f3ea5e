//! Operation labels in `snake_case`.

use vstd::prelude::*;

use crate::text::{chars_of, text_of};

verus! {

/// Whether a character is an ASCII letter or digit.
pub open spec fn is_alnum(c: char) -> bool {
    ||| 'a' <= c <= 'z'
    ||| 'A' <= c <= 'Z'
    ||| '0' <= c <= '9'
}

/// The character with an ASCII capital turned into its small letter.
pub open spec fn lower(c: char) -> char {
    if 'A' <= c <= 'Z' {
        (c as int + 32) as char
    } else {
        c
    }
}

/// The letters and digits of `s` in lower case, with one underscore for each run of other
/// characters that follows a letter or digit.
pub open spec fn squashed(s: Seq<char>) -> Seq<char>
    decreases s.len(),
{
    if s.len() == 0 {
        Seq::empty()
    } else {
        let p = squashed(s.drop_last());
        if is_alnum(s.last()) {
            p.push(lower(s.last()))
        } else if p.len() == 0 || p.last() == '_' {
            p
        } else {
            p.push('_')
        }
    }
}

/// `s` without the underscores at its end.
pub open spec fn without_tail(s: Seq<char>) -> Seq<char>
    decreases s.len(),
{
    if s.len() > 0 && s.last() == '_' {
        without_tail(s.drop_last())
    } else {
        s
    }
}

/// The words of a label joined by underscores.
pub open spec fn snake(label: Seq<char>) -> Seq<char> {
    without_tail(squashed(label))
}

/// The label in `snake_case`, or the fallback where nothing is left of the label.
pub open spec fn normalized(label: Seq<char>, fallback: Seq<char>) -> Seq<char> {
    if snake(label).len() == 0 {
        fallback
    } else {
        snake(label)
    }
}

fn lower_char(c: char) -> (r: char)
    ensures
        r == lower(c),
{
    if 'A' <= c && c <= 'Z' {
        (c as u8 + 32) as char
    } else {
        c
    }
}

/// The label in `snake_case`, or the fallback where nothing is left of the label.
pub fn normalize_operation_name(label: &str, fallback: &str) -> (r: String)
    ensures
        r@ == normalized(label@, fallback@),
{
    let cs = chars_of(label);
    let mut out: Vec<char> = Vec::new();
    let mut last_was_separator = true;
    let mut i: usize = 0;
    while i < cs.len()
        invariant
            i <= cs.len(),
            cs@ == label@,
            out@ == squashed(label@.take(i as int)),
            last_was_separator == (out@.len() == 0 || out@.last() == '_'),
        decreases cs.len() - i,
    {
        let ch = cs[i];
        proof {
            assert(label@.take(i + 1).drop_last() =~= label@.take(i as int));
            assert(label@.take(i + 1).last() == ch);
        }
        if ('a' <= ch && ch <= 'z') || ('A' <= ch && ch <= 'Z') || ('0' <= ch && ch <= '9') {
            out.push(lower_char(ch));
            last_was_separator = false;
        } else if !last_was_separator {
            out.push('_');
            last_was_separator = true;
        }
        i = i + 1;
    }
    assert(label@.take(i as int) =~= label@);
    while out.len() > 0 && out[out.len() - 1] == '_'
        invariant
            without_tail(out@) == snake(label@),
        decreases out.len(),
    {
        let _ = out.pop();
    }
    if out.len() == 0 {
        fallback.to_owned()
    } else {
        text_of(out.as_slice())
    }
}

// ---------------------------------------------------------------------------
// Laws
// ---------------------------------------------------------------------------

/// Whether a text is a `snake_case` name: small letters, digits and underscores, with no
/// underscore at either end and no two next to each other.
pub open spec fn is_snake(s: Seq<char>) -> bool {
    &&& forall|i: int|
        0 <= i < s.len() ==> 'a' <= #[trigger] s[i] <= 'z' || '0' <= s[i] <= '9' || s[i] == '_'
    &&& s.len() > 0 ==> s[0] != '_' && s.last() != '_'
    &&& forall|i: int| 0 < i < s.len() ==> !(s[i - 1] == '_' && #[trigger] s[i] == '_')
}

/// A text of small letters, digits and single underscores that does not start with one.
pub open spec fn is_squashed(s: Seq<char>) -> bool {
    &&& forall|i: int|
        0 <= i < s.len() ==> 'a' <= #[trigger] s[i] <= 'z' || '0' <= s[i] <= '9' || s[i] == '_'
    &&& s.len() > 0 ==> s[0] != '_'
    &&& forall|i: int| 0 < i < s.len() ==> !(s[i - 1] == '_' && #[trigger] s[i] == '_')
}

proof fn squashed_is_squashed(s: Seq<char>)
    ensures
        is_squashed(squashed(s)),
    decreases s.len(),
{
    if s.len() > 0 {
        squashed_is_squashed(s.drop_last());
    }
}

proof fn tail_of_squashed(s: Seq<char>)
    requires
        is_squashed(s),
    ensures
        is_snake(without_tail(s)),
    decreases s.len(),
{
    if s.len() > 0 && s.last() == '_' {
        let d = s.drop_last();
        assert forall|i: int| 0 < i < d.len() implies !(d[i - 1] == '_' && #[trigger] d[i]
            == '_') by {
            assert(s[i] == d[i]);
        }
        tail_of_squashed(d);
    }
}

proof fn snake_is_kept(s: Seq<char>)
    requires
        is_squashed(s),
    ensures
        squashed(s) == s,
    decreases s.len(),
{
    if s.len() > 0 {
        let d = s.drop_last();
        assert forall|i: int| 0 < i < d.len() implies !(d[i - 1] == '_' && #[trigger] d[i]
            == '_') by {
            assert(s[i] == d[i]);
        }
        snake_is_kept(d);
        assert(s[s.len() - 1] == s.last());
        if d.len() > 0 {
            assert(d.last() == s[s.len() - 2]);
        }
        assert(squashed(s) =~= s);
    }
}

/// A label is normalised to a `snake_case` name or to the fallback.
pub proof fn normalised_label_is_snake_case(label: Seq<char>, fallback: Seq<char>)
    ensures
        is_snake(normalized(label, fallback)) || normalized(label, fallback) == fallback,
{
    squashed_is_squashed(label);
    tail_of_squashed(squashed(label));
}

/// Normalising a second time changes nothing, provided that the fallback is itself a
/// `snake_case` name.
pub proof fn normalising_is_idempotent(label: Seq<char>, fallback: Seq<char>)
    requires
        is_snake(fallback),
    ensures
        normalized(normalized(label, fallback), fallback) == normalized(label, fallback),
{
    normalised_label_is_snake_case(label, fallback);
    snake_is_kept(normalized(label, fallback));
}

/// The fallback stands in exactly when the label holds no ASCII letter or digit.
pub proof fn fallback_is_for_labels_without_words(label: Seq<char>)
    ensures
        snake(label).len() == 0 <==> forall|i: int|
            0 <= i < label.len() ==> !is_alnum(#[trigger] label[i]),
{
    squashed_is_squashed(label);
    squashed_has_words(label);
    tail_keeps_words(squashed(label));
}

proof fn squashed_has_words(s: Seq<char>)
    ensures
        squashed(s).len() == 0 <==> forall|i: int| 0 <= i < s.len() ==> !is_alnum(#[trigger] s[i]),
    decreases s.len(),
{
    if s.len() > 0 {
        let d = s.drop_last();
        squashed_has_words(d);
        if forall|i: int| 0 <= i < s.len() ==> !is_alnum(#[trigger] s[i]) {
            assert forall|i: int| 0 <= i < d.len() implies !is_alnum(#[trigger] d[i]) by {
                assert(s[i] == d[i]);
            }
            assert(!is_alnum(s[s.len() - 1]));
        }
        if squashed(s).len() == 0 {
            assert forall|i: int| 0 <= i < s.len() implies !is_alnum(#[trigger] s[i]) by {
                if i < d.len() {
                    assert(d[i] == s[i]);
                }
            }
        }
    }
}

proof fn tail_keeps_words(s: Seq<char>)
    requires
        is_squashed(s),
    ensures
        without_tail(s).len() == 0 <==> s.len() == 0,
    decreases s.len(),
{
    if s.len() > 0 && s.last() == '_' {
        let d = s.drop_last();
        assert forall|i: int| 0 < i < d.len() implies !(d[i - 1] == '_' && #[trigger] d[i]
            == '_') by {
            assert(s[i] == d[i]);
        }
        tail_keeps_words(d);
    }
}

} // verus!
