//! Laws of the text policy, stated over the models that the sanitizers'
//! contracts use.
use vstd::prelude::*;
use vstd::utf8::is_ascii_chars;

use super::sanitize::{
    ascii_lower, ascii_lower_char, at_count, email_outcome, email_shaped, empty_or_white_space,
    has_forbidden, is_forbidden, is_white_space, lowered, too_long, trim_end, trim_start, trimmed,
    username_outcome, valid_text, grapheme_count, MAX_TEXT_GRAPHEMES,
};

verus! {

/// Blank text is never valid input.
pub proof fn lemma_blank_is_invalid(s: Seq<char>)
    requires
        trimmed(s).len() == 0,
    ensures
        !valid_text(s),
{
}

/// The length cap counts grapheme clusters: exactly 256 clusters is within
/// the cap, 257 is over it, however many characters each cluster holds.
pub proof fn lemma_length_cap_is_exact(s: Seq<char>)
    ensures
        grapheme_count(s) == 256 ==> !too_long(s, MAX_TEXT_GRAPHEMES as nat),
        grapheme_count(s) == 257 ==> too_long(s, MAX_TEXT_GRAPHEMES as nat),
{
}

/// Text that holds a forbidden character is never valid input.
pub proof fn lemma_forbidden_is_invalid(s: Seq<char>, i: int)
    requires
        0 <= i < s.len(),
        is_forbidden(s[i]),
    ensures
        !valid_text(s),
{
    assert(has_forbidden(s));
}

proof fn lemma_trim_start(s: Seq<char>)
    ensures
        trim_start(s).len() <= s.len(),
        trim_start(s) == s.subrange(s.len() - trim_start(s).len(), s.len() as int),
        trim_start(s).len() > 0 ==> !is_white_space(trim_start(s)[0]),
    decreases s.len(),
{
    if s.len() > 0 && is_white_space(s[0]) {
        lemma_trim_start(s.drop_first());
        assert(s.drop_first().subrange(
            s.drop_first().len() - trim_start(s).len(),
            s.drop_first().len() as int,
        ) == s.subrange(s.len() - trim_start(s).len(), s.len() as int));
    } else {
        assert(s.subrange(0, s.len() as int) == s);
    }
}

proof fn lemma_trim_end(s: Seq<char>)
    ensures
        trim_end(s).len() <= s.len(),
        trim_end(s) == s.subrange(0, trim_end(s).len() as int),
        trim_end(s).len() > 0 ==> !is_white_space(trim_end(s).last()),
    decreases s.len(),
{
    if s.len() > 0 && is_white_space(s.last()) {
        lemma_trim_end(s.drop_last());
        assert(s.drop_last().subrange(0, trim_end(s).len() as int) == s.subrange(
            0,
            trim_end(s).len() as int,
        ));
    } else {
        assert(s.subrange(0, s.len() as int) == s);
    }
}

/// Trimmed text is a window of the text, and starts and ends with a
/// character that is not white space.
proof fn lemma_trimmed(s: Seq<char>) -> (k: int)
    ensures
        0 <= k && k + trimmed(s).len() <= s.len(),
        trimmed(s) == s.subrange(k, k + trimmed(s).len()),
        trimmed(s).len() > 0 ==> !is_white_space(trimmed(s)[0]) && !is_white_space(
            trimmed(s).last(),
        ),
{
    let a = trim_start(s);
    lemma_trim_start(s);
    lemma_trim_end(a);
    let k = s.len() - a.len();
    assert(trimmed(s) == s.subrange(k, k + trimmed(s).len()));
    k
}

/// Text that starts and ends with a character that is not white space is
/// its own trimmed form.
proof fn lemma_trimmed_fixed(s: Seq<char>)
    requires
        s.len() > 0,
        !is_white_space(s[0]),
        !is_white_space(s.last()),
    ensures
        trimmed(s) == s,
{
}

proof fn lemma_lower_char(c: char)
    ensures
        is_white_space(ascii_lower_char(c)) == is_white_space(c),
        is_forbidden(ascii_lower_char(c)) == is_forbidden(c),
        (ascii_lower_char(c) == '@') == (c == '@'),
        ascii_lower_char(ascii_lower_char(c)) == ascii_lower_char(c),
        '\0' <= c <= '\u{7f}' ==> '\0' <= ascii_lower_char(c) <= '\u{7f}',
{
}

proof fn lemma_at_count_lower(s: Seq<char>)
    ensures
        at_count(ascii_lower(s)) == at_count(s),
    decreases s.len(),
{
    if s.len() > 0 {
        lemma_at_count_lower(s.drop_last());
        assert(ascii_lower(s).drop_last() == ascii_lower(s.drop_last()));
        lemma_lower_char(s.last());
    }
}

/// Sanitizing an e-mail address twice gives what sanitizing it once gave.
/// Stated for ASCII addresses whose sanitized form is within the length cap.
pub proof fn lemma_sanitize_email_idempotent(x: Seq<char>)
    requires
        email_outcome(x) is Some,
        is_ascii_chars(x),
        !too_long(email_outcome(x)->0, MAX_TEXT_GRAPHEMES as nat),
    ensures
        email_outcome(email_outcome(x)->0) == email_outcome(x),
{
    let t = trimmed(x);
    let k = lemma_trimmed(x);
    assert(is_ascii_chars(t)) by {
        assert forall|i: int| 0 <= i < t.len() implies '\0' <= #[trigger] t[i] <= '\u{7f}' by {
            assert(t[i] == x[k + i]);
        }
    }
    let y = ascii_lower(t);
    assert(email_outcome(x)->0 == y);
    assert(t.len() > 0);
    lemma_lower_char(t[0]);
    lemma_lower_char(t.last());
    assert(y[0] == ascii_lower_char(t[0]));
    assert(y.last() == ascii_lower_char(t.last()));
    lemma_trimmed_fixed(y);
    assert(!has_forbidden(y)) by {
        if has_forbidden(y) {
            let i = choose|i: int| 0 <= i < y.len() && is_forbidden(#[trigger] y[i]);
            lemma_lower_char(t[i]);
            assert(t[i] == x[k + i]);
            assert(has_forbidden(x));
        }
    }
    assert(!empty_or_white_space(y));
    assert(valid_text(y));
    lemma_at_count_lower(t);
    assert(email_shaped(trimmed(y)));
    assert(is_ascii_chars(y)) by {
        assert forall|i: int| 0 <= i < y.len() implies '\0' <= #[trigger] y[i] <= '\u{7f}' by {
            lemma_lower_char(t[i]);
        }
    }
    assert(lowered(y) == y) by {
        assert forall|i: int| 0 <= i < y.len() implies #[trigger] ascii_lower(y)[i] == y[i] by {
            lemma_lower_char(t[i]);
        }
        assert(ascii_lower(y) == y);
    }
}

/// A sanitized user name is already in canonical form: trimming it again
/// changes nothing.
pub proof fn lemma_sanitized_name_is_trimmed(x: Seq<char>)
    requires
        username_outcome(x) is Some,
    ensures
        trimmed(username_outcome(x)->0) == username_outcome(x)->0,
{
    lemma_trimmed(x);
    lemma_trimmed_fixed(trimmed(x));
}

} // verus!
