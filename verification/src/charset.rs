//! The four character classes a password is drawn from.
//!
//! Each class is a fixed string of ASCII characters.  The classes share no
//! character.

use vstd::prelude::*;

verus! {

/// The lowercase letters, always part of the alphabet.
pub const LOWERCASE: &'static str = "abcdefghijklmnopqrstuvwxyz";

/// The uppercase letters.
pub const UPPERCASE: &'static str = "ABCDEFGHIJKLMNOPQRSTUVWXYZ";

/// The decimal digits.
pub const DIGITS: &'static str = "0123456789";

/// The punctuation characters that count as symbols.
pub const SYMBOLS: &'static str = "!@#$%^&*()_+-=[]{}|;:,.<>?";

/// `c` is one of `a` to `z`.
pub open spec fn is_lowercase(c: char) -> bool {
    'a' <= c <= 'z'
}

/// `c` is one of `A` to `Z`.
pub open spec fn is_uppercase(c: char) -> bool {
    'A' <= c <= 'Z'
}

/// `c` is one of `0` to `9`.
pub open spec fn is_digit(c: char) -> bool {
    '0' <= c <= '9'
}

/// `c` is one of the characters of [`SYMBOLS`].
pub open spec fn is_symbol(c: char) -> bool {
    SYMBOLS@.contains(c)
}

/// Every character of `s` occurs in `charset`.
pub open spec fn drawn_from(s: Seq<char>, charset: Seq<char>) -> bool {
    forall|i: int| 0 <= i < s.len() ==> charset.contains(#[trigger] s[i])
}

/// At least one character of `s` occurs in `charset`.
pub open spec fn holds_one_of(s: Seq<char>, charset: Seq<char>) -> bool {
    exists|i: int| 0 <= i < s.len() && charset.contains(#[trigger] s[i])
}

/// The class constants have the sizes 26, 26, 10 and 26.
pub proof fn lemma_class_sizes()
    ensures
        LOWERCASE@.len() == 26,
        UPPERCASE@.len() == 26,
        DIGITS@.len() == 10,
        SYMBOLS@.len() == 26,
{
    reveal_strlit("abcdefghijklmnopqrstuvwxyz");
    reveal_strlit("ABCDEFGHIJKLMNOPQRSTUVWXYZ");
    reveal_strlit("0123456789");
    reveal_strlit("!@#$%^&*()_+-=[]{}|;:,.<>?");
}

/// The letter and digit constants hold exactly the characters of their
/// ranges: `a` to `z`, `A` to `Z` and `0` to `9`.
pub proof fn lemma_class_members()
    ensures
        forall|c: char| #[trigger] LOWERCASE@.contains(c) <==> is_lowercase(c),
        forall|c: char| #[trigger] UPPERCASE@.contains(c) <==> is_uppercase(c),
        forall|c: char| #[trigger] DIGITS@.contains(c) <==> is_digit(c),
{
    reveal_strlit("abcdefghijklmnopqrstuvwxyz");
    reveal_strlit("ABCDEFGHIJKLMNOPQRSTUVWXYZ");
    reveal_strlit("0123456789");
    assert forall|c: char| is_lowercase(c) implies #[trigger] LOWERCASE@.contains(c) by {
        let i = c as int - 'a' as int;
        assert(LOWERCASE@[i] == c);
    }
    assert forall|c: char| is_uppercase(c) implies #[trigger] UPPERCASE@.contains(c) by {
        let i = c as int - 'A' as int;
        assert(UPPERCASE@[i] == c);
    }
    assert forall|c: char| is_digit(c) implies #[trigger] DIGITS@.contains(c) by {
        let i = c as int - '0' as int;
        assert(DIGITS@[i] == c);
    }
}

/// No character belongs to two classes.
pub proof fn lemma_classes_disjoint(c: char)
    ensures
        !(is_lowercase(c) && is_uppercase(c)),
        !(is_lowercase(c) && is_digit(c)),
        !(is_lowercase(c) && is_symbol(c)),
        !(is_uppercase(c) && is_digit(c)),
        !(is_uppercase(c) && is_symbol(c)),
        !(is_digit(c) && is_symbol(c)),
{
    reveal_strlit("!@#$%^&*()_+-=[]{}|;:,.<>?");
}

/// Appending a character of `charset` keeps a sequence drawn from it, and
/// makes the sequence hold one; whatever is appended, a sequence that holds
/// a character of `charset` goes on holding it.
pub proof fn lemma_push(s: Seq<char>, c: char, charset: Seq<char>)
    ensures
        drawn_from(s, charset) && charset.contains(c) ==> drawn_from(s.push(c), charset),
        charset.contains(c) ==> holds_one_of(s.push(c), charset),
        holds_one_of(s, charset) ==> holds_one_of(s.push(c), charset),
{
    if charset.contains(c) {
        assert(s.push(c)[s.len() as int] == c);
    }
    if holds_one_of(s, charset) {
        let i = choose|i: int| 0 <= i < s.len() && charset.contains(#[trigger] s[i]);
        assert(s.push(c)[i] == s[i]);
    }
}

/// Two sequences that hold the same characters, each as often as the other,
/// have the same length, and what holds of the members of one holds of the
/// members of the other.
pub proof fn lemma_rearranged(a: Seq<char>, b: Seq<char>, charset: Seq<char>)
    requires
        a.to_multiset() == b.to_multiset(),
    ensures
        a.len() == b.len(),
        drawn_from(a, charset) ==> drawn_from(b, charset),
        holds_one_of(a, charset) ==> holds_one_of(b, charset),
{
    a.to_multiset_ensures();
    b.to_multiset_ensures();
    if drawn_from(a, charset) {
        assert forall|i: int| 0 <= i < b.len() implies charset.contains(#[trigger] b[i]) by {
            assert(a.to_multiset().count(b[i]) > 0);
        }
    }
    if holds_one_of(a, charset) {
        let i = choose|i: int| 0 <= i < a.len() && charset.contains(#[trigger] a[i]);
        assert(b.to_multiset().count(a[i]) > 0);
    }
}

} // verus!
