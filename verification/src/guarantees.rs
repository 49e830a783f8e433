//! What follows for every password that [`Password::execute`] returns,
//! stated over [`Password::is_password`].

use crate::charset::{
    holds_one_of, is_digit, is_symbol, is_uppercase, lemma_class_members, lemma_class_sizes,
    lemma_classes_disjoint, DIGITS, LOWERCASE, SYMBOLS, UPPERCASE,
};
use crate::generator::Password;
use vstd::prelude::*;
use vstd::seq_lib::lemma_seq_concat_contains_all_elements;

verus! {

/// `s` holds an uppercase letter.
pub open spec fn has_uppercase(s: Seq<char>) -> bool {
    exists|i: int| 0 <= i < s.len() && is_uppercase(#[trigger] s[i])
}

/// `s` holds a digit.
pub open spec fn has_digit(s: Seq<char>) -> bool {
    exists|i: int| 0 <= i < s.len() && is_digit(#[trigger] s[i])
}

/// `s` holds a symbol.
pub open spec fn has_symbol(s: Seq<char>) -> bool {
    exists|i: int| 0 <= i < s.len() && is_symbol(#[trigger] s[i])
}

/// How many of the three optional classes are enabled.
pub open spec fn enabled_classes(generator: Password) -> nat {
    if generator.includes_symbols() {
        generator.slots_before_symbol() + 1
    } else {
        generator.slots_before_symbol()
    }
}

/// To hold a character of a class constant is to hold a character of that
/// class.
pub proof fn lemma_holds_class(s: Seq<char>)
    ensures
        holds_one_of(s, UPPERCASE@) <==> has_uppercase(s),
        holds_one_of(s, DIGITS@) <==> has_digit(s),
        holds_one_of(s, SYMBOLS@) <==> has_symbol(s),
{
    lemma_class_members();
}

/// A class is guaranteed at a length exactly where one of the first `length`
/// positions is reserved for it.
pub proof fn lemma_guaranteed_classes(generator: Password, length: nat)
    ensures
        generator.guarantees_uppercase(length) <==> exists|slot: nat|
            slot < length && #[trigger] generator.reserved(slot) == Some(UPPERCASE@),
        generator.guarantees_digit(length) <==> exists|slot: nat|
            slot < length && #[trigger] generator.reserved(slot) == Some(DIGITS@),
        generator.guarantees_symbol(length) <==> exists|slot: nat|
            slot < length && #[trigger] generator.reserved(slot) == Some(SYMBOLS@),
{
    reveal_strlit("ABCDEFGHIJKLMNOPQRSTUVWXYZ");
    reveal_strlit("0123456789");
    reveal_strlit("!@#$%^&*()_+-=[]{}|;:,.<>?");
    assert(UPPERCASE@[0] != DIGITS@[0]);
    assert(UPPERCASE@[0] != SYMBOLS@[0]);
    assert(DIGITS@[0] != SYMBOLS@[0]);
    if generator.guarantees_uppercase(length) {
        assert(generator.reserved(0) == Some(UPPERCASE@));
    }
    if generator.guarantees_digit(length) {
        assert(generator.reserved(generator.slots_before_digit()) == Some(DIGITS@));
    }
    if generator.guarantees_symbol(length) {
        assert(generator.reserved(generator.slots_before_symbol()) == Some(SYMBOLS@));
    }
}

/// The candidate alphabet is never empty: it starts with the 26 lowercase
/// letters, and each enabled class adds its characters.
pub proof fn lemma_alphabet_size(generator: Password)
    ensures
        generator.alphabet().len() >= 26,
        generator.alphabet().len() == 26 + (if generator.includes_uppercase() {
            26nat
        } else {
            0
        }) + (if generator.includes_digits() {
            10nat
        } else {
            0
        }) + (if generator.includes_symbols() {
            26nat
        } else {
            0
        }),
        generator.alphabet().take(26) == LOWERCASE@,
{
    lemma_class_sizes();
}

/// The candidate alphabet holds exactly the characters that the
/// configuration allows: the lowercase letters and the characters of the
/// enabled classes.
pub proof fn lemma_alphabet_members(generator: Password)
    ensures
        forall|c: char| #[trigger] generator.alphabet().contains(c) <==> generator.allows(c),
{
    broadcast use lemma_seq_concat_contains_all_elements;

    lemma_class_members();
}

/// Every character of a password is a lowercase letter or belongs to an
/// enabled class.
pub proof fn lemma_password_characters(generator: Password, length: nat, s: Seq<char>)
    requires
        generator.is_password(length, s),
    ensures
        forall|i: int| 0 <= i < s.len() ==> generator.allows(#[trigger] s[i]),
{
    lemma_alphabet_members(generator);
}

/// With uppercase enabled, a password of at least one character holds an
/// uppercase letter.  The same holds of a digit where digits are enabled
/// and uppercase is not, and of a symbol where symbols are the only optional
/// class enabled.
pub proof fn lemma_first_class_present(generator: Password, length: nat, s: Seq<char>)
    requires
        generator.is_password(length, s),
        length >= 1,
    ensures
        generator.includes_uppercase() ==> has_uppercase(s),
        generator.includes_digits() && !generator.includes_uppercase() ==> has_digit(s),
        generator.includes_symbols() && !generator.includes_uppercase()
            && !generator.includes_digits() ==> has_symbol(s),
{
    lemma_holds_class(s);
}

/// A password that is at least as long as the number of enabled classes
/// holds a character of each enabled class.
pub proof fn lemma_enabled_classes_present(generator: Password, length: nat, s: Seq<char>)
    requires
        generator.is_password(length, s),
        length >= enabled_classes(generator),
    ensures
        generator.includes_uppercase() ==> has_uppercase(s),
        generator.includes_digits() ==> has_digit(s),
        generator.includes_symbols() ==> has_symbol(s),
{
    lemma_holds_class(s);
}

/// With all three classes enabled, a password of at least three characters
/// holds an uppercase letter, a digit and a symbol.
pub proof fn lemma_all_classes_present(generator: Password, length: nat, s: Seq<char>)
    requires
        generator.is_password(length, s),
        generator.includes_uppercase(),
        generator.includes_digits(),
        generator.includes_symbols(),
        length >= 3,
    ensures
        has_uppercase(s),
        has_digit(s),
        has_symbol(s),
{
    lemma_enabled_classes_present(generator, length, s);
}

/// With uppercase enabled, a password of one character is an uppercase
/// letter, whatever else is enabled: the only position goes to the first
/// class in the order uppercase, digits, symbols, and nothing is left for a
/// digit or a symbol.
pub proof fn lemma_single_character(generator: Password, s: Seq<char>)
    requires
        generator.is_password(1, s),
        generator.includes_uppercase(),
    ensures
        s.len() == 1,
        is_uppercase(s[0]),
        !has_digit(s),
        !has_symbol(s),
{
    lemma_holds_class(s);
    lemma_classes_disjoint(s[0]);
}

} // verus!
