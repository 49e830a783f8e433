//! Which sequences [`Password::execute`] can return.
//!
//! Before the shuffle, each position of a password holds a character of the
//! alphabet of that position.  The sequences that meet
//! [`Password::is_password`] are exactly the rearrangements of such draws,
//! so the contract of `execute` says of a password all that follows from the
//! way it is built.

use crate::charset::{lemma_class_members, lemma_classes_disjoint, DIGITS, SYMBOLS, UPPERCASE};
use crate::generator::Password;
use vstd::prelude::*;
use vstd::seq_lib::lemma_multiset_commutative;

verus! {

/// `a` is a password as it stands before the shuffle: it has `length`
/// characters, and each is one of the alphabet of its position.
pub open spec fn is_draw(generator: Password, length: nat, a: Seq<char>) -> bool {
    &&& a.len() == length
    &&& forall|i: int|
        0 <= i < a.len() ==> generator.slot_alphabet(i as nat).contains(#[trigger] a[i])
}

/// `s` with the character at position `i` moved to the front.
spec fn moved_to_front(s: Seq<char>, i: int) -> Seq<char> {
    seq![s[i]] + s.remove(i)
}

/// Moving a character to the front rearranges the sequence: the characters
/// before it move back by one position, those after it stay.
proof fn lemma_moved_to_front(s: Seq<char>, i: int)
    requires
        0 <= i < s.len(),
    ensures
        moved_to_front(s, i).to_multiset() == s.to_multiset(),
        moved_to_front(s, i).len() == s.len(),
        moved_to_front(s, i)[0] == s[i],
        forall|k: int| 1 <= k <= i ==> #[trigger] moved_to_front(s, i)[k] == s[k - 1],
        forall|k: int| i < k < s.len() ==> #[trigger] moved_to_front(s, i)[k] == s[k],
{
    let front = seq![s[i]];
    s.to_multiset_ensures();
    Seq::<char>::empty().to_multiset_ensures();
    lemma_multiset_commutative(front, s.remove(i));
}

/// A draw is a password.
pub proof fn lemma_draw_is_password(generator: Password, length: nat, a: Seq<char>)
    requires
        is_draw(generator, length, a),
    ensures
        generator.is_password(length, a),
    decreases length,
{
    if length > 0 {
        let shorter = a.drop_last();
        assert(is_draw(generator, (length - 1) as nat, shorter));
        lemma_draw_is_password(generator, (length - 1) as nat, shorter);
        generator.lemma_extended_password(shorter, a.last());
        assert(shorter.push(a.last()) =~= a);
    }
}

/// Every rearrangement of a draw is a password.
pub proof fn lemma_shuffled_draw_is_password(
    generator: Password,
    length: nat,
    a: Seq<char>,
    s: Seq<char>,
)
    requires
        is_draw(generator, length, a),
        a.to_multiset() == s.to_multiset(),
    ensures
        generator.is_password(length, s),
{
    lemma_draw_is_password(generator, length, a);
    generator.lemma_rearranged_password(length, a, s);
}

/// Every password is a rearrangement of a draw: the result is such a draw.
pub proof fn lemma_password_is_shuffled_draw(generator: Password, length: nat, s: Seq<char>) -> (a:
    Seq<char>)
    requires
        generator.is_password(length, s),
    ensures
        is_draw(generator, length, a),
        a.to_multiset() == s.to_multiset(),
{
    lemma_class_members();
    let with_symbol = if generator.guarantees_symbol(length) {
        let i = choose|i: int| 0 <= i < s.len() && SYMBOLS@.contains(#[trigger] s[i]);
        lemma_moved_to_front(s, i);
        moved_to_front(s, i)
    } else {
        s
    };
    generator.lemma_rearranged_password(length, s, with_symbol);
    let with_digit = if generator.guarantees_digit(length) {
        let i = choose|i: int|
            0 <= i < with_symbol.len() && DIGITS@.contains(#[trigger] with_symbol[i]);
        lemma_moved_to_front(with_symbol, i);
        lemma_classes_disjoint(with_symbol[i]);
        moved_to_front(with_symbol, i)
    } else {
        with_symbol
    };
    generator.lemma_rearranged_password(length, with_symbol, with_digit);
    let a = if generator.guarantees_uppercase(length) {
        let i = choose|i: int|
            0 <= i < with_digit.len() && UPPERCASE@.contains(#[trigger] with_digit[i]);
        lemma_moved_to_front(with_digit, i);
        lemma_classes_disjoint(with_digit[i]);
        moved_to_front(with_digit, i)
    } else {
        with_digit
    };
    generator.lemma_rearranged_password(length, with_digit, a);
    a
}

} // verus!
