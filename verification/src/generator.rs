//! The password generator: a configuration of three flags and the function
//! that draws a password for it.
//!
//! A password is built position by position and shuffled at the end.  The
//! first positions are reserved, one for each enabled class in the order
//! uppercase, digits, symbols; a password too short for all of them leaves
//! the later classes without a position.  Every other position is filled
//! from the whole candidate alphabet.

use crate::charset::{
    drawn_from, holds_one_of, is_digit, is_lowercase, is_symbol, is_uppercase, lemma_class_sizes,
    lemma_push, lemma_rearranged, DIGITS, LOWERCASE, SYMBOLS, UPPERCASE,
};
use crate::trusted::{random_index, shuffle};
use rand::rngs::ThreadRng;
use rand::thread_rng;
use vstd::prelude::*;
use vstd::seq_lib::lemma_seq_concat_contains_all_elements;
use vstd::string::*;

verus! {

/// Which optional character classes a password may use.  Lowercase letters
/// are always included.
pub struct Password {
    uppercase: bool,
    digits: bool,
    symbols: bool,
}

impl Password {
    /// Uppercase letters are enabled.
    pub closed spec fn includes_uppercase(&self) -> bool {
        self.uppercase
    }

    /// Digits are enabled.
    pub closed spec fn includes_digits(&self) -> bool {
        self.digits
    }

    /// Symbols are enabled.
    pub closed spec fn includes_symbols(&self) -> bool {
        self.symbols
    }

    /// The candidate alphabet: the lowercase letters, followed by each
    /// enabled class in the order uppercase, digits, symbols.
    pub open spec fn alphabet(&self) -> Seq<char> {
        LOWERCASE@ + (if self.includes_uppercase() {
            UPPERCASE@
        } else {
            Seq::empty()
        }) + (if self.includes_digits() {
            DIGITS@
        } else {
            Seq::empty()
        }) + (if self.includes_symbols() {
            SYMBOLS@
        } else {
            Seq::empty()
        })
    }

    /// `c` may occur in a password: it is a lowercase letter or belongs to
    /// an enabled class.
    pub open spec fn allows(&self, c: char) -> bool {
        ||| is_lowercase(c)
        ||| self.includes_uppercase() && is_uppercase(c)
        ||| self.includes_digits() && is_digit(c)
        ||| self.includes_symbols() && is_symbol(c)
    }

    /// How many positions are reserved ahead of the one for a digit.
    pub open spec fn slots_before_digit(&self) -> nat {
        if self.includes_uppercase() {
            1
        } else {
            0
        }
    }

    /// How many positions are reserved ahead of the one for a symbol.
    pub open spec fn slots_before_symbol(&self) -> nat {
        if self.includes_digits() {
            self.slots_before_digit() + 1
        } else {
            self.slots_before_digit()
        }
    }

    /// The class that position `slot` is reserved for before the password
    /// is shuffled, if any: the enabled classes take the first positions in
    /// the order uppercase, digits, symbols.
    pub open spec fn reserved(&self, slot: nat) -> Option<Seq<char>> {
        if self.includes_uppercase() && slot == 0 {
            Some(UPPERCASE@)
        } else if self.includes_digits() && slot == self.slots_before_digit() {
            Some(DIGITS@)
        } else if self.includes_symbols() && slot == self.slots_before_symbol() {
            Some(SYMBOLS@)
        } else {
            None
        }
    }

    /// The characters that position `slot` is drawn from: those of the
    /// class it is reserved for, or else the whole candidate alphabet.
    pub open spec fn slot_alphabet(&self, slot: nat) -> Seq<char> {
        match self.reserved(slot) {
            Some(class) => class,
            None => self.alphabet(),
        }
    }

    /// A password of `length` characters is sure to hold an uppercase letter:
    /// the class is enabled and there is a position to reserve for it.
    pub open spec fn guarantees_uppercase(&self, length: nat) -> bool {
        self.includes_uppercase() && length > 0
    }

    /// A password of `length` characters is sure to hold a digit: the class
    /// is enabled and a position is left after the one for uppercase.
    pub open spec fn guarantees_digit(&self, length: nat) -> bool {
        self.includes_digits() && length > self.slots_before_digit()
    }

    /// A password of `length` characters is sure to hold a symbol: the class
    /// is enabled and a position is left after those for uppercase and
    /// digits.
    pub open spec fn guarantees_symbol(&self, length: nat) -> bool {
        self.includes_symbols() && length > self.slots_before_symbol()
    }

    /// What holds of every password generated for this configuration and
    /// `length`: it has that length, all its characters come from the
    /// candidate alphabet, and it holds a character of each class that is
    /// guaranteed at this length.
    pub open spec fn is_password(&self, length: nat, s: Seq<char>) -> bool {
        &&& s.len() == length
        &&& drawn_from(s, self.alphabet())
        &&& self.guarantees_uppercase(length) ==> holds_one_of(s, UPPERCASE@)
        &&& self.guarantees_digit(length) ==> holds_one_of(s, DIGITS@)
        &&& self.guarantees_symbol(length) ==> holds_one_of(s, SYMBOLS@)
    }

    /// A generator for the given optional classes, in the order uppercase,
    /// digits, symbols.
    pub fn new(uppercase: bool, digits: bool, symbols: bool) -> (generator: Self)
        ensures
            generator.includes_uppercase() == uppercase,
            generator.includes_digits() == digits,
            generator.includes_symbols() == symbols,
    {
        Password { uppercase, digits, symbols }
    }

    /// The candidate alphabet as a string.
    pub fn charset(&self) -> (charset: String)
        ensures
            charset@ == self.alphabet(),
    {
        let mut charset = String::from_str(LOWERCASE);
        if self.uppercase {
            charset.append(UPPERCASE);
        }
        if self.digits {
            charset.append(DIGITS);
        }
        if self.symbols {
            charset.append(SYMBOLS);
        }
        charset
    }

    /// The class that position `slot` is reserved for, if any.
    pub fn reserved_class(&self, slot: usize) -> (class: Option<&'static str>)
        ensures
            match class {
                Some(chars) => self.reserved(slot as nat) == Some(chars@),
                None => self.reserved(slot as nat) is None,
            },
    {
        let before_digit: usize = if self.uppercase {
            1
        } else {
            0
        };
        let before_symbol: usize = if self.digits {
            before_digit + 1
        } else {
            before_digit
        };
        if self.uppercase && slot == 0 {
            Some(UPPERCASE)
        } else if self.digits && slot == before_digit {
            Some(DIGITS)
        } else if self.symbols && slot == before_symbol {
            Some(SYMBOLS)
        } else {
            None
        }
    }

    /// Generates a password of `length` characters.
    ///
    /// Each position gets a random character of the class it is reserved
    /// for, or of the whole candidate alphabet where it is not reserved.
    /// The characters are then shuffled, so that the reserved ones end up
    /// anywhere.  Which characters are drawn and how they are arranged is
    /// left to the random number generator of the thread; the contract
    /// states what holds of every outcome.
    pub fn execute(&self, length: usize) -> (password: String)
        ensures
            password@.len() == length,
            self.is_password(length as nat, password@),
    {
        let charset = self.charset();
        let mut rng = thread_rng();
        let mut chars: Vec<char> = Vec::new();

        for slot in 0..length
            invariant
                charset@ == self.alphabet(),
                chars@.len() == slot,
                self.is_password(slot as nat, chars@),
        {
            proof {
                lemma_class_sizes();
            }
            let c = match self.reserved_class(slot) {
                Some(class) => self.get_random_char(class, &mut rng),
                None => self.get_random_char(charset.as_str(), &mut rng),
            };
            proof {
                self.lemma_extended_password(chars@, c);
            }
            chars.push(c);
        }

        let ghost unshuffled = chars@;
        shuffle(&mut chars, &mut rng);
        proof {
            self.lemma_rearranged_password(length as nat, unshuffled, chars@);
        }
        string_from_chars(&chars)
    }

    /// One character of `charset`, picked at random.
    fn get_random_char(&self, charset: &str, rng: &mut ThreadRng) -> (c: char)
        requires
            charset@.len() > 0,
        ensures
            charset@.contains(c),
    {
        let index: usize = random_index(rng, charset.unicode_len());
        charset.get_char(index)
    }

    /// A password with one more character, drawn for the position that
    /// comes next, is a password of the next length.
    pub proof fn lemma_extended_password(&self, s: Seq<char>, c: char)
        requires
            self.is_password(s.len(), s),
            self.slot_alphabet(s.len()).contains(c),
        ensures
            self.is_password(s.len() + 1, s.push(c)),
    {
        broadcast use lemma_seq_concat_contains_all_elements;

        lemma_push(s, c, self.alphabet());
        lemma_push(s, c, UPPERCASE@);
        lemma_push(s, c, DIGITS@);
        lemma_push(s, c, SYMBOLS@);
    }

    /// Rearranging the characters of a password gives a password again, for
    /// the same configuration and length.
    pub proof fn lemma_rearranged_password(&self, length: nat, a: Seq<char>, b: Seq<char>)
        requires
            self.is_password(length, a),
            a.to_multiset() == b.to_multiset(),
        ensures
            self.is_password(length, b),
    {
        lemma_rearranged(a, b, self.alphabet());
        lemma_rearranged(a, b, UPPERCASE@);
        lemma_rearranged(a, b, DIGITS@);
        lemma_rearranged(a, b, SYMBOLS@);
    }
}

/// The string made of the characters of `chars`, in their order.
pub fn string_from_chars(chars: &Vec<char>) -> (s: String)
    ensures
        s@ == chars@,
{
    let mut s = String::new();
    for i in 0..chars.len()
        invariant
            s@ == chars@.take(i as int),
    {
        s.push(chars[i]);
    }
    s
}

} // verus!
