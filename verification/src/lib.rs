//! Random password generation with verified inclusion guarantees.
//!
//! A [`generator::Password`] holds three flags that switch the uppercase,
//! digit and symbol classes on or off; lowercase letters are always part of
//! the alphabet.  Every generated password has exactly the requested length,
//! uses only characters of the enabled classes, and holds one character of
//! each enabled class as far as the length leaves room for it.
//!
//! - [`charset`]: the character classes.
//! - [`generator`]: the configuration and the generating function.
//! - [`guarantees`]: what follows for every generated password.
//! - [`outcomes`]: which sequences can be generated at all.
//! - [`validate`]: validation of a requested length and number of passwords.
//! - [`trusted`]: the contracts assumed of the random number generator.

pub mod charset;
pub mod generator;
pub mod guarantees;
pub mod outcomes;
pub mod trusted;
pub mod validate;
