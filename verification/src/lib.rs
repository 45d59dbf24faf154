//! Password strength checking and random password generation.
//!
//! The library rates a password as `Weak`, `Medium` or `Strong` from its
//! length, a small blocklist of common passwords, and how many of the four
//! ASCII character classes (lowercase, uppercase, digit, special) appear in
//! it.  It also generates random passwords whose composition covers exactly
//! the character classes a caller enables.

use vstd::prelude::*;

pub mod checker;
pub mod generator;

pub use checker::Checker;
pub use checker::Strength;
pub use generator::Error;
pub use generator::Generator;
pub use generator::Options;

verus! {

/// Facade over the strength checker and the password generator.
pub struct Password {
    pub checker: Checker,
    pub generator: Generator,
}

impl Password {
    pub fn new() -> Self {
        Self { checker: Checker::new(), generator: Generator::new() }
    }

    /// Rate a password; see `Checker::check`.
    pub fn check(&self, password: &String) -> (r: Strength)
        ensures
            r == checker::strength_of(password@),
    {
        self.checker.check(password.as_str())
    }

    /// Draw a random password; see `Generator::generate`.
    pub fn generate(&self, options: Options) -> (r: Result<String, Error>)
        ensures
            (r == Result::<String, Error>::Err(Error::InvalidConfiguration)) <==> !generator::any_class_enabled(
                options,
            ),
            r matches Result::Ok(p) ==> generator::generated_password_ok(p@, options),
            generator::exactly_one_class_enabled(options) && options.length >= 1 ==> r is Ok,
    {
        self.generator.generate(options)
    }
}

/// Law: the checker and the generator agree on character classes, so a
/// password generated with all four classes enabled and a length of at
/// least eight is always rated strong.
pub proof fn lemma_generated_with_all_classes_is_strong(s: Seq<char>, options: Options)
    requires
        generator::generated_password_ok(s, options),
        options.small_letters,
        options.capital_letters,
        options.numbers,
        options.special_chars,
        options.length >= 8,
    ensures
        checker::strength_of(s) == Strength::Strong,
{
    checker::lemma_four_classes_is_strong(s);
}

} // verus!
