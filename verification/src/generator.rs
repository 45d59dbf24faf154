//! Constrained random password generation.
//!
//! A password is drawn character by character, uniformly from the alphabet
//! of the enabled character classes, and redrawn in full until every enabled
//! class appears in it (rejection sampling).

use vstd::prelude::*;

use crate::checker::Checker;
use crate::checker::has_capital_letter;
use crate::checker::has_number;
use crate::checker::has_small_letter;
use crate::checker::has_special_char;
use crate::checker::is_capital_letter;
use crate::checker::is_number;
use crate::checker::is_small_letter;
use crate::checker::is_special_char;

use rand::Rng;

verus! {

const SMALL_LETTERS: &'static str = "abcdefghijklmnopqrstuvwxyz";

const CAPITAL_LETTERS: &'static str = "ABCDEFGHIJKLMNOPQRSTUVWXYZ";

const NUMBERS: &'static str = "0123456789";

const SPECIAL_CHARS: &'static str = "`~!@#$%^&*()-_=+\\/;:'\",.?<>[]{}|";

/// Rejection sampling has no bounded worst-case time, so the retry loop
/// carries a generous attempt bound; exceeding it is an internal-error
/// condition distinct from an invalid configuration.
const MAX_ATTEMPTS: u64 = 10000;

/// Configuration for one generation call: the password length and the four
/// character classes eligible for inclusion.
#[derive(Clone, Copy, Debug)]
pub struct Options {
    pub length: u8,
    pub small_letters: bool,
    pub capital_letters: bool,
    pub numbers: bool,
    pub special_chars: bool,
}

impl Default for Options {
    /// Sixteen characters over all four classes.
    fn default() -> (o: Self)
        ensures
            o.length == 16,
            o.small_letters,
            o.capital_letters,
            o.numbers,
            o.special_chars,
    {
        Self {
            length: 16,
            small_letters: true,
            capital_letters: true,
            numbers: true,
            special_chars: true,
        }
    }
}

/// Generation failure.
#[derive(Debug, PartialEq, Eq, Structural)]
pub enum Error {
    /// No character class is enabled, so the sampling alphabet is empty and
    /// no draw could ever succeed.
    InvalidConfiguration,
    /// No candidate drawn within the attempt bound covered every enabled
    /// class.
    AttemptsExhausted,
}

/// At least one character class is enabled, i.e. the sampling alphabet is
/// not empty.
pub open spec fn any_class_enabled(options: Options) -> bool {
    options.small_letters || options.capital_letters || options.numbers || options.special_chars
}

/// Exactly one character class is enabled.  Then every character of every
/// candidate is of that class, so the very first candidate is accepted and
/// generation cannot fail.
pub open spec fn exactly_one_class_enabled(options: Options) -> bool {
    ||| (options.small_letters && !options.capital_letters && !options.numbers
        && !options.special_chars)
    ||| (!options.small_letters && options.capital_letters && !options.numbers
        && !options.special_chars)
    ||| (!options.small_letters && !options.capital_letters && options.numbers
        && !options.special_chars)
    ||| (!options.small_letters && !options.capital_letters && !options.numbers
        && options.special_chars)
}

/// The sampling alphabet: the concatenation of the fixed per-class character
/// sets of every enabled class.
pub open spec fn spec_charset(options: Options) -> Seq<char> {
    (if options.small_letters {
        "abcdefghijklmnopqrstuvwxyz"@
    } else {
        Seq::<char>::empty()
    }) + (if options.capital_letters {
        "ABCDEFGHIJKLMNOPQRSTUVWXYZ"@
    } else {
        Seq::<char>::empty()
    }) + (if options.numbers {
        "0123456789"@
    } else {
        Seq::<char>::empty()
    }) + (if options.special_chars {
        "`~!@#$%^&*()-_=+\\/;:'\",.?<>[]{}|"@
    } else {
        Seq::<char>::empty()
    })
}

/// `c` belongs to one of the character classes that `options` enables.
pub open spec fn char_class_enabled(c: char, options: Options) -> bool {
    ||| (options.small_letters && is_small_letter(c))
    ||| (options.capital_letters && is_capital_letter(c))
    ||| (options.numbers && is_number(c))
    ||| (options.special_chars && is_special_char(c))
}

/// Every enabled character class appears in `s`: the acceptance test of the
/// rejection-sampling loop.
pub open spec fn covers_enabled_classes(s: Seq<char>, options: Options) -> bool {
    &&& (options.small_letters ==> has_small_letter(s))
    &&& (options.capital_letters ==> has_capital_letter(s))
    &&& (options.numbers ==> has_number(s))
    &&& (options.special_chars ==> has_special_char(s))
}

/// What generation promises of a returned password: the requested length,
/// every character drawn from the fixed sets of the enabled classes, and
/// each character class appearing in it exactly when it is enabled.
pub open spec fn generated_password_ok(s: Seq<char>, options: Options) -> bool {
    &&& s.len() == options.length as int
    &&& (forall|i: int| 0 <= i < s.len() ==> spec_charset(options).contains(#[trigger] s[i]))
    &&& (has_small_letter(s) <==> options.small_letters)
    &&& (has_capital_letter(s) <==> options.capital_letters)
    &&& (has_number(s) <==> options.numbers)
    &&& (has_special_char(s) <==> options.special_chars)
}

/// Law: in a string whose characters all come from enabled classes, no
/// disabled class appears.  The four classes partition the characters, so a
/// requested composition can never be polluted by a class that was not
/// asked for.
pub proof fn lemma_disabled_class_absent(s: Seq<char>, options: Options)
    requires
        forall|i: int| 0 <= i < s.len() ==> char_class_enabled(#[trigger] s[i], options),
    ensures
        !options.small_letters ==> !has_small_letter(s),
        !options.capital_letters ==> !has_capital_letter(s),
        !options.numbers ==> !has_number(s),
        !options.special_chars ==> !has_special_char(s),
{
}

/// With exactly one class enabled, a nonempty candidate whose characters
/// are all of enabled classes is all of that one class, so it covers every
/// enabled class: the acceptance test cannot reject it.
proof fn lemma_single_class_candidate_covers(s: Seq<char>, options: Options)
    requires
        exactly_one_class_enabled(options),
        s.len() >= 1,
        forall|i: int| 0 <= i < s.len() ==> char_class_enabled(#[trigger] s[i], options),
    ensures
        covers_enabled_classes(s, options),
{
    assert(char_class_enabled(s[0], options));
}

/// Relies on rand's `Rng::gen_range` on the range `0..bound`, which returns
/// a uniformly distributed value of the nonempty range (it panics on an
/// empty one), and on `rand::thread_rng` for the thread-local source.
#[verifier::external_body]
fn random_below(bound: usize) -> (r: usize)
    requires
        1 <= bound,
    ensures
        r < bound,
{
    rand::thread_rng().gen_range(0..bound)
}

/// Appends characters of enabled classes to the alphabet under
/// construction.
fn append_chars(charset: &mut String, chars: &str, options: &Options)
    requires
        forall|i: int| 0 <= i < chars@.len() ==> char_class_enabled(#[trigger] chars@[i], *options),
        forall|i: int|
            0 <= i < old(charset)@.len() ==> char_class_enabled(
                #[trigger] old(charset)@[i],
                *options,
            ),
    ensures
        final(charset)@ == old(charset)@ + chars@,
        forall|i: int|
            0 <= i < final(charset)@.len() ==> char_class_enabled(
                #[trigger] final(charset)@[i],
                *options,
            ),
{
    charset.append(chars);
    assert forall|i: int| 0 <= i < charset@.len() implies char_class_enabled(
        charset@[i],
        *options,
    ) by {
        if i >= old(charset)@.len() {
            assert(charset@[i] == chars@[i - old(charset)@.len()]);
        }
    }
}

pub struct Generator {}

impl Generator {
    pub fn new() -> Self {
        Self {}
    }

    /// The sampling alphabet: the concatenation of the fixed per-class
    /// character sets of every enabled class, derived fresh per call.
    fn charset_for_options(&self, options: Options) -> (charset: String)
        ensures
            charset@ == spec_charset(options),
            forall|i: int|
                0 <= i < charset@.len() ==> char_class_enabled(#[trigger] charset@[i], options),
            any_class_enabled(options) ==> charset@.len() >= 1,
    {
        proof {
            reveal_strlit("abcdefghijklmnopqrstuvwxyz");
            reveal_strlit("ABCDEFGHIJKLMNOPQRSTUVWXYZ");
            reveal_strlit("0123456789");
            reveal_strlit("`~!@#$%^&*()-_=+\\/;:'\",.?<>[]{}|");
        }
        let mut charset = String::new();

        if options.small_letters {
            assert(forall|i: int|
                0 <= i < SMALL_LETTERS@.len() ==> is_small_letter(#[trigger] SMALL_LETTERS@[i]));
            append_chars(&mut charset, SMALL_LETTERS, &options);
        }
        if options.capital_letters {
            assert(forall|i: int|
                0 <= i < CAPITAL_LETTERS@.len() ==> is_capital_letter(
                    #[trigger] CAPITAL_LETTERS@[i],
                ));
            append_chars(&mut charset, CAPITAL_LETTERS, &options);
        }
        if options.numbers {
            assert(forall|i: int| 0 <= i < NUMBERS@.len() ==> is_number(#[trigger] NUMBERS@[i]));
            append_chars(&mut charset, NUMBERS, &options);
        }
        if options.special_chars {
            assert(forall|i: int|
                0 <= i < SPECIAL_CHARS@.len() ==> is_special_char(#[trigger] SPECIAL_CHARS@[i]));
            append_chars(&mut charset, SPECIAL_CHARS, &options);
        }

        proof {
            assert(charset@ =~= spec_charset(options));
        }
        charset
    }

    /// The acceptance test: the candidate must show every enabled class,
    /// judged by the same predicates the strength checker uses.
    fn validate_password(&self, password: &str, options: &Options) -> (r: bool)
        ensures
            r == covers_enabled_classes(password@, *options),
    {
        let checker = Checker::new();

        if (options.small_letters && !checker.has_small_letters(password))
            || (options.capital_letters && !checker.has_capital_letters(password))
            || (options.numbers && !checker.has_numbers(password))
            || (options.special_chars && !checker.has_special_chars(password)) {
            return false;
        }

        true
    }

    /// Draw a random password of `options.length` characters covering
    /// exactly the enabled character classes.
    ///
    /// Fails fast with `Error::InvalidConfiguration` when no class is
    /// enabled, and with `Error::AttemptsExhausted` when no candidate
    /// within the attempt bound covered every enabled class — for
    /// reasonable lengths the first candidate almost always does, but a
    /// length smaller than the number of enabled classes, zero included,
    /// can never be covered and always exhausts the bound.  With exactly
    /// one class enabled and a length of at least one, every candidate is
    /// accepted, so generation succeeds outright.
    pub fn generate(&self, options: Options) -> (r: Result<String, Error>)
        ensures
            (r == Result::<String, Error>::Err(Error::InvalidConfiguration)) <==> !any_class_enabled(
                options,
            ),
            r matches Result::Ok(p) ==> generated_password_ok(p@, options),
            exactly_one_class_enabled(options) && options.length >= 1 ==> r is Ok,
    {
        if !(options.small_letters || options.capital_letters || options.numbers
            || options.special_chars) {
            return Err(Error::InvalidConfiguration);
        }

        let charset = self.charset_for_options(options);
        let charset_len: usize = charset.as_str().unicode_len();

        let mut attempts: u64 = 0;
        while attempts < MAX_ATTEMPTS
            invariant
                any_class_enabled(options),
                charset_len == charset@.len(),
                charset_len >= 1,
                charset@ == spec_charset(options),
                forall|i: int|
                    0 <= i < charset@.len() ==> char_class_enabled(#[trigger] charset@[i], options),
                attempts > 0 ==> !(exactly_one_class_enabled(options) && options.length >= 1),
            decreases MAX_ATTEMPTS - attempts,
        {
            let mut password = String::new();

            for k in 0..options.length
                invariant
                    charset_len == charset@.len(),
                    charset_len >= 1,
                    charset@ == spec_charset(options),
                    forall|i: int|
                        0 <= i < charset@.len() ==> char_class_enabled(
                            #[trigger] charset@[i],
                            options,
                        ),
                    password@.len() == k as int,
                    forall|i: int|
                        0 <= i < password@.len() ==> char_class_enabled(
                            #[trigger] password@[i],
                            options,
                        ),
                    forall|i: int|
                        0 <= i < password@.len() ==> spec_charset(options).contains(
                            #[trigger] password@[i],
                        ),
            {
                let random: usize = random_below(charset_len);
                let random_char: &str = charset.as_str().substring_char(random, random + 1);

                password.append(random_char);
                proof {
                    assert(password@.last() == charset@[random as int]);
                    assert(spec_charset(options).contains(password@.last()));
                }
            }

            if self.validate_password(password.as_str(), &options) {
                proof {
                    lemma_disabled_class_absent(password@, options);
                }
                return Ok(password);
            }

            proof {
                if exactly_one_class_enabled(options) && options.length >= 1 {
                    lemma_single_class_candidate_covers(password@, options);
                }
            }
            attempts += 1;
        }

        Err(Error::AttemptsExhausted)
    }
}

} // verus!
