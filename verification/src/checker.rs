//! Password strength classification.
//!
//! A password is rated from its length, a blocklist of common passwords,
//! and the number of distinct ASCII character classes that appear in it.

use vstd::prelude::*;

verus! {

/// Three-level strength verdict, ordered `Weak < Medium < Strong`.
#[derive(Debug, PartialEq, Eq, Structural)]
pub enum Strength {
    Weak,
    Medium,
    Strong,
}

/// `c` is an ASCII lowercase letter.
pub open spec fn is_small_letter(c: char) -> bool {
    'a' <= c && c <= 'z'
}

/// `c` is an ASCII uppercase letter.
pub open spec fn is_capital_letter(c: char) -> bool {
    'A' <= c && c <= 'Z'
}

/// `c` is an ASCII digit.
pub open spec fn is_number(c: char) -> bool {
    '0' <= c && c <= '9'
}

/// `c` is a special character: anything that is neither a lowercase letter,
/// an uppercase letter, nor a digit.  The class is the complement of the
/// other three, so every character belongs to exactly one class.
pub open spec fn is_special_char(c: char) -> bool {
    !is_small_letter(c) && !is_capital_letter(c) && !is_number(c)
}

/// Some character of `s` is a lowercase letter.
pub open spec fn has_small_letter(s: Seq<char>) -> bool {
    exists|i: int| 0 <= i < s.len() && is_small_letter(s[i])
}

/// Some character of `s` is an uppercase letter.
pub open spec fn has_capital_letter(s: Seq<char>) -> bool {
    exists|i: int| 0 <= i < s.len() && is_capital_letter(s[i])
}

/// Some character of `s` is a digit.
pub open spec fn has_number(s: Seq<char>) -> bool {
    exists|i: int| 0 <= i < s.len() && is_number(s[i])
}

/// Some character of `s` is a special character.
pub open spec fn has_special_char(s: Seq<char>) -> bool {
    exists|i: int| 0 <= i < s.len() && is_special_char(s[i])
}

/// `s` is one of the blocklisted common passwords (exact, case-sensitive
/// match of the whole string, not substring containment).
pub open spec fn is_common_password(s: Seq<char>) -> bool {
    s == "qwerty"@ || s == "password"@ || s == "secret"@
}

/// How many of the four character classes appear in `s`.
pub open spec fn class_count(s: Seq<char>) -> int {
    (if has_small_letter(s) { 1int } else { 0int })
        + (if has_capital_letter(s) { 1int } else { 0int })
        + (if has_number(s) { 1int } else { 0int })
        + (if has_special_char(s) { 1int } else { 0int })
}

/// The verdict for `s`: shortness and the blocklist are absolute
/// disqualifiers; otherwise the verdict grows with class diversity.
pub open spec fn strength_of(s: Seq<char>) -> Strength {
    if s.len() < 8 {
        Strength::Weak
    } else if is_common_password(s) {
        Strength::Weak
    } else if class_count(s) < 2 {
        Strength::Weak
    } else if class_count(s) < 4 {
        Strength::Medium
    } else {
        Strength::Strong
    }
}

/// Character-by-character string comparison.
fn str_eq(a: &str, b: &str) -> (r: bool)
    ensures
        r == (a@ == b@),
{
    let a_len: usize = a.unicode_len();
    let b_len: usize = b.unicode_len();
    if a_len != b_len {
        return false;
    }
    for i in 0..a_len
        invariant
            a_len == a@.len(),
            a_len == b@.len(),
            forall|j: int| 0 <= j < i ==> a@[j] == b@[j],
    {
        if a.get_char(i) != b.get_char(i) {
            return false;
        }
    }
    proof {
        assert(a@ =~= b@);
    }
    true
}

pub struct Checker {}

impl Checker {
    pub fn new() -> Self {
        Self {}
    }

    /// Rate `password`.  Total: every string, the empty one included, gets
    /// a verdict.
    pub fn check(&self, password: &str) -> (r: Strength)
        ensures
            r == strength_of(password@),
    {
        if self.too_short(password) || self.is_common_word(password) {
            return Strength::Weak;
        }

        let mut char_types: u8 = 0;

        if self.has_small_letters(password) {
            char_types += 1;
        }
        if self.has_capital_letters(password) {
            char_types += 1;
        }
        if self.has_numbers(password) {
            char_types += 1;
        }
        if self.has_special_chars(password) {
            char_types += 1;
        }

        if char_types < 2 {
            return Strength::Weak;
        }

        if char_types < 4 {
            return Strength::Medium;
        }

        Strength::Strong
    }

    fn too_short(&self, password: &str) -> (r: bool)
        ensures
            r == (password@.len() < 8),
    {
        password.unicode_len() < 8
    }

    fn is_common_word(&self, password: &str) -> (r: bool)
        ensures
            r == is_common_password(password@),
    {
        str_eq(password, "qwerty") || str_eq(password, "password") || str_eq(password, "secret")
    }

    pub fn has_small_letters(&self, password: &str) -> (r: bool)
        ensures
            r == has_small_letter(password@),
    {
        let len: usize = password.unicode_len();
        for i in 0..len
            invariant
                len == password@.len(),
                forall|j: int| 0 <= j < i ==> !is_small_letter(#[trigger] password@[j]),
        {
            let c: char = password.get_char(i);
            if 'a' <= c && c <= 'z' {
                return true;
            }
        }
        false
    }

    pub fn has_capital_letters(&self, password: &str) -> (r: bool)
        ensures
            r == has_capital_letter(password@),
    {
        let len: usize = password.unicode_len();
        for i in 0..len
            invariant
                len == password@.len(),
                forall|j: int| 0 <= j < i ==> !is_capital_letter(#[trigger] password@[j]),
        {
            let c: char = password.get_char(i);
            if 'A' <= c && c <= 'Z' {
                return true;
            }
        }
        false
    }

    pub fn has_numbers(&self, password: &str) -> (r: bool)
        ensures
            r == has_number(password@),
    {
        let len: usize = password.unicode_len();
        for i in 0..len
            invariant
                len == password@.len(),
                forall|j: int| 0 <= j < i ==> !is_number(#[trigger] password@[j]),
        {
            let c: char = password.get_char(i);
            if '0' <= c && c <= '9' {
                return true;
            }
        }
        false
    }

    pub fn has_special_chars(&self, password: &str) -> (r: bool)
        ensures
            r == has_special_char(password@),
    {
        let len: usize = password.unicode_len();
        for i in 0..len
            invariant
                len == password@.len(),
                forall|j: int| 0 <= j < i ==> !is_special_char(#[trigger] password@[j]),
        {
            let c: char = password.get_char(i);
            if !('a' <= c && c <= 'z') && !('A' <= c && c <= 'Z') && !('0' <= c && c <= '9') {
                return true;
            }
        }
        false
    }
}

/// Law: any password shorter than eight characters is rated weak.
pub proof fn lemma_short_password_is_weak(s: Seq<char>)
    requires
        s.len() < 8,
    ensures
        strength_of(s) == Strength::Weak,
{
}

/// Law: a blocklisted password is rated weak whatever its length or
/// composition.
pub proof fn lemma_common_password_is_weak(s: Seq<char>)
    requires
        is_common_password(s),
    ensures
        strength_of(s) == Strength::Weak,
{
}

/// Law: a password of at least eight characters drawn from exactly one
/// character class is rated weak.
pub proof fn lemma_single_class_is_weak(s: Seq<char>)
    requires
        s.len() >= 8,
        class_count(s) == 1,
    ensures
        strength_of(s) == Strength::Weak,
{
}

/// Every blocklist entry is either shorter than eight characters or uses a
/// single character class, so the blocklist never demotes a password that
/// the diversity rules would rate `Medium` or `Strong`.
proof fn lemma_common_password_profile(s: Seq<char>)
    requires
        is_common_password(s),
    ensures
        s.len() < 8 || class_count(s) == 1,
{
    reveal_strlit("qwerty");
    reveal_strlit("password");
    reveal_strlit("secret");
    if s == "password"@ {
        assert(forall|i: int| 0 <= i < s.len() ==> is_small_letter(#[trigger] s[i]));
        assert(is_small_letter(s[0]));
        assert(class_count(s) == 1);
    }
}

/// Law: a password of at least eight characters using exactly two or three
/// character classes is rated medium.
pub proof fn lemma_two_or_three_classes_is_medium(s: Seq<char>)
    requires
        s.len() >= 8,
        2 <= class_count(s) < 4,
    ensures
        strength_of(s) == Strength::Medium,
{
    if is_common_password(s) {
        lemma_common_password_profile(s);
    }
}

/// Law: a password of at least eight characters using all four character
/// classes is rated strong.
pub proof fn lemma_four_classes_is_strong(s: Seq<char>)
    requires
        s.len() >= 8,
        class_count(s) == 4,
    ensures
        strength_of(s) == Strength::Strong,
{
    if is_common_password(s) {
        lemma_common_password_profile(s);
    }
}

/// Law: classification is deterministic.  Together with `Checker::check`'s
/// contract, two calls on the same password always return the same verdict.
pub proof fn lemma_classification_deterministic(s1: Seq<char>, s2: Seq<char>)
    requires
        s1 == s2,
    ensures
        strength_of(s1) == strength_of(s2),
{
}

} // verus!
