use vstd::prelude::*;

use crate::config::Configuration;

verus! {

/// An ASCII letter or digit.
pub open spec fn is_alphanumeric(c: char) -> bool {
    ('a' <= c && c <= 'z') || ('A' <= c && c <= 'Z') || ('0' <= c && c <= '9')
}

/// A text of `len` ASCII letters and digits.
pub open spec fn is_alphanumeric_text(s: Seq<char>, len: nat) -> bool {
    s.len() == len && forall|i: int| 0 <= i < s.len() ==> is_alphanumeric(#[trigger] s[i])
}

/// Relies on rand's `DistString::sample_string` for `Alphanumeric`, drawn from
/// `thread_rng`: `len` characters, each taken from `A-Z`, `a-z` and `0-9`.
#[verifier::external_body]
fn random_alphanumeric(len: usize) -> (r: String)
    ensures
        is_alphanumeric_text(r@, len as nat),
{
    rand::distributions::DistString::sample_string(
        &rand::distributions::Alphanumeric,
        &mut rand::thread_rng(),
        len,
    )
}

/// The alias length a configuration asks for; a negative setting counts as zero.
pub open spec fn configured_length(config: Configuration) -> nat {
    if config.alias_length < 0 {
        0
    } else {
        config.alias_length as nat
    }
}

/// Makes random aliases of a fixed length.
#[derive(Debug, Clone)]
pub struct Generator {
    alias_length: usize,
}

impl Generator {
    /// The length of the aliases this generator makes.
    pub closed spec fn length(&self) -> nat {
        self.alias_length as nat
    }

    pub fn new(config: &Configuration) -> (r: Generator)
        ensures
            r.length() == configured_length(*config),
    {
        let alias_length: usize = if config.alias_length < 0 {
            0
        } else {
            config.alias_length as usize
        };
        Generator { alias_length }
    }

    /// A fresh random alias. Two aliases may coincide: the store decides
    /// whether one is taken.
    pub fn generate_alias(&self) -> (r: String)
        ensures
            is_alphanumeric_text(r@, self.length()),
    {
        random_alphanumeric(self.alias_length)
    }
}

} // verus!
