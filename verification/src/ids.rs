//! Identifier minting: fresh volume ids and random name suffixes.
//!
//! Randomness comes from outside; everything said about the results holds
//! of every outcome.
use vstd::prelude::*;

verus! {

use crate::strings::push_char;
use vstd::string::StringExecFns;

/// Relies on rand::random: a value drawn from the standard uniform
/// distribution. Nothing can be promised of the result.
pub assume_specification<T>[ rand::random::<T> ]() -> (r: T)
    where
        rand::distr::StandardUniform: rand::distr::Distribution<T>,
;

/// Relies on uuid::Uuid::new_v4 and its display form: a fresh random
/// identifier rendered in the 36-character hyphenated form. The value is
/// random, so only its length is stated.
#[verifier::external_body]
pub fn mint_uuid() -> (r: String)
    ensures
        r@.len() == 36,
{
    uuid::Uuid::new_v4().to_string()
}

/// A fresh volume id: the driver prefix followed by a random identifier.
pub fn mint_volume_id() -> (r: String)
    ensures
        r@.len() == 44,
        r@.subrange(0, 8) == "kubedal-"@,
{
    let raw = mint_uuid();
    let mut out = String::from_str("kubedal-");
    proof {
        reveal_strlit("kubedal-");
    }
    out.append(raw.as_str());
    proof {
        assert(out@.subrange(0, 8) =~= "kubedal-"@);
    }
    out
}

/// A lower-case alphanumeric character.
pub open spec fn is_lower_alnum(c: char) -> bool {
    ('a' <= c && c <= 'z') || ('0' <= c && c <= '9')
}

/// Maps an arbitrary byte onto the lower-case alphanumeric alphabet.
pub fn byte_to_lower_alnum(b: u8) -> (c: char)
    ensures
        is_lower_alnum(c),
{
    let i = b % 36;
    if i < 26 {
        (97 + i) as char
    } else {
        (48 + (i - 26)) as char
    }
}

/// An eight-character random suffix of lower-case alphanumerics, as used
/// in provisioned claim and pod names.
pub fn random_suffix() -> (r: String)
    ensures
        r@.len() == 8,
        forall|i: int| 0 <= i < 8 ==> is_lower_alnum(#[trigger] r@[i]),
{
    let mut out = String::new();
    let mut i: usize = 0;
    while i < 8
        invariant
            i <= 8,
            out@.len() == i,
            forall|j: int| 0 <= j < i ==> is_lower_alnum(#[trigger] out@[j]),
        decreases 8 - i,
    {
        let b: u8 = rand::random();
        let c = byte_to_lower_alnum(b);
        push_char(&mut out, c);
        i = i + 1;
    }
    out
}

} // verus!
