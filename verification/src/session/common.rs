//! The identity under which a session subscribes.

use uuid::Uuid;
use vstd::arithmetic::power::pow;
use vstd::prelude::*;

use crate::session::define::SubscribeType;

verus! {

#[verifier::external_type_specification]
#[verifier::external_body]
pub struct ExUuid(Uuid);

/// The 128 bits of an identifier, read as one number.
pub uninterp spec fn uuid_value(id: Uuid) -> u128;

/// `Uuid::as_u128` returns the identifier's 128 bits as one number.
pub assume_specification[ Uuid::as_u128 ](id: &Uuid) -> (value: u128)
    ensures
        value == uuid_value(*id),
;

/// The character that stands for a hexadecimal digit, in lower case.
pub open spec fn hex_char(digit: nat) -> char {
    if digit == 0 {
        '0'
    } else if digit == 1 {
        '1'
    } else if digit == 2 {
        '2'
    } else if digit == 3 {
        '3'
    } else if digit == 4 {
        '4'
    } else if digit == 5 {
        '5'
    } else if digit == 6 {
        '6'
    } else if digit == 7 {
        '7'
    } else if digit == 8 {
        '8'
    } else if digit == 9 {
        '9'
    } else if digit == 10 {
        'a'
    } else if digit == 11 {
        'b'
    } else if digit == 12 {
        'c'
    } else if digit == 13 {
        'd'
    } else if digit == 14 {
        'e'
    } else {
        'f'
    }
}

/// The hexadecimal digit of a 128-bit number at `place`, where place 0 is the
/// most significant of the 32 digits.
pub open spec fn hex_digit(value: u128, place: nat) -> nat {
    ((value as int / pow(16, (31 - place) as nat)) % 16) as nat
}

/// `count` hexadecimal digits of a 128-bit number, from `place` on.
pub open spec fn hex_run(value: u128, place: nat, count: nat) -> Seq<char> {
    Seq::new(count, |i: int| hex_char(hex_digit(value, place + i as nat)))
}

/// An identifier in words: its 32 hexadecimal digits in lower case, in
/// groups of 8, 4, 4, 4 and 12 with hyphens between them.
pub open spec fn uuid_text(value: u128) -> Seq<char> {
    hex_run(value, 0, 8) + seq!['-'] + hex_run(value, 8, 4) + seq!['-'] + hex_run(value, 12, 4)
        + seq!['-'] + hex_run(value, 16, 4) + seq!['-'] + hex_run(value, 20, 12)
}

/// Writes an identifier out with `Uuid`'s `Display`, through `to_string`.
///
/// Trusted: `Display` writes the hyphenated form in lower case.
#[verifier::external_body]
pub(crate) fn uuid_to_string(id: &Uuid) -> (text: String)
    ensures
        text@ == uuid_text(uuid_value(*id)),
{
    id.to_string()
}

#[derive(Clone, Copy, Debug)]
pub struct SubscriberInfo {
    pub id: Uuid,
    pub sub_type: SubscribeType,
}

impl SubscriberInfo {
    /// The number under which the subscriber is registered.
    pub open spec fn spec_key(&self) -> u128 {
        uuid_value(self.id)
    }

    #[verifier::when_used_as_spec(spec_key)]
    pub fn key(&self) -> (key: u128)
        ensures
            key == self.spec_key(),
    {
        self.id.as_u128()
    }

    /// The subscriber's identifier in words.
    pub fn id_text(&self) -> (text: String)
        ensures
            text@ == uuid_text(self.key()),
    {
        uuid_to_string(&self.id)
    }
}

} // verus!
