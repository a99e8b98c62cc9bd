use std::collections::HashMap;
use vstd::prelude::*;

use crate::text::{concat2, owned};

verus! {

broadcast use {vstd::std_specs::hash::group_hash_axioms, vstd::string::group_string_axioms};

/// Operational state of a satellite.
#[derive(Clone, Copy, Debug, PartialEq, Eq, Structural)]
pub enum SatelliteStatus {
    Active,
    Inactive,
    Maintenance,
}

/// A satellite of the tracking network. `id` holds the 128 bits of its UUID.
#[derive(Debug)]
pub struct Satellite {
    pub id: u128,
    pub name: String,
    pub status: SatelliteStatus,
}

/// The mathematical value of a satellite.
pub struct SatelliteView {
    pub id: u128,
    pub name: Seq<char>,
    pub status: SatelliteStatus,
}

impl View for Satellite {
    type V = SatelliteView;

    open spec fn view(&self) -> SatelliteView {
        SatelliteView { id: self.id, name: self.name@, status: self.status }
    }
}

impl Clone for Satellite {
    fn clone(&self) -> (r: Self)
        ensures
            r == *self,
    {
        Satellite { id: self.id, name: self.name.clone(), status: self.status }
    }
}

/// The lower-case hexadecimal digit for `d` (0 to 15).
pub open spec fn hex_char(d: nat) -> char {
    if d < 10 {
        ((48 + d) as u8) as char
    } else {
        ((87 + d) as u8) as char
    }
}

/// The 32 lower-case hexadecimal digits of `id`, most significant first.
pub open spec fn hex_digits(id: u128) -> Seq<char> {
    Seq::new(
        32,
        |i: int| hex_char(((id as nat) / vstd::arithmetic::power2::pow2((4 * (31 - i)) as nat)) % 16),
    )
}

/// The text form of a UUID as uuid's `Display` writes it: its hexadecimal digits, lower
/// case, in groups of 8, 4, 4, 4 and 12 joined by hyphens.
pub open spec fn uuid_text(id: u128) -> Seq<char> {
    let h = hex_digits(id);
    h.subrange(0, 8) + seq!['-'] + h.subrange(8, 12) + seq!['-'] + h.subrange(12, 16) + seq!['-']
        + h.subrange(16, 20) + seq!['-'] + h.subrange(20, 32)
}

/// uuid's `Uuid::new_v4`, taken as the 128-bit value it holds. The value is random:
/// nothing is promised of it.
#[verifier::external_body]
fn fresh_uuid() -> u128 {
    uuid::Uuid::new_v4().as_u128()
}

/// uuid's `Display` of `Uuid::from_u128(id)`: the hyphenated lower-case form, `uuid_text`.
#[verifier::external_body]
pub(crate) fn uuid_to_string(id: u128) -> (r: String)
    ensures
        r@ == uuid_text(id),
{
    uuid::Uuid::from_u128(id).to_string()
}

impl Satellite {
    /// A new satellite with a fresh random id; a new satellite starts out inactive.
    pub fn new(name: String) -> (s: Satellite)
        ensures
            s.name@ == name@,
            s.status == SatelliteStatus::Inactive,
    {
        Satellite { id: fresh_uuid(), name, status: SatelliteStatus::Inactive }
    }

    /// Whether the satellite takes part in position calculations.
    pub fn is_active(&self) -> (r: bool)
        ensures
            r == (self.status == SatelliteStatus::Active),
    {
        self.status == SatelliteStatus::Active
    }
}

} // verus!
