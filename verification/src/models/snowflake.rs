//! Discord's snowflake identifiers.
use vstd::prelude::*;
use vstd::std_specs::convert::FromSpecImpl;

use crate::text::{parse_u64, spec_decimal, spec_parse_u64, u64_to_string};

verus! {

/// Represents a Twitter snowflake used as IDs in various Discord objects.
#[derive(Debug, Clone, Copy, PartialEq, Eq, Structural, Hash)]
pub struct Snowflake(pub u64);

impl Default for Snowflake {
    fn default() -> (s: Self)
        ensures
            s.0 == 0,
    {
        Snowflake(0)
    }
}

impl From<u64> for Snowflake {
    fn from(u: u64) -> (s: Self) {
        Snowflake(u)
    }
}

impl FromSpecImpl<u64> for Snowflake {
    open spec fn obeys_from_spec() -> bool {
        true
    }

    open spec fn from_spec(v: u64) -> Self {
        Snowflake(v)
    }
}

impl From<Snowflake> for u64 {
    fn from(s: Snowflake) -> (u: u64) {
        s.0
    }
}

impl FromSpecImpl<Snowflake> for u64 {
    open spec fn obeys_from_spec() -> bool {
        true
    }

    open spec fn from_spec(v: Snowflake) -> Self {
        v.0
    }
}

/// The text of a snowflake on the wire: its number in decimal.
pub open spec fn spec_snowflake_text(s: Snowflake) -> Seq<char> {
    spec_decimal(s.0 as nat)
}

impl Snowflake {
    /// The snowflake's number in decimal, as it is displayed and serialized.
    pub fn to_string(&self) -> (s: String)
        ensures
            s@ == spec_snowflake_text(*self),
    {
        u64_to_string(self.0)
    }

    /// Reads a snowflake from its serialized text: the decimal number as `u64` parsing
    /// accepts it; `None` for any other text.
    pub fn parse(value: &str) -> (res: Option<Snowflake>)
        ensures
            res == (match spec_parse_u64(value@) {
                Some(n) => Some(Snowflake(n)),
                None => None::<Snowflake>,
            }),
    {
        match parse_u64(value) {
            Some(n) => Some(Snowflake(n)),
            None => None,
        }
    }
}

/// Serializing a snowflake and reading the text back gives the same snowflake.
pub proof fn lemma_snowflake_text_roundtrip(s: Snowflake)
    ensures
        (match spec_parse_u64(spec_snowflake_text(s)) {
            Some(n) => Some(Snowflake(n)),
            None => None::<Snowflake>,
        }) == Some(s),
{
    crate::text::lemma_parse_decimal_u64(s.0);
}

} // verus!
