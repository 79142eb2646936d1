//! The parts of a backup configuration that the scheduling rules read.

use vstd::prelude::*;

verus! {

/// A time of day, as chrono keeps it; carried through unchanged.
#[verifier::external_type_specification]
#[verifier::external_body]
pub struct ExNaiveTime(chrono::NaiveTime);

/// The identifier of a backup configuration.
#[derive(Debug, Hash, PartialEq, Eq, PartialOrd, Ord)]
pub struct ConfigId(String);

impl View for ConfigId {
    type V = Seq<char>;

    closed spec fn view(&self) -> Seq<char> {
        self.0@
    }
}

impl ConfigId {
    pub fn new(id: String) -> (r: Self)
        ensures
            r@ == id@,
    {
        Self(id)
    }

    pub fn as_str(&self) -> (s: &str)
        ensures
            s@ == self@,
    {
        self.0.as_str()
    }

    /// Whether both identifiers are the same text.
    pub fn same_as(&self, other: &ConfigId) -> (b: bool)
        ensures
            b == (self@ == other@),
    {
        self.0 == other.0
    }
}

impl Clone for ConfigId {
    fn clone(&self) -> (r: Self)
        ensures
            r == *self,
    {
        Self(self.0.clone())
    }
}

/// A day of the week.
#[derive(Clone, Copy, Debug, PartialEq, Eq)]
pub enum Weekday {
    Mon,
    Tue,
    Wed,
    Thu,
    Fri,
    Sat,
    Sun,
}

impl Weekday {
    pub open spec fn spec_number_from_sunday(self) -> int {
        match self {
            Weekday::Sun => 1,
            Weekday::Mon => 2,
            Weekday::Tue => 3,
            Weekday::Wed => 4,
            Weekday::Thu => 5,
            Weekday::Fri => 6,
            Weekday::Sat => 7,
        }
    }

    /// The weekday's number, counted from Sunday (1) to Saturday (7).
    pub fn number_from_sunday(self) -> (n: u32)
        ensures
            n == self.spec_number_from_sunday(),
    {
        match self {
            Weekday::Sun => 1,
            Weekday::Mon => 2,
            Weekday::Tue => 3,
            Weekday::Wed => 4,
            Weekday::Thu => 5,
            Weekday::Fri => 6,
            Weekday::Sat => 7,
        }
    }
}

/// How often scheduled backups run.
#[derive(Clone, Copy, Debug)]
pub enum Frequency {
    Hourly,
    Daily { preferred_time: chrono::NaiveTime },
    Weekly { preferred_weekday: Weekday },
    Monthly { preferred_day: u8 },
}

} // verus!
