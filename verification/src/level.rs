use crate::text::same_text;
use core::cmp::Ordering;
use vstd::prelude::*;
use vstd::std_specs::cmp::PartialOrdSpec;

verus! {

/// The four alert severities, from the calmest to the most severe.
#[derive(Clone, Copy, Debug, PartialEq, Eq, Structural)]
pub enum AlertLevel {
    Green,
    Yellow,
    Amber,
    Red,
}

impl AlertLevel {
    /// The position of a level in the order `Green < Yellow < Amber < Red`.
    pub open spec fn rank_spec(self) -> u8 {
        match self {
            AlertLevel::Green => 0u8,
            AlertLevel::Yellow => 1u8,
            AlertLevel::Amber => 2u8,
            AlertLevel::Red => 3u8,
        }
    }

    /// The position of a level in the order `Green < Yellow < Amber < Red`.
    #[verifier::when_used_as_spec(rank_spec)]
    pub fn rank(self) -> (r: u8)
        ensures
            r == self.rank_spec(),
    {
        match self {
            AlertLevel::Green => 0,
            AlertLevel::Yellow => 1,
            AlertLevel::Amber => 2,
            AlertLevel::Red => 3,
        }
    }

    /// Whether this level is as severe as `other`, or more.
    pub fn at_least(self, other: AlertLevel) -> (b: bool)
        ensures
            b == (self.rank() >= other.rank()),
    {
        self.rank() >= other.rank()
    }

    /// The name of a level as the feeds and the store write it.
    pub open spec fn name_spec(self) -> Seq<char> {
        match self {
            AlertLevel::Green => "green"@,
            AlertLevel::Yellow => "yellow"@,
            AlertLevel::Amber => "amber"@,
            AlertLevel::Red => "red"@,
        }
    }

    /// The name of a level as the feeds and the store write it.
    pub fn name(self) -> (name: &'static str)
        ensures
            name@ == self.name_spec(),
    {
        match self {
            AlertLevel::Green => "green",
            AlertLevel::Yellow => "yellow",
            AlertLevel::Amber => "amber",
            AlertLevel::Red => "red",
        }
    }

    /// The level that a feed means by `name`: one of the four lower-case
    /// names, and `None` for any other text.
    pub open spec fn named(name: Seq<char>) -> Option<AlertLevel> {
        if name == "green"@ {
            Some(AlertLevel::Green)
        } else if name == "yellow"@ {
            Some(AlertLevel::Yellow)
        } else if name == "amber"@ {
            Some(AlertLevel::Amber)
        } else if name == "red"@ {
            Some(AlertLevel::Red)
        } else {
            None
        }
    }

    /// The level that a feed means by `name`: one of the four lower-case
    /// names, and `None` for any other text.
    pub fn from_name(name: &str) -> (level: Option<AlertLevel>)
        ensures
            level == AlertLevel::named(name@),
            level matches Some(l) ==> name@ == l.name_spec(),
    {
        if same_text(name, "green") {
            Some(AlertLevel::Green)
        } else if same_text(name, "yellow") {
            Some(AlertLevel::Yellow)
        } else if same_text(name, "amber") {
            Some(AlertLevel::Amber)
        } else if same_text(name, "red") {
            Some(AlertLevel::Red)
        } else {
            None
        }
    }

    /// The level as it is shown to a reader, with a capital.
    pub open spec fn display_spec(self) -> Seq<char> {
        match self {
            AlertLevel::Green => "Green"@,
            AlertLevel::Yellow => "Yellow"@,
            AlertLevel::Amber => "Amber"@,
            AlertLevel::Red => "Red"@,
        }
    }

    /// The level as it is shown to a reader, with a capital.
    pub fn to_string(&self) -> (shown: String)
        ensures
            shown@ == self.display_spec(),
    {
        match self {
            AlertLevel::Green => "Green".to_owned(),
            AlertLevel::Yellow => "Yellow".to_owned(),
            AlertLevel::Amber => "Amber".to_owned(),
            AlertLevel::Red => "Red".to_owned(),
        }
    }

    /// The levels are totally ordered by rank, `Green < Yellow < Amber < Red`:
    /// two levels of one rank are the same level, and of two different
    /// levels exactly one is below the other.
    pub proof fn order_is_total(a: AlertLevel, b: AlertLevel, c: AlertLevel)
        ensures
            AlertLevel::Green.rank() < AlertLevel::Yellow.rank(),
            AlertLevel::Yellow.rank() < AlertLevel::Amber.rank(),
            AlertLevel::Amber.rank() < AlertLevel::Red.rank(),
            a.rank() == b.rank() <==> a == b,
            a.rank() < b.rank() || a == b || b.rank() < a.rank(),
            a.rank() <= b.rank() && b.rank() <= c.rank() ==> a.rank() <= c.rank(),
            PartialOrdSpec::partial_cmp_spec(&a, &b) == Some(Ordering::Less) <==> a.rank() < b.rank(),
            PartialOrdSpec::partial_cmp_spec(&a, &b) == Some(Ordering::Equal) <==> a == b,
            PartialOrdSpec::partial_cmp_spec(&a, &b) == Some(Ordering::Greater) <==> a.rank() > b.rank(),
    {
    }
}

impl PartialOrd for AlertLevel {
    fn partial_cmp(&self, other: &AlertLevel) -> (r: Option<Ordering>) {
        let left = self.rank();
        let right = other.rank();
        if left < right {
            Some(Ordering::Less)
        } else if left == right {
            Some(Ordering::Equal)
        } else {
            Some(Ordering::Greater)
        }
    }
}

impl vstd::std_specs::cmp::PartialOrdSpecImpl for AlertLevel {
    open spec fn obeys_partial_cmp_spec() -> bool {
        true
    }

    open spec fn partial_cmp_spec(&self, other: &AlertLevel) -> Option<Ordering> {
        if self.rank() < other.rank() {
            Some(Ordering::Less)
        } else if self.rank() == other.rank() {
            Some(Ordering::Equal)
        } else {
            Some(Ordering::Greater)
        }
    }
}

} // verus!
