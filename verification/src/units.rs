//! Quantities shown with SI prefixes.
use vstd::prelude::*;
use vstd::string::*;
use crate::text::{decimal, decimal_digits, join};

verus! {

/// The SI prefixes in steps of one thousand.
#[derive(Clone, Copy, Debug, PartialEq, Eq, Structural)]
pub enum UnitPrefix {
    Base,
    Kilo,
    Mega,
    Giga,
    Tera,
    Peta,
    Exa,
    Impossible,
}

impl UnitPrefix {
    /// The prefix one thousand times larger; past `Exa` there is none.
    pub open spec fn successor(self) -> UnitPrefix {
        match self {
            UnitPrefix::Base => UnitPrefix::Kilo,
            UnitPrefix::Kilo => UnitPrefix::Mega,
            UnitPrefix::Mega => UnitPrefix::Giga,
            UnitPrefix::Giga => UnitPrefix::Tera,
            UnitPrefix::Tera => UnitPrefix::Peta,
            UnitPrefix::Peta => UnitPrefix::Exa,
            UnitPrefix::Exa | UnitPrefix::Impossible => UnitPrefix::Impossible,
        }
    }

    /// The letter that stands for the prefix.
    pub open spec fn letter(self) -> Seq<char> {
        match self {
            UnitPrefix::Base => ""@,
            UnitPrefix::Kilo => "k"@,
            UnitPrefix::Mega => "M"@,
            UnitPrefix::Giga => "G"@,
            UnitPrefix::Tera => "T"@,
            UnitPrefix::Peta => "P"@,
            UnitPrefix::Exa => "E"@,
            UnitPrefix::Impossible => "x"@,
        }
    }

    pub fn next(self) -> (r: UnitPrefix)
        ensures
            r == self.successor(),
    {
        match self {
            UnitPrefix::Base => UnitPrefix::Kilo,
            UnitPrefix::Kilo => UnitPrefix::Mega,
            UnitPrefix::Mega => UnitPrefix::Giga,
            UnitPrefix::Giga => UnitPrefix::Tera,
            UnitPrefix::Tera => UnitPrefix::Peta,
            UnitPrefix::Peta => UnitPrefix::Exa,
            UnitPrefix::Exa | UnitPrefix::Impossible => UnitPrefix::Impossible,
        }
    }

    pub fn symbol(self) -> (r: &'static str)
        ensures
            r@ == self.letter(),
    {
        match self {
            UnitPrefix::Base => "",
            UnitPrefix::Kilo => "k",
            UnitPrefix::Mega => "M",
            UnitPrefix::Giga => "G",
            UnitPrefix::Tera => "T",
            UnitPrefix::Peta => "P",
            UnitPrefix::Exa => "E",
            UnitPrefix::Impossible => "x",
        }
    }
}

/// The number that is shown for `value`: divided by one thousand, rounding
/// down, for as long as it exceeds ten thousand.
pub open spec fn scaled_value(value: nat) -> nat
    decreases value,
{
    if value > 10000 {
        scaled_value(value / 1000)
    } else {
        value
    }
}

/// The prefix that is shown for `value`, counted up from `start` once for
/// each division that `scaled_value` makes.
pub open spec fn scaled_prefix(value: nat, start: UnitPrefix) -> UnitPrefix
    decreases value,
{
    if value > 10000 {
        scaled_prefix(value / 1000, start.successor())
    } else {
        start
    }
}

/// The text of a quantity: the scaled number, a space, the prefix and the
/// unit.
pub open spec fn quantity_text(value: nat, unit: Seq<char>) -> Seq<char> {
    decimal_digits(scaled_value(value)) + " "@ + scaled_prefix(value, UnitPrefix::Base).letter()
        + unit
}

/// A count together with the unit it is measured in.
pub struct Unit {
    value: usize,
    unit: String,
}

impl Unit {
    pub closed spec fn value(&self) -> nat {
        self.value as nat
    }

    pub closed spec fn unit(&self) -> Seq<char> {
        self.unit@
    }

    /// The text of the quantity.
    pub open spec fn text(&self) -> Seq<char> {
        quantity_text(self.value(), self.unit())
    }

    pub fn new(value: usize, unit: &str) -> (r: Unit)
        ensures
            r.value() == value,
            r.unit() == unit@,
    {
        Unit { value, unit: String::from_str(unit) }
    }

    /// The number that is shown, and its prefix.
    pub fn scaled(&self) -> (r: (usize, UnitPrefix))
        ensures
            r.0 == scaled_value(self.value()),
            r.1 == scaled_prefix(self.value(), UnitPrefix::Base),
    {
        let mut value: usize = self.value;
        let mut prefix = UnitPrefix::Base;
        while value > 10000
            invariant
                scaled_value(value as nat) == scaled_value(self.value as nat),
                scaled_prefix(value as nat, prefix) == scaled_prefix(
                    self.value as nat,
                    UnitPrefix::Base,
                ),
            decreases value,
        {
            value = value / 1000;
            prefix = prefix.next();
        }
        (value, prefix)
    }

    pub fn to_string(&self) -> (r: String)
        ensures
            r@ == self.text(),
    {
        let (value, prefix) = self.scaled();
        let number = decimal(value as u64);
        let spaced = join(number.as_str(), " ");
        let prefixed = join(spaced.as_str(), prefix.symbol());
        join(prefixed.as_str(), self.unit.as_str())
    }
}

} // verus!
