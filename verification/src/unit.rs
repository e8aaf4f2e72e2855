//! Physical units and their canonical tokens.

use crate::text::same_text;
use vstd::prelude::*;

verus! {

/// The physical unit that a measurement is tagged with.
#[derive(Debug, Clone)]
pub enum Unit {
    BitsPerSecond,
    BytesPerSecond,
    Percents,
    Degrees,
    Seconds,
    Watts,
    Hertz,
    Bytes,
    Unitless,
    Other(String),
}

/// The mathematical model of a [`Unit`]: free text is held as a sequence of
/// characters.
pub enum UnitView {
    BitsPerSecond,
    BytesPerSecond,
    Percents,
    Degrees,
    Seconds,
    Watts,
    Hertz,
    Bytes,
    Unitless,
    Other(Seq<char>),
}

impl View for Unit {
    type V = UnitView;

    open spec fn view(&self) -> UnitView {
        match self {
            Unit::BitsPerSecond => UnitView::BitsPerSecond,
            Unit::BytesPerSecond => UnitView::BytesPerSecond,
            Unit::Percents => UnitView::Percents,
            Unit::Degrees => UnitView::Degrees,
            Unit::Seconds => UnitView::Seconds,
            Unit::Watts => UnitView::Watts,
            Unit::Hertz => UnitView::Hertz,
            Unit::Bytes => UnitView::Bytes,
            Unit::Unitless => UnitView::Unitless,
            Unit::Other(text) => UnitView::Other(text@),
        }
    }
}

/// The canonical token of a unit; free text stands for itself.
pub open spec fn unit_token(unit: UnitView) -> Seq<char> {
    match unit {
        UnitView::BitsPerSecond => "Bi/s"@,
        UnitView::BytesPerSecond => "B/s"@,
        UnitView::Percents => "%"@,
        UnitView::Degrees => "°"@,
        UnitView::Seconds => "s"@,
        UnitView::Watts => "W"@,
        UnitView::Hertz => "Hz"@,
        UnitView::Bytes => "B"@,
        UnitView::Unitless => ""@,
        UnitView::Other(text) => text,
    }
}

/// The unit that a token names; a token that names none is kept as free text.
pub open spec fn unit_of_token(token: Seq<char>) -> UnitView {
    if token == "Bi/s"@ {
        UnitView::BitsPerSecond
    } else if token == "B/s"@ {
        UnitView::BytesPerSecond
    } else if token == "%"@ {
        UnitView::Percents
    } else if token == "°"@ {
        UnitView::Degrees
    } else if token == "s"@ {
        UnitView::Seconds
    } else if token == "W"@ {
        UnitView::Watts
    } else if token == "Hz"@ {
        UnitView::Hertz
    } else if token == "B"@ {
        UnitView::Bytes
    } else if token == ""@ {
        UnitView::Unitless
    } else {
        UnitView::Other(token)
    }
}

impl Unit {
    /// Reads a unit from its token. Every token is accepted: one that names no
    /// unit comes back verbatim as [`Unit::Other`].
    pub fn from_string(s: &str) -> (unit: Unit)
        ensures
            unit@ == unit_of_token(s@),
    {
        if same_text(s, "Bi/s") {
            Unit::BitsPerSecond
        } else if same_text(s, "B/s") {
            Unit::BytesPerSecond
        } else if same_text(s, "%") {
            Unit::Percents
        } else if same_text(s, "°") {
            Unit::Degrees
        } else if same_text(s, "s") {
            Unit::Seconds
        } else if same_text(s, "W") {
            Unit::Watts
        } else if same_text(s, "Hz") {
            Unit::Hertz
        } else if same_text(s, "B") {
            Unit::Bytes
        } else if same_text(s, "") {
            Unit::Unitless
        } else {
            Unit::Other(s.to_owned())
        }
    }

    /// The token of this unit.
    pub fn to_string(&self) -> (token: String)
        ensures
            token@ == unit_token(self@),
    {
        match self {
            Unit::BitsPerSecond => "Bi/s".to_owned(),
            Unit::BytesPerSecond => "B/s".to_owned(),
            Unit::Percents => "%".to_owned(),
            Unit::Degrees => "°".to_owned(),
            Unit::Seconds => "s".to_owned(),
            Unit::Watts => "W".to_owned(),
            Unit::Hertz => "Hz".to_owned(),
            Unit::Bytes => "B".to_owned(),
            Unit::Unitless => "".to_owned(),
            Unit::Other(text) => text.clone(),
        }
    }

    /// Whether this is the bits-per-second unit.
    pub fn is_bits_per_second(&self) -> (yes: bool)
        ensures
            yes == (self@ == UnitView::BitsPerSecond),
    {
        matches!(self, Unit::BitsPerSecond)
    }

    /// Whether this is the bytes-per-second unit.
    pub fn is_bytes_per_second(&self) -> (yes: bool)
        ensures
            yes == (self@ == UnitView::BytesPerSecond),
    {
        matches!(self, Unit::BytesPerSecond)
    }
}

/// Reveals what the nine canonical tokens hold.
pub proof fn lemma_tokens()
    ensures
        "Bi/s"@ == seq!['B', 'i', '/', 's'],
        "B/s"@ == seq!['B', '/', 's'],
        "%"@ == seq!['%'],
        "°"@ == seq!['°'],
        "s"@ == seq!['s'],
        "W"@ == seq!['W'],
        "Hz"@ == seq!['H', 'z'],
        "B"@ == seq!['B'],
        ""@ == Seq::<char>::empty(),
{
    reveal_strlit("Bi/s");
    reveal_strlit("B/s");
    reveal_strlit("%");
    reveal_strlit("°");
    reveal_strlit("s");
    reveal_strlit("W");
    reveal_strlit("Hz");
    reveal_strlit("B");
    reveal_strlit("");
    assert("Bi/s"@ =~= seq!['B', 'i', '/', 's']);
    assert("B/s"@ =~= seq!['B', '/', 's']);
    assert("%"@ =~= seq!['%']);
    assert("°"@ =~= seq!['°']);
    assert("s"@ =~= seq!['s']);
    assert("W"@ =~= seq!['W']);
    assert("Hz"@ =~= seq!['H', 'z']);
    assert("B"@ =~= seq!['B']);
    assert(""@ =~= Seq::<char>::empty());
}

/// Writing a named unit as its token and reading the token back gives the
/// same unit.
pub proof fn lemma_named_unit_round_trip(unit: UnitView)
    requires
        !(unit is Other),
    ensures
        unit_of_token(unit_token(unit)) == unit,
{
    lemma_tokens();
    // The tokens differ in length or in their first character.
    assert(seq!['B', 'i', '/', 's'].len() == 4);
    assert(seq!['B', '/', 's'].len() == 3);
    assert(seq!['H', 'z'].len() == 2);
    assert(seq!['%'].len() == 1 && seq!['%'][0] == '%');
    assert(seq!['°'].len() == 1 && seq!['°'][0] == '°');
    assert(seq!['s'].len() == 1 && seq!['s'][0] == 's');
    assert(seq!['W'].len() == 1 && seq!['W'][0] == 'W');
    assert(seq!['B'].len() == 1 && seq!['B'][0] == 'B');
}

/// Reading a token and writing the unit back gives the token exactly, also
/// where the token is free text.
pub proof fn lemma_token_preserved(token: Seq<char>)
    ensures
        unit_token(unit_of_token(token)) == token,
{
}

} // verus!
