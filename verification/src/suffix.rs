//! SI scale steps and the choice of one for a magnitude.

use crate::text::same_text;
use vstd::prelude::*;
use vstd::string::*;

verus! {

/// A decimal scale step: a power of one thousand.
#[derive(Debug, Clone, Copy, PartialEq, Eq, Structural)]
pub enum Suffix {
    Nano,
    Micro,
    Milli,
    One,
    Kilo,
    Mega,
    Giga,
    Tera,
}

/// A fault in what the configuration says, reported where it is read.
#[derive(Debug)]
pub struct ConfigurationError {
    pub message: String,
    pub cause: String,
}

/// The exponent of the highest scale step.
pub const MAX_EXP_LEVEL: i32 = 4;

/// The exponent of the lowest scale step.
pub const MIN_EXP_LEVEL: i32 = -3;

/// The scale step that a token names, if it names one.
pub open spec fn suffix_of_token(token: Seq<char>) -> Option<Suffix> {
    if token == "n"@ {
        Some(Suffix::Nano)
    } else if token == "u"@ {
        Some(Suffix::Micro)
    } else if token == "m"@ {
        Some(Suffix::Milli)
    } else if token == "1"@ {
        Some(Suffix::One)
    } else if token == "K"@ {
        Some(Suffix::Kilo)
    } else if token == "M"@ {
        Some(Suffix::Mega)
    } else if token == "G"@ {
        Some(Suffix::Giga)
    } else if token == "T"@ {
        Some(Suffix::Tera)
    } else {
        None
    }
}

/// What the error says of a token that names no scale step.
pub open spec fn unknown_suffix_cause(token: Seq<char>) -> Seq<char> {
    "unknown suffix: '"@ + token + "'"@
}

/// The scale step of an exponent; every exponent below that of nano gives
/// nano, every one above that of tera gives tera.
pub open spec fn suffix_of_exp(level: int) -> Suffix {
    if level >= 4 {
        Suffix::Tera
    } else if level == 3 {
        Suffix::Giga
    } else if level == 2 {
        Suffix::Mega
    } else if level == 1 {
        Suffix::Kilo
    } else if level == 0 {
        Suffix::One
    } else if level == -1 {
        Suffix::Milli
    } else if level == -2 {
        Suffix::Micro
    } else {
        Suffix::Nano
    }
}

/// The exponent to scale by: the magnitude's own level, held between the
/// floor's exponent and that of tera.
pub open spec fn chosen_exp(magnitude_level: int, floor: Suffix) -> int {
    if magnitude_level < floor.exp() {
        floor.exp()
    } else if magnitude_level > 4 {
        4
    } else {
        magnitude_level
    }
}

impl Suffix {
    /// The power of one thousand that this step stands for.
    pub open spec fn exp(self) -> int {
        match self {
            Suffix::Nano => -3,
            Suffix::Micro => -2,
            Suffix::Milli => -1,
            Suffix::One => 0,
            Suffix::Kilo => 1,
            Suffix::Mega => 2,
            Suffix::Giga => 3,
            Suffix::Tera => 4,
        }
    }

    /// What is written behind a number scaled by this step.
    pub open spec fn token(self) -> Seq<char> {
        match self {
            Suffix::Nano => "n"@,
            Suffix::Micro => "u"@,
            Suffix::Milli => "m"@,
            Suffix::One => ""@,
            Suffix::Kilo => "K"@,
            Suffix::Mega => "M"@,
            Suffix::Giga => "G"@,
            Suffix::Tera => "T"@,
        }
    }

    /// Reads a scale step from its configuration token. The step one is
    /// configured as `1`; any other token than the eight is an error that
    /// quotes it.
    pub fn from_string(s: &str) -> (parsed: Result<Suffix, ConfigurationError>)
        ensures
            parsed is Ok <==> suffix_of_token(s@) is Some,
            parsed matches Ok(suffix) ==> Some(suffix) == suffix_of_token(s@),
            parsed matches Err(e) ==> e.message@ == "Can not parse suffix"@ && e.cause@
                == unknown_suffix_cause(s@),
    {
        if same_text(s, "n") {
            Ok(Suffix::Nano)
        } else if same_text(s, "u") {
            Ok(Suffix::Micro)
        } else if same_text(s, "m") {
            Ok(Suffix::Milli)
        } else if same_text(s, "1") {
            Ok(Suffix::One)
        } else if same_text(s, "K") {
            Ok(Suffix::Kilo)
        } else if same_text(s, "M") {
            Ok(Suffix::Mega)
        } else if same_text(s, "G") {
            Ok(Suffix::Giga)
        } else if same_text(s, "T") {
            Ok(Suffix::Tera)
        } else {
            let mut cause = "unknown suffix: '".to_owned();
            cause.append(s);
            cause.append("'");
            Err(ConfigurationError { message: "Can not parse suffix".to_owned(), cause })
        }
    }

    /// What is written behind a number scaled by this step: nothing for one.
    pub fn to_string(&self) -> (token: String)
        ensures
            token@ == self.token(),
    {
        match self {
            Suffix::Nano => "n".to_owned(),
            Suffix::Micro => "u".to_owned(),
            Suffix::Milli => "m".to_owned(),
            Suffix::One => "".to_owned(),
            Suffix::Kilo => "K".to_owned(),
            Suffix::Mega => "M".to_owned(),
            Suffix::Giga => "G".to_owned(),
            Suffix::Tera => "T".to_owned(),
        }
    }

    /// The power of one thousand that this step stands for.
    pub fn exp_level(&self) -> (level: i32)
        ensures
            level == self.exp(),
            MIN_EXP_LEVEL <= level <= MAX_EXP_LEVEL,
    {
        match self {
            Suffix::Nano => -3,
            Suffix::Micro => -2,
            Suffix::Milli => -1,
            Suffix::One => 0,
            Suffix::Kilo => 1,
            Suffix::Mega => 2,
            Suffix::Giga => 3,
            Suffix::Tera => 4,
        }
    }

    /// The scale step of an exponent. There is no step below nano: a lower
    /// exponent gives nano.
    pub fn from_exp_level(level: i32) -> (suffix: Suffix)
        ensures
            suffix == suffix_of_exp(level as int),
            MIN_EXP_LEVEL <= level <= MAX_EXP_LEVEL ==> suffix.exp() == level,
    {
        if level >= 4 {
            Suffix::Tera
        } else if level == 3 {
            Suffix::Giga
        } else if level == 2 {
            Suffix::Mega
        } else if level == 1 {
            Suffix::Kilo
        } else if level == 0 {
            Suffix::One
        } else if level == -1 {
            Suffix::Milli
        } else if level == -2 {
            Suffix::Micro
        } else {
            Suffix::Nano
        }
    }
}

/// Chooses the exponent to scale a number by. `magnitude_level` is the
/// number's own level, the floor of a third of the decimal logarithm of its
/// magnitude; the result lies between the floor's exponent and that of tera.
pub fn select_exp_level(magnitude_level: i32, min_suffix: &Suffix) -> (level: i32)
    ensures
        level == chosen_exp(magnitude_level as int, *min_suffix),
        min_suffix.exp() <= level <= MAX_EXP_LEVEL,
        suffix_of_exp(level as int).exp() == level,
{
    let floor = min_suffix.exp_level();
    if magnitude_level < floor {
        floor
    } else if magnitude_level > MAX_EXP_LEVEL {
        MAX_EXP_LEVEL
    } else {
        magnitude_level
    }
}

/// The scale steps are totally ordered by their exponents: two steps with
/// one exponent are one step, and every step's exponent names that step.
pub proof fn lemma_suffix_order(a: Suffix, b: Suffix)
    ensures
        a.exp() == b.exp() <==> a == b,
        a.exp() <= b.exp() || b.exp() <= a.exp(),
        -3 <= a.exp() <= 4,
        suffix_of_exp(a.exp()) == a,
{
}

/// From tera on the step stays tera: a larger magnitude only grows the
/// number before it.
pub proof fn lemma_tera_is_ceiling(magnitude_level: int, floor: Suffix)
    requires
        magnitude_level >= 4,
    ensures
        chosen_exp(magnitude_level, floor) == 4,
        suffix_of_exp(chosen_exp(magnitude_level, floor)) == Suffix::Tera,
{
}

/// Below the floor the step stays the floor's.
pub proof fn lemma_floor_holds(magnitude_level: int, floor: Suffix)
    requires
        magnitude_level <= floor.exp(),
    ensures
        suffix_of_exp(chosen_exp(magnitude_level, floor)) == floor,
{
}

} // verus!
