//! A measurement: a text or a number with its unit, and how it is shown.

use crate::number::{format_number, lay_out, number_layout, number_text, NumberLayout};
use crate::suffix::Suffix;
use crate::text::{decimal, decimal_text, pad, repeated};
use crate::unit::{unit_token, Unit, UnitView};
use vstd::prelude::*;
use vstd::string::*;

verus! {

/// What a measurement holds. A floating-point payload is held as the bit
/// pattern of its IEEE 754 double.
#[derive(Debug, Clone)]
pub enum InternalValue {
    Text(String),
    Integer(i64),
    Float(u64),
}

/// A text or a number, tagged with its unit, ready to be shown.
#[derive(Debug, Clone)]
pub struct Value {
    unit: Unit,
    min_width: usize,
    icon: Option<String>,
    value: InternalValue,
}

/// The display preferences of the place where a value is shown. Each one
/// that is set overrides what the value itself says.
#[derive(Debug, Clone)]
pub struct Variable {
    pub min_width: Option<usize>,
    pub pad_with: Option<char>,
    pub unit: Option<Unit>,
    pub min_suffix: Option<Suffix>,
}

/// The model of a payload.
pub enum PayloadView {
    Text(Seq<char>),
    Integer(int),
    Float(u64),
}

/// The model of a [`Value`].
pub struct ValueView {
    pub unit: UnitView,
    pub min_width: nat,
    pub icon: Option<Seq<char>>,
    pub payload: PayloadView,
}

/// What is done to a number that is shown in another unit than its own.
#[derive(Debug, Clone, Copy, PartialEq, Eq, Structural)]
pub enum Rescale {
    Keep,
    TimesEight,
    DivideByEight,
}

/// What has to be known of a floating-point value to render it.
#[derive(Debug, Clone, Copy)]
pub struct FloatRequest {
    /// The bit pattern of the value as it is stored.
    pub bits: u64,
    /// What to do to the value before it is scaled.
    pub rescale: Rescale,
    /// The width to fill.
    pub min_width: usize,
    /// The lowest scale step to use.
    pub min_suffix: Suffix,
}

impl FloatRequest {
    /// How to lay out the number, whose magnitude after rescaling has the
    /// given decimal exponent.
    pub fn layout(&self, decimal_exponent: i32) -> (layout: NumberLayout)
        ensures
            layout == number_layout(
                decimal_exponent as int,
                self.min_width as nat,
                self.min_suffix,
            ),
    {
        lay_out(decimal_exponent, self.min_width, &self.min_suffix)
    }
}

/// Bytes become bits by eight and bits become bytes by an eighth; between
/// any other two units the number stays as it is.
pub open spec fn rescale_between(own: UnitView, shown: UnitView) -> Rescale {
    if own == UnitView::BytesPerSecond && shown == UnitView::BitsPerSecond {
        Rescale::TimesEight
    } else if own == UnitView::BitsPerSecond && shown == UnitView::BytesPerSecond {
        Rescale::DivideByEight
    } else {
        Rescale::Keep
    }
}

/// An integer after rescaling; the division drops the remainder, towards
/// zero.
pub open spec fn rescaled(v: int, rescale: Rescale) -> int {
    match rescale {
        Rescale::Keep => v,
        Rescale::TimesEight => v * 8,
        Rescale::DivideByEight => if v >= 0 {
            v / 8
        } else {
            -((-v) / 8)
        },
    }
}

/// The width to fill: the preference, or else the value's own.
pub open spec fn shown_width(v: ValueView, var: &Variable) -> nat {
    match var.min_width {
        Some(w) => w as nat,
        None => v.min_width,
    }
}

/// The character to fill with: the preference, or else a space.
pub open spec fn shown_pad(var: &Variable) -> char {
    match var.pad_with {
        Some(c) => c,
        None => ' ',
    }
}

/// The unit to show: the preference, or else the value's own.
pub open spec fn shown_unit(v: ValueView, var: &Variable) -> UnitView {
    match var.unit {
        Some(u) => u@,
        None => v.unit,
    }
}

/// The lowest scale step to use: the preference, or else nano.
pub open spec fn shown_floor(var: &Variable) -> Suffix {
    match var.min_suffix {
        Some(s) => s,
        None => Suffix::Nano,
    }
}

/// How many fill characters bring `len` characters up to `width`.
pub open spec fn fill_count(len: nat, width: nat) -> nat {
    if len < width {
        (width - len) as nat
    } else {
        0
    }
}

/// The value without icon and unit. Text is filled on the right, an integer
/// on the left; `number` stands for a floating-point payload.
pub open spec fn body_text(v: ValueView, var: &Variable, number: Seq<char>) -> Seq<char> {
    match v.payload {
        PayloadView::Text(text) => text + repeated(
            shown_pad(var),
            fill_count(text.len(), shown_width(v, var)),
        ),
        PayloadView::Integer(i) => {
            let digits = decimal_text(rescaled(i, rescale_between(v.unit, shown_unit(v, var))));
            repeated(shown_pad(var), fill_count(digits.len(), shown_width(v, var))) + digits
        },
        PayloadView::Float(_) => number,
    }
}

/// The value as it is shown: icon, body, unit.
pub open spec fn formatted(v: ValueView, var: &Variable, number: Seq<char>) -> Seq<char> {
    (match v.icon {
        Some(icon) => icon,
        None => Seq::<char>::empty(),
    }) + body_text(v, var, number) + unit_token(shown_unit(v, var))
}

impl View for Value {
    type V = ValueView;

    closed spec fn view(&self) -> ValueView {
        ValueView {
            unit: self.unit@,
            min_width: self.min_width as nat,
            icon: match self.icon {
                Some(icon) => Some(icon@),
                None => None,
            },
            payload: match self.value {
                InternalValue::Text(text) => PayloadView::Text(text@),
                InternalValue::Integer(i) => PayloadView::Integer(i as int),
                InternalValue::Float(bits) => PayloadView::Float(bits),
            },
        }
    }
}

impl Value {
    /// A text, with no unit, no icon and no width to fill.
    pub fn from_string(text: String) -> (value: Value)
        ensures
            value@ == (ValueView {
                unit: UnitView::Unitless,
                min_width: 0,
                icon: None,
                payload: PayloadView::Text(text@),
            }),
    {
        Value { icon: None, min_width: 0, unit: Unit::Unitless, value: InternalValue::Text(text) }
    }

    /// An integer, with no unit and no icon, at least two characters wide.
    pub fn from_integer(value: i64) -> (made: Value)
        ensures
            made@ == (ValueView {
                unit: UnitView::Unitless,
                min_width: 2,
                icon: None,
                payload: PayloadView::Integer(value as int),
            }),
    {
        Value {
            icon: None,
            min_width: 2,
            unit: Unit::Unitless,
            value: InternalValue::Integer(value),
        }
    }

    /// A floating-point number, given by the bit pattern of its double, with
    /// no unit and no icon, at least three characters wide.
    pub fn from_float(bits: u64) -> (made: Value)
        ensures
            made@ == (ValueView {
                unit: UnitView::Unitless,
                min_width: 3,
                icon: None,
                payload: PayloadView::Float(bits),
            }),
    {
        Value { icon: None, min_width: 3, unit: Unit::Unitless, value: InternalValue::Float(bits) }
    }

    /// Sets the icon.
    pub fn icon(self, icon: String) -> (made: Value)
        ensures
            made@ == (ValueView { icon: Some(icon@), ..self@ }),
    {
        Value { unit: self.unit, min_width: self.min_width, icon: Some(icon), value: self.value }
    }

    fn with_unit(self, unit: Unit) -> (made: Value)
        ensures
            made@ == (ValueView { unit: unit@, ..self@ }),
    {
        Value { unit, min_width: self.min_width, icon: self.icon, value: self.value }
    }

    /// Tags the value as degrees.
    pub fn degrees(self) -> (made: Value)
        ensures
            made@ == (ValueView { unit: UnitView::Degrees, ..self@ }),
    {
        self.with_unit(Unit::Degrees)
    }

    /// Tags the value as a percentage.
    pub fn percents(self) -> (made: Value)
        ensures
            made@ == (ValueView { unit: UnitView::Percents, ..self@ }),
    {
        self.with_unit(Unit::Percents)
    }

    /// Tags the value as bits per second.
    pub fn bits_per_second(self) -> (made: Value)
        ensures
            made@ == (ValueView { unit: UnitView::BitsPerSecond, ..self@ }),
    {
        self.with_unit(Unit::BitsPerSecond)
    }

    /// Tags the value as bytes per second.
    pub fn bytes_per_second(self) -> (made: Value)
        ensures
            made@ == (ValueView { unit: UnitView::BytesPerSecond, ..self@ }),
    {
        self.with_unit(Unit::BytesPerSecond)
    }

    /// Tags the value as seconds.
    pub fn seconds(self) -> (made: Value)
        ensures
            made@ == (ValueView { unit: UnitView::Seconds, ..self@ }),
    {
        self.with_unit(Unit::Seconds)
    }

    /// Tags the value as watts.
    pub fn watts(self) -> (made: Value)
        ensures
            made@ == (ValueView { unit: UnitView::Watts, ..self@ }),
    {
        self.with_unit(Unit::Watts)
    }

    /// Tags the value as hertz.
    pub fn hertz(self) -> (made: Value)
        ensures
            made@ == (ValueView { unit: UnitView::Hertz, ..self@ }),
    {
        self.with_unit(Unit::Hertz)
    }

    /// Tags the value as bytes.
    pub fn bytes(self) -> (made: Value)
        ensures
            made@ == (ValueView { unit: UnitView::Bytes, ..self@ }),
    {
        self.with_unit(Unit::Bytes)
    }

    /// What is done to the number when it is shown under these preferences.
    pub fn rescale(&self, var: &Variable) -> (rescale: Rescale)
        ensures
            rescale == rescale_between(self@.unit, shown_unit(self@, var)),
    {
        let shown: &Unit = match &var.unit {
            Some(unit) => unit,
            None => &self.unit,
        };
        if self.unit.is_bytes_per_second() && shown.is_bits_per_second() {
            Rescale::TimesEight
        } else if self.unit.is_bits_per_second() && shown.is_bytes_per_second() {
            Rescale::DivideByEight
        } else {
            Rescale::Keep
        }
    }

    /// For a floating-point payload, what its rendering has to go by; for
    /// any other payload, nothing.
    pub fn float_request(&self, var: &Variable) -> (request: Option<FloatRequest>)
        ensures
            request is Some <==> self@.payload is Float,
            request matches Some(r) ==> self@.payload == PayloadView::Float(r.bits) && r.rescale
                == rescale_between(self@.unit, shown_unit(self@, var)) && r.min_width
                == shown_width(self@, var) && r.min_suffix == shown_floor(var),
    {
        match self.value {
            InternalValue::Float(bits) => Some(
                FloatRequest {
                    bits,
                    rescale: self.rescale(var),
                    min_width: match var.min_width {
                        Some(w) => w,
                        None => self.min_width,
                    },
                    min_suffix: match var.min_suffix {
                        Some(s) => s,
                        None => Suffix::Nano,
                    },
                },
            ),
            _ => None,
        }
    }

    /// Shows the value under the given preferences: the icon, then the body
    /// filled up to the width, then the unit. `number` is the rendering of a
    /// floating-point payload, as `format_number` puts it together; it is
    /// read for such a payload only.
    pub fn format(&self, var: &Variable, number: &str) -> (shown: String)
        ensures
            shown@ == formatted(self@, var, number@),
    {
        let min_width: usize = match var.min_width {
            Some(w) => w,
            None => self.min_width,
        };
        let pad_with: char = match var.pad_with {
            Some(c) => c,
            None => ' ',
        };
        let unit: &Unit = match &var.unit {
            Some(unit) => unit,
            None => &self.unit,
        };
        let mut shown: String = match &self.icon {
            Some(icon) => icon.clone(),
            None => String::new(),
        };
        let ghost icon_text = shown@;
        match &self.value {
            InternalValue::Text(text) => {
                let len = text.as_str().unicode_len();
                shown.append(text.as_str());
                if len < min_width {
                    pad(&mut shown, min_width - len, pad_with);
                } else {
                    assert(repeated(pad_with, 0) =~= Seq::<char>::empty());
                }
                assert(shown@ =~= icon_text + body_text(self@, var, number@));
            },
            InternalValue::Integer(value) => {
                let wide: i128 = *value as i128;
                let adjusted: i128 = match self.rescale(var) {
                    Rescale::Keep => wide,
                    Rescale::TimesEight => wide * 8,
                    Rescale::DivideByEight => if wide >= 0 {
                        ((wide as u128) / 8) as i128
                    } else {
                        0 - ((((0 - wide) as u128) / 8) as i128)
                    },
                };
                let digits = decimal(adjusted);
                let len = digits.as_str().unicode_len();
                if len < min_width {
                    pad(&mut shown, min_width - len, pad_with);
                } else {
                    assert(repeated(pad_with, 0) =~= Seq::<char>::empty());
                }
                shown.append(digits.as_str());
                assert(shown@ =~= icon_text + body_text(self@, var, number@));
            },
            InternalValue::Float(_) => {
                shown.append(number);
            },
        }
        let token = unit.to_string();
        shown.append(token.as_str());
        shown
    }

    /// Shows a floating-point value under the given preferences. What only
    /// floating-point arithmetic gives comes from the caller: the decimal
    /// exponent of the number's magnitude after rescaling, and `mantissa`,
    /// the number divided and written as the layout of
    /// [`FloatRequest::layout`] asks. Scale step, point, icon and unit are
    /// put around it here. For any other payload this is [`Value::format`].
    pub fn format_scaled(&self, var: &Variable, decimal_exponent: i32, mantissa: &str) -> (shown:
        String)
        ensures
            shown@ == formatted(
                self@,
                var,
                number_text(
                    mantissa@,
                    number_layout(
                        decimal_exponent as int,
                        shown_width(self@, var),
                        shown_floor(var),
                    ),
                ),
            ),
    {
        let min_width: usize = match var.min_width {
            Some(w) => w,
            None => self.min_width,
        };
        let floor: Suffix = match var.min_suffix {
            Some(s) => s,
            None => Suffix::Nano,
        };
        let layout = lay_out(decimal_exponent, min_width, &floor);
        let number = format_number(mantissa, &layout);
        self.format(var, number.as_str())
    }
}

/// The eighth that bits become bytes by is the integer quotient, cut towards
/// zero: eight times it is the nearest multiple of eight that is no further
/// from zero than the number.
pub proof fn lemma_eighth_truncates(v: int)
    ensures
        v >= 0 ==> 8 * rescaled(v, Rescale::DivideByEight) <= v < 8 * rescaled(
            v,
            Rescale::DivideByEight,
        ) + 8,
        v < 0 ==> 8 * rescaled(v, Rescale::DivideByEight) - 8 < v <= 8 * rescaled(
            v,
            Rescale::DivideByEight,
        ),
{
}

/// An integer of bytes per second that is shown as bits per second is
/// written as exactly eight times itself, and one of bits per second that is
/// shown as bytes per second as its eighth; between any other two units the
/// integer is written as it is.
pub proof fn lemma_bits_and_bytes(v: ValueView, var: &Variable, number: Seq<char>, i: int)
    requires
        v.payload == PayloadView::Integer(i),
    ensures
        ({
            let written = if v.unit == UnitView::BytesPerSecond && shown_unit(v, var)
                == UnitView::BitsPerSecond {
                decimal_text(i * 8)
            } else if v.unit == UnitView::BitsPerSecond && shown_unit(v, var)
                == UnitView::BytesPerSecond {
                decimal_text(rescaled(i, Rescale::DivideByEight))
            } else {
                decimal_text(i)
            };
            body_text(v, var, number) == repeated(
                shown_pad(var),
                fill_count(written.len(), shown_width(v, var)),
            ) + written
        }),
{
}

/// A text or an integer is never cut and always fills the width: its body
/// is as long as the longer of the two.
pub proof fn lemma_body_fills_width(v: ValueView, var: &Variable, number: Seq<char>)
    requires
        !(v.payload is Float),
    ensures
        body_text(v, var, number).len() >= shown_width(v, var),
        v.payload matches PayloadView::Text(text) ==> body_text(v, var, number).len() == (if text.len()
            >= shown_width(v, var) {
            text.len()
        } else {
            shown_width(v, var)
        }) && body_text(v, var, number).subrange(0, text.len() as int) == text,
{
    match v.payload {
        PayloadView::Text(text) => {
            assert(body_text(v, var, number).subrange(0, text.len() as int) =~= text);
        },
        _ => {},
    }
}

} // verus!
