//! Colour adjustment parameters (brightness, contrast, gamma, saturation),
//! each from -100 to 100 with 0 neutral, changed one unit per key press.

use vstd::prelude::*;

use crate::input::KeyCode;
use crate::textfmt::{decimal, push_decimal, push_str};

verus! {

broadcast use vstd::string::group_string_axioms;

/// Colour adjustment parameters.
#[derive(Debug, Clone, Copy, PartialEq, Eq, Structural)]
pub struct ColorAdjustments {
    pub brightness: i32,
    pub contrast: i32,
    pub gamma: i32,
    pub saturation: i32,
}

/// Result of a colour key press: the parameter's display name and new value.
pub struct ColorKeyResult {
    pub name: &'static str,
    pub value: i32,
}

/// Which parameter a key changes (0 contrast, 1 brightness, 2 gamma,
/// 3 saturation) and by how much; `None` for other keys.
pub open spec fn color_key(key: KeyCode) -> Option<(int, int)> {
    match key {
        KeyCode::Digit1 => Some((0, -1)),
        KeyCode::Digit2 => Some((0, 1)),
        KeyCode::Digit3 => Some((1, -1)),
        KeyCode::Digit4 => Some((1, 1)),
        KeyCode::Digit5 => Some((2, -1)),
        KeyCode::Digit6 => Some((2, 1)),
        KeyCode::Digit7 => Some((3, -1)),
        KeyCode::Digit8 => Some((3, 1)),
        _ => None,
    }
}

/// `v` limited to `-100..=100`.
pub open spec fn clamp100(v: int) -> int {
    if v < -100 {
        -100
    } else if v > 100 {
        100
    } else {
        v
    }
}

/// The display name of parameter `p`.
pub open spec fn param_name(p: int) -> Seq<char> {
    if p == 0 {
        "Contrast"@
    } else if p == 1 {
        "Brightness"@
    } else if p == 2 {
        "Gamma"@
    } else {
        "Saturation"@
    }
}

/// The info text line of one parameter: empty when it is neutral.
pub open spec fn info_line(name: Seq<char>, v: int) -> Seq<char> {
    if v != 0 {
        seq!['\n'] + name + seq![':', ' '] + decimal(v)
    } else {
        Seq::empty()
    }
}

impl ColorAdjustments {
    /// Value of parameter `p` (0 contrast, 1 brightness, 2 gamma, 3 saturation).
    pub open spec fn param(self, p: int) -> int {
        if p == 0 {
            self.contrast as int
        } else if p == 1 {
            self.brightness as int
        } else if p == 2 {
            self.gamma as int
        } else {
            self.saturation as int
        }
    }

    /// The adjustments with parameter `p` set to `v`.
    pub open spec fn with_param(self, p: int, v: i32) -> ColorAdjustments {
        if p == 0 {
            ColorAdjustments { contrast: v, ..self }
        } else if p == 1 {
            ColorAdjustments { brightness: v, ..self }
        } else if p == 2 {
            ColorAdjustments { gamma: v, ..self }
        } else {
            ColorAdjustments { saturation: v, ..self }
        }
    }

    /// Every parameter lies within `-100..=100`.
    pub open spec fn in_range(self) -> bool {
        &&& -100 <= self.brightness <= 100
        &&& -100 <= self.contrast <= 100
        &&& -100 <= self.gamma <= 100
        &&& -100 <= self.saturation <= 100
    }

    /// The info text: one line per non-neutral parameter, in the order
    /// contrast, brightness, gamma, saturation.
    pub open spec fn info(self) -> Seq<char> {
        info_line("Contrast"@, self.contrast as int) + info_line("Brightness"@, self.brightness as int)
            + info_line("Gamma"@, self.gamma as int) + info_line("Saturation"@, self.saturation as int)
    }

    /// All parameters neutral.
    pub fn neutral() -> (c: ColorAdjustments)
        ensures
            c.brightness == 0 && c.contrast == 0 && c.gamma == 0 && c.saturation == 0,
    {
        ColorAdjustments { brightness: 0, contrast: 0, gamma: 0, saturation: 0 }
    }

    /// Handle a digit key: keys 1..8 lower/raise contrast, brightness, gamma
    /// and saturation by one, limited to -100..=100. Returns the parameter's
    /// name and new value, or `None` for other keys (nothing changes then).
    pub fn handle_key(&mut self, key: KeyCode) -> (r: Option<ColorKeyResult>)
        requires
            color_key(key) matches Some((p, d)) ==> i32::MIN < old(self).param(p) < i32::MAX,
        ensures
            color_key(key) is None ==> r is None && *final(self) == *old(self),
            color_key(key) matches Some((p, d)) ==> {
                let v = clamp100(old(self).param(p) + d);
                &&& *final(self) == old(self).with_param(p, v as i32)
                &&& r matches Some(res) && res.value == v && res.name@ == param_name(p)
            },
            old(self).in_range() ==> final(self).in_range(),
    {
        let (p, delta): (u8, i32) = match key {
            KeyCode::Digit1 => (0, -1),
            KeyCode::Digit2 => (0, 1),
            KeyCode::Digit3 => (1, -1),
            KeyCode::Digit4 => (1, 1),
            KeyCode::Digit5 => (2, -1),
            KeyCode::Digit6 => (2, 1),
            KeyCode::Digit7 => (3, -1),
            KeyCode::Digit8 => (3, 1),
            _ => return None,
        };
        let current = if p == 0 {
            self.contrast
        } else if p == 1 {
            self.brightness
        } else if p == 2 {
            self.gamma
        } else {
            self.saturation
        };
        let raw = current + delta;
        let value = if raw < -100 {
            -100
        } else if raw > 100 {
            100
        } else {
            raw
        };
        let name: &'static str = if p == 0 {
            self.contrast = value;
            "Contrast"
        } else if p == 1 {
            self.brightness = value;
            "Brightness"
        } else if p == 2 {
            self.gamma = value;
            "Gamma"
        } else {
            self.saturation = value;
            "Saturation"
        };
        Some(ColorKeyResult { name, value })
    }

    /// Append a line for each non-neutral parameter to `info`.
    pub fn append_info(&self, info: &mut String)
        ensures
            final(info)@ == old(info)@ + self.info(),
    {
        let ghost start = info@;
        push_info_line(info, "Contrast", self.contrast);
        push_info_line(info, "Brightness", self.brightness);
        push_info_line(info, "Gamma", self.gamma);
        push_info_line(info, "Saturation", self.saturation);
        assert(info@ =~= start + self.info());
    }
}

impl Default for ColorAdjustments {
    /// All parameters neutral.
    fn default() -> (c: ColorAdjustments)
        ensures
            c.brightness == 0 && c.contrast == 0 && c.gamma == 0 && c.saturation == 0,
    {
        ColorAdjustments::neutral()
    }
}

/// Append `"\n<label>: <value>"` unless the value is neutral.
fn push_info_line(info: &mut String, label: &str, v: i32)
    ensures
        final(info)@ == old(info)@ + info_line(label@, v as int),
{
    if v != 0 {
        crate::textfmt::push_char(info, '\n');
        push_str(info, label);
        crate::textfmt::push_char(info, ':');
        crate::textfmt::push_char(info, ' ');
        push_decimal(info, v as i64);
        assert(info@ =~= old(info)@ + info_line(label@, v as int));
    } else {
        assert(info@ =~= old(info)@ + info_line(label@, v as int));
    }
}

/// Each parameter has one lowering and one raising key: 1/2 contrast,
/// 3/4 brightness, 5/6 gamma, 7/8 saturation. The raising key adds one (at
/// most 100), the lowering key takes one off (at least -100), both report
/// the same parameter, and a value strictly inside the range is restored by
/// pressing one key of the pair after the other.
pub proof fn lemma_color_key_pairs(c: ColorAdjustments, lower: KeyCode, raise: KeyCode, name: Seq<char>)
    requires
        c.in_range(),
        (lower, raise, name) == (KeyCode::Digit1, KeyCode::Digit2, "Contrast"@)
            || (lower, raise, name) == (KeyCode::Digit3, KeyCode::Digit4, "Brightness"@)
            || (lower, raise, name) == (KeyCode::Digit5, KeyCode::Digit6, "Gamma"@)
            || (lower, raise, name) == (KeyCode::Digit7, KeyCode::Digit8, "Saturation"@),
    ensures
        color_key(lower) matches Some((p, d)) && color_key(raise) matches Some((p2, d2)) && {
            let v = c.param(p);
            &&& p == p2
            &&& param_name(p) == name
            &&& clamp100(v + d2) == (if v < 100 { v + 1 } else { 100 })
            &&& clamp100(v + d) == (if v > -100 { v - 1 } else { -100 })
            &&& -100 < v < 100 ==> clamp100(clamp100(v + d2) + d) == v
            &&& -100 < v < 100 ==> clamp100(clamp100(v + d) + d2) == v
        },
{
}

/// Only the eight digit keys 1..8 adjust colours.
pub proof fn lemma_color_keys_are_digits(key: KeyCode)
    ensures
        color_key(key) is Some <==> (key == KeyCode::Digit1 || key == KeyCode::Digit2 || key
            == KeyCode::Digit3 || key == KeyCode::Digit4 || key == KeyCode::Digit5 || key
            == KeyCode::Digit6 || key == KeyCode::Digit7 || key == KeyCode::Digit8),
{
}

} // verus!
