//! The texts the viewer shows: window title, filename bar, image info,
//! file sizes, timer values and short status messages.

use vstd::prelude::*;
use crate::textfmt::{decimal, decimal_digits, push_digits, push_str};

verus! {

broadcast use vstd::string::group_string_axioms;

/// The last component of a path as `camino::Utf8Path::file_name` finds it
/// (`None` when the path ends in `..` or is a root).
pub uninterp spec fn file_name_of(path: Seq<char>) -> Option<Seq<char>>;

/// The uppercase form of a text as `str::to_uppercase` computes it.
pub uninterp spec fn uppercase(s: Seq<char>) -> Seq<char>;

/// Index of the last `.` in `f`, or `-1` when it holds none.
pub open spec fn last_dot(f: Seq<char>) -> int
    decreases f.len(),
{
    if f.len() == 0 {
        -1
    } else if f.last() == '.' {
        f.len() - 1
    } else {
        last_dot(f.drop_last())
    }
}

/// The extension of a file name: the part after the final `.`, or `None`
/// when the name holds no `.` or only a leading one.
pub open spec fn name_extension(f: Seq<char>) -> Option<Seq<char>> {
    if last_dot(f) <= 0 {
        None
    } else {
        Some(f.subrange(last_dot(f) + 1, f.len() as int))
    }
}

/// `camino::Utf8Path::file_name` of `path`, copied into a `String`.
#[verifier::external_body]
fn path_file_name(path: &str) -> (r: Option<String>)
    ensures
        match r {
            Some(s) => file_name_of(path@) == Some(s@),
            None => file_name_of(path@) is None,
        },
{
    camino::Utf8Path::new(path).file_name().map(|s| s.to_string())
}

/// `camino::Utf8Path::extension` of `path`, copied into a `String`. As the
/// crate documents it: `None` without a file name; otherwise the part of the
/// file name after its final `.`, unless the name holds no `.` or only a
/// leading one.
#[verifier::external_body]
fn path_extension(path: &str) -> (r: Option<String>)
    ensures
        match file_name_of(path@) {
            None => r is None,
            Some(f) => match name_extension(f) {
                None => r is None,
                Some(e) => r matches Some(s) && s@ == e,
            },
        },
{
    camino::Utf8Path::new(path).extension().map(|s| s.to_string())
}

/// `str::to_uppercase`.
#[verifier::external_body]
fn to_uppercase(s: &str) -> (r: String)
    ensures
        r@ == uppercase(s@),
{
    s.to_uppercase()
}

/// The file name of `path`, or `"Unknown"` when it has none.
pub open spec fn shown_name(path: Seq<char>) -> Seq<char> {
    match file_name_of(path) {
        Some(f) => f,
        None => "Unknown"@,
    }
}

/// The file name of `path`, or `"Unknown"` when it has none.
pub fn display_name(path: &str) -> (s: String)
    ensures
        s@ == shown_name(path@),
{
    match path_file_name(path) {
        Some(f) => f,
        None => String::from_str("Unknown"),
    }
}

/// `"<label>: ON"` or `"<label>: OFF"`.
pub open spec fn on_off_text(label: Seq<char>, on: bool) -> Seq<char> {
    label + (if on {
        ": ON"@
    } else {
        ": OFF"@
    })
}

/// `"<label>: ON"` or `"<label>: OFF"`.
pub fn on_off_message(label: &str, on: bool) -> (s: String)
    ensures
        s@ == on_off_text(label@, on),
{
    let mut s = String::new();
    push_str(&mut s, label);
    if on {
        push_str(&mut s, ": ON");
    } else {
        push_str(&mut s, ": OFF");
    }
    assert(s@ =~= on_off_text(label@, on));
    s
}

/// `n / d` to one decimal place (in tenths), with a tie going to the even
/// neighbour.
pub open spec fn tenths_half_even(n: int, d: int) -> int {
    let q = (n * 10) / d;
    let r = (n * 10) % d;
    if 2 * r > d || (2 * r == d && q % 2 == 1) {
        q + 1
    } else {
        q
    }
}

/// A count of tenths written with one decimal place.
pub open spec fn one_decimal(t: nat) -> Seq<char> {
    decimal_digits(t / 10) + seq!['.'] + decimal_digits(t % 10)
}

/// Append a count of tenths with one decimal place.
fn push_tenths(s: &mut String, t: u64)
    ensures
        final(s)@ == old(s)@ + one_decimal(t as nat),
{
    push_digits(s, t / 10);
    crate::textfmt::push_char(s, '.');
    push_digits(s, t % 10);
    assert(final(s)@ =~= old(s)@ + one_decimal(t as nat));
}

/// How a file size is shown: whole bytes below 1 KiB, else KB or MB with one
/// decimal place.
pub open spec fn file_size_spec(bytes: u64) -> Seq<char> {
    if bytes >= 1048576 {
        one_decimal(tenths_half_even(bytes as int, 1048576) as nat) + " MB"@
    } else if bytes >= 1024 {
        one_decimal(tenths_half_even(bytes as int, 1024) as nat) + " KB"@
    } else {
        decimal(bytes as int) + " B"@
    }
}

/// Tenths of `n / d`, ties to even.
fn tenths_of(n: u64, d: u64) -> (t: u64)
    requires
        d == 1024 || d == 1048576,
    ensures
        t == tenths_half_even(n as int, d as int),
{
    let num: u128 = (n as u128) * 10;
    let dd: u128 = d as u128;
    let q: u128 = num / dd;
    let r: u128 = num % dd;
    assert(q <= n as int * 10 / 1000) by (nonlinear_arith)
        requires
            q == num / dd,
            dd >= 1000,
            num == n * 10,
    ;
    let t: u128 = if 2 * r > dd || (2 * r == dd && q % 2 == 1) {
        q + 1
    } else {
        q
    };
    t as u64
}

/// A file size for display: `"512 B"`, `"1.5 KB"`, `"2.0 MB"`.
pub fn file_size_text(bytes: u64) -> (s: String)
    ensures
        s@ == file_size_spec(bytes),
{
    let mut s = String::new();
    if bytes >= 1048576 {
        let t = tenths_of(bytes, 1048576);
        push_tenths(&mut s, t);
        push_str(&mut s, " MB");
    } else if bytes >= 1024 {
        let t = tenths_of(bytes, 1024);
        push_tenths(&mut s, t);
        push_str(&mut s, " KB");
    } else {
        push_digits(&mut s, bytes);
        push_str(&mut s, " B");
    }
    assert(s@ =~= file_size_spec(bytes));
    s
}

/// A duration in milliseconds shown in seconds with one decimal place.
pub open spec fn seconds_spec(ms: i64) -> Seq<char> {
    if ms < 0 {
        seq!['-'] + one_decimal(f32_tenths(-(ms as int) as nat) as nat)
    } else {
        one_decimal(f32_tenths(ms as nat) as nat)
    }
}

/// `n / d` rounded to the nearest integer, ties to the even one.
pub open spec fn div_round_even(n: int, d: int) -> int {
    let q = n / d;
    let r = n % d;
    if 2 * r > d || (2 * r == d && q % 2 == 1) {
        q + 1
    } else {
        q
    }
}

/// `a / 1000` (with `a = ms * p`) doubled, with `p`, until it reaches
/// 2^23: the numerator and the power of two then.
pub open spec fn scale_up(a: nat, p: nat) -> (nat, nat)
    decreases (if a < 8388608000 { 8388608000 - a } else { 0 }),
{
    if 0 < a && a < 8388608000 {
        scale_up(2 * a, 2 * p)
    } else {
        (a, p)
    }
}

/// `n / b` (with `b = 1000 * q`) halved, by doubling `b` and `q`, until it
/// is below 2^24: the denominator and the power of two then.
pub open spec fn scale_down(n: nat, b: nat, q: nat) -> (nat, nat)
    decreases (if n >= 16777216 * b { n - 16777216 * b + 1 } else { 0 }),
{
    if 0 < b && n >= 16777216 * b {
        scale_down(n, 2 * b, 2 * q)
    } else {
        (b, q)
    }
}

/// The tenths that `{:.1}` prints for the `f32` nearest to `ms / 1000`
/// seconds: the value scaled by a power of two into `[2^23, 2^24)` (the 24
/// significant bits of an `f32`), rounded to an integer with ties to even,
/// scaled back, and rounded to tenths with ties to even.
pub open spec fn f32_tenths(ms: nat) -> int {
    if ms == 0 {
        0
    } else {
        let (a, p) = scale_up(ms, 1);
        if p > 1 {
            div_round_even(10 * div_round_even(a as int, 1000), p as int)
        } else {
            let (b, q) = scale_down(ms, 1000, 1);
            10 * div_round_even(ms as int, b as int) * q
        }
    }
}

/// `n / d` rounded, ties to even.
fn div_round_even_u128(n: u128, d: u128) -> (r: u128)
    requires
        0 < d < 0x1000_0000_0000_0000_0000_0000_0000,
        n < 0x1000_0000_0000_0000_0000_0000_0000,
    ensures
        r == div_round_even(n as int, d as int),
        r <= n / d + 1,
{
    let q = n / d;
    assert(q <= n) by (nonlinear_arith)
        requires
            q == n / d,
            d > 0,
    ;
    let r = n % d;
    if 2 * r > d || (2 * r == d && q % 2 == 1) {
        q + 1
    } else {
        q
    }
}

/// The tenths that `{:.1}` prints for the `f32` nearest to `ms / 1000`.
fn f32_tenths_of(ms: u64) -> (t: u64)
    ensures
        t == f32_tenths(ms as nat),
{
    if ms == 0 {
        return 0;
    }
    let mut a: u128 = ms as u128;
    let mut p: u128 = 1;
    while 0 < a && a < 8388608000
        invariant
            0 < a,
            1 <= p <= a,
            p == 1 || a < 16777216000,
            scale_up(a as nat, p as nat) == scale_up(ms as nat, 1),
        decreases (if a < 8388608000 { 8388608000 - a } else { 0 }),
    {
        a = 2 * a;
        p = 2 * p;
    }
    if p > 1 {
        let m = div_round_even_u128(a, 1000);
        assert(m <= 16777217) by (nonlinear_arith)
            requires
                m <= a / 1000 + 1,
                a < 16777216000,
        ;
        let tm: u128 = 10 * m;
        let t = div_round_even_u128(tm, p);
        assert(tm / p <= tm) by (nonlinear_arith)
            requires
                p >= 1,
        ;
        return t as u64;
    }
    let mut b: u128 = 1000;
    let mut q: u128 = 1;
    while 0 < b && (ms as u128) >= 16777216 * b
        invariant
            b == 1000 * q,
            q >= 1,
            q == 1 || 16777216000 * q <= 2 * (ms as int),
            scale_down(ms as nat, b as nat, q as nat) == scale_down(ms as nat, 1000, 1),
        decreases (if ms >= 16777216 * b { ms - 16777216 * b + 1 } else { 0 }),
    {
        b = 2 * b;
        q = 2 * q;
    }
    let m = div_round_even_u128(ms as u128, b);
    assert(m <= 16777216) by (nonlinear_arith)
        requires
            m <= (ms as int) / (b as int) + 1,
            (ms as int) < 16777216 * b,
            b > 0,
    {
        assert((ms as int) / (b as int) < 16777216) by (nonlinear_arith)
            requires
                (ms as int) < 16777216 * b,
                b > 0,
        ;
    }
    assert(10 * m * q <= 0xffff_ffff_ffff_ffff) by (nonlinear_arith)
        requires
            m <= 16777216,
            q == 1 || 16777216000 * q <= 2 * (ms as int),
            ms <= 0xffff_ffff_ffff_ffff,
            q >= 1,
    ;
    (10 * m * q) as u64
}

/// A duration in milliseconds shown in seconds with one decimal place.
pub fn seconds_text(ms: i64) -> (s: String)
    ensures
        s@ == seconds_spec(ms),
{
    let mut s = String::new();
    if ms < 0 {
        crate::textfmt::push_char(&mut s, '-');
        let magnitude: u64 = if ms == i64::MIN {
            9223372036854775808u64
        } else {
            (-ms) as u64
        };
        let t = f32_tenths_of(magnitude);
        push_tenths(&mut s, t);
    } else {
        let t = f32_tenths_of(ms as u64);
        push_tenths(&mut s, t);
    }
    assert(s@ =~= seconds_spec(ms));
    s
}

/// The message shown after the timer changed to `ms`.
pub open spec fn timer_message_spec(ms: u64) -> Seq<char> {
    if ms == 0 {
        "Timer: 0.0s (Paused)"@
    } else {
        "Timer: "@ + seconds_spec(ms as i64) + "s"@
    }
}

/// The message shown after the timer changed to `ms`.
pub fn timer_message(ms: u64) -> (s: String)
    requires
        ms <= i64::MAX,
    ensures
        s@ == timer_message_spec(ms),
{
    if ms == 0 {
        String::from_str("Timer: 0.0s (Paused)")
    } else {
        let mut s = String::new();
        push_str(&mut s, "Timer: ");
        let v = seconds_text(ms as i64);
        push_str(&mut s, v.as_str());
        push_str(&mut s, "s");
        assert(s@ =~= timer_message_spec(ms));
        s
    }
}

/// The window title: the current file name and the program name.
pub open spec fn window_title_spec(current: Option<Seq<char>>) -> Seq<char> {
    match current {
        Some(p) => shown_name(p) + " - sldshow2"@,
        None => "sldshow2"@,
    }
}

/// The window title for the current image path, if any.
pub fn window_title(current: Option<&str>) -> (s: String)
    ensures
        s@ == window_title_spec(
            match current {
                Some(p) => Some(p@),
                None => None,
            },
        ),
{
    match current {
        Some(p) => {
            let mut s = display_name(p);
            push_str(&mut s, " - sldshow2");
            s
        },
        None => String::from_str("sldshow2"),
    }
}

/// The filename bar: a notice when there are no images, else the file name
/// with its position when the bar is shown, else nothing.
pub open spec fn filename_bar_spec(total: usize, show_bar: bool, current: Option<Seq<char>>, index: usize) -> Seq<char> {
    if total == 0 {
        "No images found in path"@
    } else if show_bar {
        match current {
            Some(p) => shown_name(p) + " ["@ + decimal(index + 1) + "/"@ + decimal(total as int)
                + "]"@,
            None => Seq::empty(),
        }
    } else {
        Seq::empty()
    }
}

/// The filename bar text for image `index` (counted from 0) of `total`.
pub fn filename_bar_text(total: usize, show_bar: bool, current: Option<&str>, index: usize) -> (s: String)
    requires
        total == 0 || index < total,
        total <= u64::MAX,
    ensures
        s@ == filename_bar_spec(
            total,
            show_bar,
            match current {
                Some(p) => Some(p@),
                None => None,
            },
            index,
        ),
{
    if total == 0 {
        return String::from_str("No images found in path");
    }
    if !show_bar {
        return String::new();
    }
    match current {
        Some(p) => {
            let mut s = display_name(p);
            push_str(&mut s, " [");
            push_digits(&mut s, (index + 1) as u64);
            push_str(&mut s, "/");
            push_digits(&mut s, total as u64);
            push_str(&mut s, "]");
            s
        },
        None => String::new(),
    }
}

/// The image info text: path, resolution (or a loading notice) with the
/// format in capitals, and the file size (or a notice when it is unknown).
pub open spec fn info_spec(path: Option<Seq<char>>, dims: Option<(u32, u32)>, size: Option<u64>) -> Seq<char> {
    match path {
        None => "No image loaded"@,
        Some(p) => p + "\n"@ + (match dims {
            Some((w, h)) => decimal(w as int) + "x"@ + decimal(h as int),
            None => "Loading..."@,
        }) + " "@ + uppercase(
            match file_name_of(p) {
                Some(f) => match name_extension(f) {
                    Some(e) => e,
                    None => "unknown"@,
                },
                None => "unknown"@,
            },
        ) + "\n"@ + (match size {
            Some(b) => file_size_spec(b),
            None => "Unknown size"@,
        }),
    }
}

/// The image info text for the current path, the loaded image's size in
/// pixels, and the file's size in bytes.
pub fn info_string(path: Option<&str>, dims: Option<(u32, u32)>, file_size: Option<u64>) -> (s: String)
    ensures
        s@ == info_spec(
            match path {
                Some(p) => Some(p@),
                None => None,
            },
            dims,
            file_size,
        ),
{
    let p = match path {
        None => {
            return String::from_str("No image loaded");
        },
        Some(p) => p,
    };
    let mut s = String::new();
    push_str(&mut s, p);
    push_str(&mut s, "\n");
    match dims {
        Some((w, h)) => {
            push_digits(&mut s, w as u64);
            push_str(&mut s, "x");
            push_digits(&mut s, h as u64);
        },
        None => {
            push_str(&mut s, "Loading...");
        },
    }
    push_str(&mut s, " ");
    let ext = match path_extension(p) {
        Some(e) => e,
        None => String::from_str("unknown"),
    };
    let upper = to_uppercase(ext.as_str());
    push_str(&mut s, upper.as_str());
    push_str(&mut s, "\n");
    match file_size {
        Some(b) => {
            let t = file_size_text(b);
            push_str(&mut s, t.as_str());
        },
        None => {
            push_str(&mut s, "Unknown size");
        },
    }
    proof {
        let pv = Some(p@);
        assert(s@ =~= info_spec(pv, dims, file_size));
    }
    s
}

/// The suffix that reports rejected dropped paths, if any.
pub open spec fn rejected_suffix_spec(rejected: usize) -> Seq<char> {
    if rejected > 0 {
        " ("@ + decimal(rejected as int) + " non-UTF-8 path(s) rejected)"@
    } else {
        Seq::empty()
    }
}

/// The suffix that reports rejected dropped paths, if any.
pub fn rejected_suffix(rejected: usize) -> (s: String)
    requires
        rejected <= u64::MAX,
    ensures
        s@ == rejected_suffix_spec(rejected),
{
    if rejected > 0 {
        let mut s = String::new();
        push_str(&mut s, " (");
        push_digits(&mut s, rejected as u64);
        push_str(&mut s, " non-UTF-8 path(s) rejected)");
        assert(s@ =~= rejected_suffix_spec(rejected));
        s
    } else {
        String::new()
    }
}

/// `"<prefix><n><rest>"`.
pub open spec fn counted_spec(prefix: Seq<char>, n: int, rest: Seq<char>) -> Seq<char> {
    prefix + decimal(n) + rest
}

/// `"<prefix><n><rest>"`.
pub fn counted_message(prefix: &str, n: u64, rest: &str) -> (s: String)
    ensures
        s@ == counted_spec(prefix@, n as int, rest@),
{
    let mut s = String::new();
    push_str(&mut s, prefix);
    push_digits(&mut s, n);
    push_str(&mut s, rest);
    assert(s@ =~= counted_spec(prefix@, n as int, rest@));
    s
}

} // verus!
