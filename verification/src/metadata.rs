//! Image metadata from EXIF tags, and the short texts shown for it.
//! Reading the tags from a file is left to the caller.

use vstd::prelude::*;

use crate::textfmt::{decimal_digits, push_char, push_digits, push_str};

verus! {

broadcast use vstd::string::group_string_axioms;

/// Whether `c` has the Unicode `White_Space` property (what
/// `char::is_whitespace` tests).
pub open spec fn is_white_space(c: char) -> bool {
    let u = c as u32;
    (0x09 <= u <= 0x0D) || u == 0x20 || u == 0x85 || u == 0xA0 || u == 0x1680 || (0x2000 <= u
        <= 0x200A) || u == 0x2028 || u == 0x2029 || u == 0x202F || u == 0x205F || u == 0x3000
}

/// Unicode `White_Space` test.
pub fn white_space(c: char) -> (b: bool)
    ensures
        b == is_white_space(c),
{
    let u = c as u32;
    (0x09 <= u && u <= 0x0D) || u == 0x20 || u == 0x85 || u == 0xA0 || u == 0x1680 || (0x2000
        <= u && u <= 0x200A) || u == 0x2028 || u == 0x2029 || u == 0x202F || u == 0x205F || u
        == 0x3000
}

/// The run of non-white-space characters at the start of `s`.
pub open spec fn token_prefix(s: Seq<char>) -> Seq<char>
    decreases s.len(),
{
    if s.len() == 0 || is_white_space(s[0]) {
        Seq::empty()
    } else {
        seq![s[0]] + token_prefix(s.drop_first())
    }
}

/// The first white-space separated word of `s`, if there is one.
pub open spec fn first_token(s: Seq<char>) -> Option<Seq<char>>
    decreases s.len(),
{
    if s.len() == 0 {
        None
    } else if is_white_space(s[0]) {
        first_token(s.drop_first())
    } else {
        Some(token_prefix(s))
    }
}

/// `c` with a colon turned into a dash.
pub open spec fn colon_to_dash(c: char) -> char {
    if c == ':' {
        '-'
    } else {
        c
    }
}

/// `s` with every colon turned into a dash.
pub open spec fn colons_to_dashes(s: Seq<char>) -> Seq<char> {
    s.map_values(|c: char| colon_to_dash(c))
}

/// `"<w>x<h>"`.
pub open spec fn dims_text(w: u32, h: u32) -> Seq<char> {
    decimal_digits(w as nat) + seq!['x'] + decimal_digits(h as nat)
}

/// The parts of a summary joined with `" • "`.
pub open spec fn join_bullet(parts: Seq<Seq<char>>) -> Seq<char> {
    if parts.len() == 0 {
        Seq::empty()
    } else if parts.len() == 1 {
        parts[0]
    } else {
        parts[0] + seq![' ', '\u{2022}', ' '] + parts[1]
    }
}

/// The unsigned-integer EXIF tags the viewer reads.
#[derive(Debug, Clone, Copy, PartialEq, Eq, Structural)]
pub enum ExifNumberTag {
    PixelXDimension,
    PixelYDimension,
    Orientation,
}

/// The text EXIF tags the viewer reads.
#[derive(Debug, Clone, Copy, PartialEq, Eq, Structural)]
pub enum ExifTextTag {
    Make,
    Model,
    DateTime,
}

/// What the `kamadak-exif` reader finds for `tag` of the primary image in a
/// file's bytes: the tag's first value as an unsigned integer.
pub uninterp spec fn exif_number_of(data: Seq<u8>, tag: ExifNumberTag) -> Option<u32>;

/// What the `kamadak-exif` reader finds for `tag` of the primary image in a
/// file's bytes: the field's displayed value.
pub uninterp spec fn exif_text_of(data: Seq<u8>, tag: ExifTextTag) -> Option<Seq<char>>;

/// Reads the EXIF container in `data` with `exif::Reader::read_from_container`,
/// takes the field `tag` of the primary image (`Exif::get_field`) and its
/// first value as an unsigned integer (`Value::get_uint(0)`); `None` when
/// the container, the field or such a value is missing. The result is named,
/// not stated: it is whatever that reader finds in these bytes.
#[verifier::external_body]
pub(crate) fn exif_number_field(data: &[u8], tag: ExifNumberTag) -> (r: Option<u32>)
    ensures
        r == exif_number_of(data@, tag),
{
    let tag = match tag {
        ExifNumberTag::PixelXDimension => exif::Tag::PixelXDimension,
        ExifNumberTag::PixelYDimension => exif::Tag::PixelYDimension,
        ExifNumberTag::Orientation => exif::Tag::Orientation,
    };
    let exif = exif::Reader::new().read_from_container(&mut std::io::Cursor::new(data)).ok()?;
    exif.get_field(tag, exif::In::PRIMARY)?.value.get_uint(0)
}

/// Reads the EXIF container in `data` with `exif::Reader::read_from_container`
/// and takes the field `tag` of the primary image (`Exif::get_field`) as its
/// displayed text (`Field::display_value`); `None` when the container or the
/// field is missing. The text is named, not stated: it is whatever that
/// reader finds and displays for these bytes.
#[verifier::external_body]
fn exif_text_field(data: &[u8], tag: ExifTextTag) -> (r: Option<String>)
    ensures
        text_view(r) == exif_text_of(data@, tag),
{
    let tag = match tag {
        ExifTextTag::Make => exif::Tag::Make,
        ExifTextTag::Model => exif::Tag::Model,
        ExifTextTag::DateTime => exif::Tag::DateTime,
    };
    let exif = exif::Reader::new().read_from_container(&mut std::io::Cursor::new(data)).ok()?;
    Some(exif.get_field(tag, exif::In::PRIMARY)?.display_value().to_string())
}

/// The text of an optional string.
pub open spec fn text_view(o: Option<String>) -> Option<Seq<char>> {
    match o {
        Some(s) => Some(s@),
        None => None,
    }
}

/// EXIF tag values read from a file (primary image).
pub struct ExifTags {
    pub pixel_x_dimension: Option<u32>,
    pub pixel_y_dimension: Option<u32>,
    pub make: Option<String>,
    pub model: Option<String>,
    pub date_time: Option<String>,
    pub orientation: Option<u32>,
}

/// Image metadata.
pub struct ImageMetadata {
    pub width: Option<u32>,
    pub height: Option<u32>,
    pub camera_make: Option<String>,
    pub camera_model: Option<String>,
    pub datetime: Option<String>,
    pub orientation: Option<u32>,
}

impl ImageMetadata {
    /// The dimensions text, when both dimensions are known.
    pub open spec fn dims_spec(&self) -> Option<Seq<char>> {
        match (self.width, self.height) {
            (Some(w), Some(h)) => Some(dims_text(w, h)),
            _ => None,
        }
    }

    /// The date part of the date/time: its first word with colons as dashes.
    pub open spec fn date_spec(&self) -> Option<Seq<char>> {
        match self.datetime {
            Some(d) => match first_token(d@) {
                Some(t) => Some(colons_to_dashes(t)),
                None => None,
            },
            None => None,
        }
    }

    /// The summary: dimensions and date, whichever are known, joined.
    pub open spec fn summary_spec(&self) -> Seq<char> {
        let a: Seq<Seq<char>> = match self.dims_spec() {
            Some(d) => seq![d],
            None => Seq::empty(),
        };
        let b: Seq<Seq<char>> = match self.date_spec() {
            Some(d) => seq![d],
            None => Seq::empty(),
        };
        join_bullet(a + b)
    }

    /// Metadata with nothing known.
    pub fn empty() -> (m: ImageMetadata)
        ensures
            m.width is None && m.height is None && m.camera_make is None && m.camera_model is None
                && m.datetime is None && m.orientation is None,
    {
        ImageMetadata {
            width: None,
            height: None,
            camera_make: None,
            camera_model: None,
            datetime: None,
            orientation: None,
        }
    }

    /// Metadata from EXIF tags: pixel dimensions, camera make and model,
    /// date/time and orientation, each as found.
    pub fn from_exif(tags: ExifTags) -> (m: ImageMetadata)
        ensures
            m.width == tags.pixel_x_dimension,
            m.height == tags.pixel_y_dimension,
            m.camera_make == tags.make,
            m.camera_model == tags.model,
            m.datetime == tags.date_time,
            m.orientation == tags.orientation,
    {
        ImageMetadata {
            width: tags.pixel_x_dimension,
            height: tags.pixel_y_dimension,
            camera_make: tags.make,
            camera_model: tags.model,
            datetime: tags.date_time,
            orientation: tags.orientation,
        }
    }

    /// Metadata from the EXIF data in an image file's bytes: each field as
    /// the EXIF reader finds its tag; nothing known when the bytes hold no
    /// readable EXIF.
    pub fn from_bytes(data: &[u8]) -> (m: ImageMetadata)
        ensures
            m.width == exif_number_of(data@, ExifNumberTag::PixelXDimension),
            m.height == exif_number_of(data@, ExifNumberTag::PixelYDimension),
            text_view(m.camera_make) == exif_text_of(data@, ExifTextTag::Make),
            text_view(m.camera_model) == exif_text_of(data@, ExifTextTag::Model),
            text_view(m.datetime) == exif_text_of(data@, ExifTextTag::DateTime),
            m.orientation == exif_number_of(data@, ExifNumberTag::Orientation),
    {
        let tags = ExifTags {
            pixel_x_dimension: exif_number_field(data, ExifNumberTag::PixelXDimension),
            pixel_y_dimension: exif_number_field(data, ExifNumberTag::PixelYDimension),
            make: exif_text_field(data, ExifTextTag::Make),
            model: exif_text_field(data, ExifTextTag::Model),
            date_time: exif_text_field(data, ExifTextTag::DateTime),
            orientation: exif_number_field(data, ExifNumberTag::Orientation),
        };
        Self::from_exif(tags)
    }

    /// `"<width>x<height>"` when both are known.
    pub fn dimensions_string(&self) -> (s: Option<String>)
        ensures
            s is None <==> self.dims_spec() is None,
            s matches Some(t) ==> Some(t@) == self.dims_spec(),
    {
        match (self.width, self.height) {
            (Some(w), Some(h)) => {
                let mut s = String::new();
                push_digits(&mut s, w as u64);
                push_char(&mut s, 'x');
                push_digits(&mut s, h as u64);
                assert(s@ =~= dims_text(w, h));
                Some(s)
            },
            _ => None,
        }
    }

    /// The date part of the date/time, if there is one.
    pub fn date_part(&self) -> (s: Option<String>)
        ensures
            s is None <==> self.date_spec() is None,
            s matches Some(t) ==> Some(t@) == self.date_spec(),
    {
        match &self.datetime {
            Some(d) => first_word_dashed(d.as_str()),
            None => None,
        }
    }

    /// A short summary: dimensions and date (`YYYY-MM-DD`), whichever are
    /// known, separated by `" • "`; empty when neither is.
    pub fn summary(&self) -> (s: String)
        ensures
            s@ == self.summary_spec(),
    {
        let dims = self.dimensions_string();
        let date = self.date_part();
        let mut out = String::new();
        let ghost a: Seq<Seq<char>> = match self.dims_spec() {
            Some(d) => seq![d],
            None => Seq::empty(),
        };
        let ghost b: Seq<Seq<char>> = match self.date_spec() {
            Some(d) => seq![d],
            None => Seq::empty(),
        };
        match (dims, date) {
            (Some(d), Some(t)) => {
                push_str(&mut out, d.as_str());
                push_str(&mut out, " \u{2022} ");
                push_str(&mut out, t.as_str());
                proof {
                    reveal_strlit(" \u{2022} ");
                    assert(a + b =~= seq![d@, t@]);
                }
            },
            (Some(d), None) => {
                push_str(&mut out, d.as_str());
                assert(a + b =~= seq![d@]);
            },
            (None, Some(t)) => {
                push_str(&mut out, t.as_str());
                assert(a + b =~= seq![t@]);
            },
            (None, None) => {
                assert(a + b =~= Seq::<Seq<char>>::empty());
            },
        }
        assert(out@ =~= join_bullet(a + b));
        out
    }
}

/// The first word of `s` with its colons turned into dashes.
pub fn first_word_dashed(s: &str) -> (r: Option<String>)
    ensures
        r is None <==> first_token(s@) is None,
        r matches Some(t) ==> first_token(s@) == Some(token_prefix(token_source(s@))) && t@
            == colons_to_dashes(token_prefix(token_source(s@))),
{
    let n = s.unicode_len();
    let mut i: usize = 0;
    assert(s@.subrange(0, n as int) =~= s@);
    while i < n && white_space(s.get_char(i))
        invariant
            n == s@.len(),
            i <= n,
            first_token(s@) == first_token(s@.subrange(i as int, n as int)),
            token_source(s@) == token_source(s@.subrange(i as int, n as int)),
        decreases n - i,
    {
        proof {
            let sub = s@.subrange(i as int, n as int);
            assert(sub.drop_first() =~= s@.subrange(i + 1, n as int));
        }
        i = i + 1;
    }
    if i == n {
        proof {
            assert(s@.subrange(i as int, n as int) =~= Seq::<char>::empty());
        }
        return None;
    }
    proof {
        assert(s@.subrange(i as int, n as int)[0] == s@[i as int]);
    }
    let mut out = String::new();
    let mut j: usize = i;
    while j < n && !white_space(s.get_char(j))
        invariant
            n == s@.len(),
            i <= j <= n,
            token_prefix(s@.subrange(i as int, n as int)) == s@.subrange(i as int, j as int)
                + token_prefix(s@.subrange(j as int, n as int)),
            out@ == colons_to_dashes(s@.subrange(i as int, j as int)),
        decreases n - j,
    {
        let c = s.get_char(j);
        let d = if c == ':' {
            '-'
        } else {
            c
        };
        push_char(&mut out, d);
        proof {
            let sub = s@.subrange(j as int, n as int);
            assert(sub.drop_first() =~= s@.subrange(j + 1, n as int));
            assert(s@.subrange(i as int, j + 1) =~= s@.subrange(i as int, j as int).push(c));
            assert(s@.subrange(i as int, j as int) + token_prefix(sub) =~= s@.subrange(i as int, j + 1) + token_prefix(s@.subrange(j + 1, n as int)));
            assert(out@ =~= colons_to_dashes(s@.subrange(i as int, j + 1)));
        }
        j = j + 1;
    }
    proof {
        assert(token_prefix(s@.subrange(j as int, n as int)) =~= Seq::<char>::empty());
        assert(token_prefix(s@.subrange(i as int, n as int)) =~= s@.subrange(i as int, j as int));
    }
    Some(out)
}

/// The suffix of `s` that starts at its first non-white-space character.
pub open spec fn token_source(s: Seq<char>) -> Seq<char>
    decreases s.len(),
{
    if s.len() == 0 {
        s
    } else if is_white_space(s[0]) {
        token_source(s.drop_first())
    } else {
        s
    }
}

} // verus!
