//! Color parsing from "R,G,B,A" or "R,G,B" text.
use vstd::prelude::*;

pub use crate::types::Color;
use crate::text::{decimal, decimal_text, parse_u32, split, split_on, trim, trimmed, u32_of, views};

verus! {

/// Error type for color parsing failures.
#[derive(Clone, Debug, PartialEq, Eq)]
pub enum ColorError {
    /// Invalid format or parsing error.
    InvalidFormat(String),
    /// Value out of range (0-255).
    OutOfRange(String),
}

impl ColorError {
    /// The human-readable message: the kind's prefix, then the detail.
    pub fn to_string(&self) -> (r: String)
        ensures
            r@ == match self {
                ColorError::InvalidFormat(m) => "Invalid color format: "@ + m@,
                ColorError::OutOfRange(m) => "Color value out of range: "@ + m@,
            },
    {
        let (prefix, detail) = match self {
            ColorError::InvalidFormat(m) => ("Invalid color format: ", m),
            ColorError::OutOfRange(m) => ("Color value out of range: ", m),
        };
        let mut r = prefix.to_owned();
        r.append(detail.as_str());
        r
    }
}

/// One channel: the number in the trimmed text, 255 for anything larger;
/// otherwise the message of the format error.
pub open spec fn channel_of(part: Seq<char>) -> Result<u8, Seq<char>> {
    let t = trimmed(part);
    match u32_of(t) {
        Some(v) => Ok(
            if v > 255 {
                255u8
            } else {
                v as u8
            },
        ),
        None => Err("not a number: "@ + t),
    }
}

/// The comma-separated components of `t`, each trimmed.
pub open spec fn components(t: Seq<char>) -> Seq<Seq<char>> {
    trim_each(split_on(t, ','))
}

/// Every piece trimmed.
pub open spec fn trim_each(pieces: Seq<Seq<char>>) -> Seq<Seq<char>> {
    pieces.map_values(|p: Seq<char>| trimmed(p))
}

/// The color written in `s`, or the message of its format error: three or
/// four comma-separated channels (alpha defaults to 255), surrounding
/// whitespace ignored. The first bad channel, in order, decides the error.
pub open spec fn color_of(s: Seq<char>) -> Result<Color, Seq<char>> {
    let t = trimmed(s);
    let parts = components(t);
    if t.len() == 0 {
        Err("empty string"@)
    } else if parts.len() < 3 || parts.len() > 4 {
        Err("expected 3 or 4 components, got "@ + decimal(parts.len()))
    } else {
        match (channel_of(parts[0]), channel_of(parts[1]), channel_of(parts[2])) {
            (Err(m), _, _) => Err(m),
            (Ok(_), Err(m), _) => Err(m),
            (Ok(_), Ok(_), Err(m)) => Err(m),
            (Ok(r), Ok(g), Ok(b)) => if parts.len() == 4 {
                match channel_of(parts[3]) {
                    Ok(a) => Ok(Color { r, g, b, a }),
                    Err(m) => Err(m),
                }
            } else {
                Ok(Color { r, g, b, a: 255 })
            },
        }
    }
}

/// Whether `r` is the format error with message `m`.
pub open spec fn is_format_error<T>(r: Result<T, ColorError>, m: Seq<char>) -> bool {
    match r {
        Err(ColorError::InvalidFormat(msg)) => msg@ == m,
        _ => false,
    }
}

/// Parses a color string in "R,G,B,A" or "R,G,B" format.
pub fn parse_color(s: &str) -> (r: Result<Color, ColorError>)
    ensures
        match color_of(s@) {
            Ok(c) => r == Ok::<Color, ColorError>(c),
            Err(m) => is_format_error(r, m),
        },
{
    let t = trim(s);
    if t.unicode_len() == 0 {
        return Err(ColorError::InvalidFormat("empty string".to_owned()));
    }
    let raw = split(t, ',');
    let mut parts: Vec<&str> = Vec::new();
    let mut i: usize = 0;
    while i < raw.len()
        invariant
            views(raw@) == split_on(t@, ','),
            0 <= i <= raw@.len(),
            views(parts@) == trim_each(views(raw@).subrange(0, i as int)),
        decreases raw@.len() - i,
    {
        let part = trim(raw[i]);
        let ghost before = parts@;
        parts.push(part);
        proof {
            let pieces = views(raw@);
            assert(pieces[i as int] == raw@[i as int]@);
            assert(views(parts@) =~= views(before).push(part@));
            assert(trim_each(pieces.subrange(0, i + 1)) =~= trim_each(
                pieces.subrange(0, i as int),
            ).push(trimmed(pieces[i as int])));
        }
        i = i + 1;
    }
    proof {
        assert(views(raw@).subrange(0, raw@.len() as int) =~= views(raw@));
        assert(views(parts@) =~= components(t@));
    }
    let n = parts.len();
    if n < 3 || n > 4 {
        let mut message = "expected 3 or 4 components, got ".to_owned();
        let count = decimal_text(n as u64);
        message.append(count.as_str());
        return Err(ColorError::InvalidFormat(message));
    }
    proof {
        assert(parts@[0]@ == components(t@)[0]);
        assert(parts@[1]@ == components(t@)[1]);
        assert(parts@[2]@ == components(t@)[2]);
        if n == 4 {
            assert(parts@[3]@ == components(t@)[3]);
        }
    }
    let r = match parse_u8_clamped(parts[0]) {
        Ok(Some(v)) => v,
        Ok(None) => return Err(ColorError::OutOfRange(labelled("red: ", parts[0]))),
        Err(e) => return Err(e),
    };
    let g = match parse_u8_clamped(parts[1]) {
        Ok(Some(v)) => v,
        Ok(None) => return Err(ColorError::OutOfRange(labelled("green: ", parts[1]))),
        Err(e) => return Err(e),
    };
    let b = match parse_u8_clamped(parts[2]) {
        Ok(Some(v)) => v,
        Ok(None) => return Err(ColorError::OutOfRange(labelled("blue: ", parts[2]))),
        Err(e) => return Err(e),
    };
    let a = if n == 4 {
        match parse_u8_clamped(parts[3]) {
            Ok(Some(v)) => v,
            Ok(None) => return Err(ColorError::OutOfRange(labelled("alpha: ", parts[3]))),
            Err(e) => return Err(e),
        }
    } else {
        255
    };
    Ok(Color { r, g, b, a })
}

/// `label` followed by `text`.
fn labelled(label: &str, text: &str) -> (r: String)
    ensures
        r@ == label@ + text@,
{
    let mut r = label.to_owned();
    r.append(text);
    r
}

/// Parses a color string, falling back to `default` on any error.
pub fn parse_color_or_default(s: &str, default: Color) -> (c: Color)
    ensures
        c == match color_of(s@) {
            Ok(parsed) => parsed,
            Err(_) => default,
        },
{
    match parse_color(s) {
        Ok(c) => c,
        Err(_) => default,
    }
}

/// Parses one channel: a `u32`, clamped to 255; a format error otherwise.
pub fn parse_u8_clamped(s: &str) -> (r: Result<Option<u8>, ColorError>)
    ensures
        match channel_of(s@) {
            Ok(v) => r == Ok::<Option<u8>, ColorError>(Some(v)),
            Err(m) => is_format_error(r, m),
        },
{
    let trimmed_text = trim(s);
    match parse_u32(trimmed_text) {
        Some(val) => {
            if val > 255 {
                Ok(Some(255))
            } else {
                Ok(Some(val as u8))
            }
        },
        None => Err(ColorError::InvalidFormat(labelled("not a number: ", trimmed_text))),
    }
}

} // verus!
