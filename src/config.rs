//! Turning the settings read from a configuration file into a validated
//! configuration: defaults for what is missing, key entries, colors, and the
//! bar speed check.
//!
//! Lengths are in thousandths of a pixel; a length outside `0..=u32::MAX` is
//! clamped into it.
use vstd::prelude::*;

use crate::color::{color_of, parse_color};
use crate::text::{decimal, decimal_text, trim, trimmed};
use crate::types::{
    default_keys, is_default_keys, AppConfig, AppError, Color, KeyConfig, DEFAULT_BAR_SPEED,
    DEFAULT_FPS, DEFAULT_HEIGHT, DEFAULT_KEY_SIZE, DEFAULT_MARGIN, DEFAULT_OUTLINE_THICKNESS, MILLI,
};

verus! {

/// The `[general]` settings as read, each possibly missing.
#[derive(Clone, Debug, Default)]
pub struct RawGeneral {
    pub height: Option<i64>,
    pub key_size: Option<i64>,
    pub bar_speed: Option<i64>,
    pub background_color: Option<String>,
    pub margin: Option<i64>,
    pub outline_thickness: Option<i64>,
    pub fading: Option<bool>,
    pub counter: Option<bool>,
    pub fps: Option<u32>,
}

/// One `[[key]]` entry as read, each setting possibly missing.
#[derive(Clone, Debug, Default)]
pub struct RawKeyConfig {
    pub name: Option<String>,
    pub color: Option<String>,
    /// Width multiplier, in thousandths.
    pub size: Option<u32>,
}

/// The whole configuration file as read.
#[derive(Clone, Debug, Default)]
pub struct RawConfig {
    pub general: RawGeneral,
    pub key: Vec<RawKeyConfig>,
}

/// Clamps a length into `0..=u32::MAX`.
pub open spec fn clamp_length(x: i64) -> u32 {
    if x < 0 {
        0
    } else if x > u32::MAX {
        u32::MAX
    } else {
        x as u32
    }
}

/// A length setting, or its default when missing.
pub open spec fn length_or(x: Option<i64>, default: u32) -> u32 {
    match x {
        Some(v) => clamp_length(v),
        None => default,
    }
}

/// The message of a color setting that does not parse.
pub open spec fn color_setting_message(field: Seq<char>, error: Seq<char>) -> Seq<char> {
    "invalid "@ + field + ": "@ + ("Invalid color format: "@ + error)
}

/// A color setting: the parsed color, or the message of its error.
pub open spec fn color_setting(raw: Seq<char>, field: Seq<char>) -> Result<Color, Seq<char>> {
    match color_of(raw) {
        Ok(c) => Ok(c),
        Err(m) => Err(color_setting_message(field, m)),
    }
}

/// The resolved background color, or the message of its error.
pub open spec fn background_of(general: RawGeneral) -> Result<Color, Seq<char>> {
    match general.background_color {
        Some(v) => color_setting(v@, "backgroundColor"@),
        None => Ok(Color { r: 0, g: 0, b: 0, a: 255 }),
    }
}

/// A resolved key entry: trimmed name, color, size in thousandths.
pub ghost struct KeySetting {
    pub name: Seq<char>,
    pub color: Color,
    pub size: u32,
}

/// The message of a key entry without a name.
pub open spec fn missing_name_message() -> Seq<char> {
    "key entry missing required name"@
}

/// A resolved key entry, or the message of its error. The name is trimmed
/// and must not be empty; the color defaults to opaque white, the size to one.
pub open spec fn key_setting(raw: RawKeyConfig) -> Result<KeySetting, Seq<char>> {
    let name = match raw.name {
        Some(n) => trimmed(n@),
        None => Seq::<char>::empty(),
    };
    if name.len() == 0 {
        Err(missing_name_message())
    } else {
        let color = match raw.color {
            Some(c) => color_setting(c@, "key color"@),
            None => Ok(Color { r: 255, g: 255, b: 255, a: 255 }),
        };
        match color {
            Ok(c) => Ok(
                KeySetting {
                    name,
                    color: c,
                    size: match raw.size {
                        Some(s) => s,
                        None => MILLI,
                    },
                },
            ),
            Err(m) => Err(m),
        }
    }
}

/// The resolved key entries, or the message of the first bad one.
pub open spec fn key_settings(raws: Seq<RawKeyConfig>) -> Result<Seq<KeySetting>, Seq<char>>
    decreases raws.len(),
{
    if raws.len() == 0 {
        Ok(Seq::empty())
    } else {
        match key_settings(raws.drop_last()) {
            Err(m) => Err(m),
            Ok(done) => match key_setting(raws.last()) {
                Ok(k) => Ok(done.push(k)),
                Err(m) => Err(m),
            },
        }
    }
}

/// Whether a key configuration is the resolution of a key entry: its display
/// name is its name.
pub open spec fn is_key_of(k: KeyConfig, s: KeySetting) -> bool {
    &&& k.key_name@ == s.name
    &&& k.display_name@ == s.name
    &&& k.color == s.color
    &&& k.size == s.size
}

/// Whether `keys` are the resolutions of `settings`, in order.
pub open spec fn are_keys_of(keys: Seq<KeyConfig>, settings: Seq<KeySetting>) -> bool {
    &&& keys.len() == settings.len()
    &&& forall|i: int| 0 <= i < keys.len() ==> is_key_of(#[trigger] keys[i], settings[i])
}

/// The message of a bar speed that is not positive.
pub open spec fn bar_speed_message() -> Seq<char> {
    "bar_speed must be positive"@
}

/// The message of the first error of a configuration, if any: the
/// background color first, then the key entries in order, then a bar speed
/// that is not positive once resolved.
pub open spec fn config_error(raw: RawConfig) -> Option<Seq<char>> {
    match background_of(raw.general) {
        Err(m) => Some(m),
        Ok(_) => match (if raw.key@.len() == 0 {
            None
        } else {
            match key_settings(raw.key@) {
                Err(m) => Some(m),
                Ok(_) => None,
            }
        }) {
            Some(m) => Some(m),
            None => if length_or(raw.general.bar_speed, DEFAULT_BAR_SPEED) == 0 {
                Some(bar_speed_message())
            } else {
                None
            },
        },
    }
}

/// Whether `c` is the configuration resolved from `raw`, which has no error.
pub open spec fn is_resolution_of(c: AppConfig, raw: RawConfig) -> bool {
    let g = raw.general;
    &&& c.height == length_or(g.height, DEFAULT_HEIGHT)
    &&& c.key_size == length_or(g.key_size, DEFAULT_KEY_SIZE)
    &&& c.bar_speed == length_or(g.bar_speed, DEFAULT_BAR_SPEED)
    &&& background_of(g) == Ok::<Color, Seq<char>>(c.background_color)
    &&& c.margin == length_or(g.margin, DEFAULT_MARGIN)
    &&& c.outline_thickness == length_or(g.outline_thickness, DEFAULT_OUTLINE_THICKNESS)
    &&& c.fading == match g.fading {
        Some(b) => b,
        None => true,
    }
    &&& c.counter == match g.counter {
        Some(b) => b,
        None => true,
    }
    &&& c.fps == match g.fps {
        Some(f) => f,
        None => DEFAULT_FPS,
    }
    &&& if raw.key@.len() == 0 {
        is_default_keys(c.keys@)
    } else {
        are_keys_of(c.keys@, key_settings(raw.key@)->Ok_0)
    }
}

/// Clamps a length into `0..=u32::MAX`.
fn clamp_to_length(x: i64) -> (r: u32)
    ensures
        r == clamp_length(x),
{
    if x < 0 {
        0
    } else if x > u32::MAX as i64 {
        u32::MAX
    } else {
        x as u32
    }
}

/// A length setting, or its default when missing.
fn length_setting(x: Option<i64>, default: u32) -> (r: u32)
    ensures
        r == length_or(x, default),
{
    match x {
        Some(v) => clamp_to_length(v),
        None => default,
    }
}

/// Parses a color setting named `field_name` into a configuration error on
/// failure.
pub fn parse_app_color(raw: &str, field_name: &str) -> (r: Result<Color, AppError>)
    ensures
        match color_setting(raw@, field_name@) {
            Ok(c) => r == Ok::<Color, AppError>(c),
            Err(m) => r is Err && r->Err_0 is Config && r->Err_0->Config_0@ == m,
        },
{
    match parse_color(raw) {
        Ok(c) => Ok(c),
        Err(err) => {
            let mut message = "invalid ".to_owned();
            message.append(field_name);
            message.append(": ");
            let detail = err.to_string();
            message.append(detail.as_str());
            proof {
                let m = color_of(raw@)->Err_0;
                assert(message@ =~= color_setting_message(field_name@, m));
            }
            Err(AppError::Config(message))
        },
    }
}

/// Resolves the key entries, in order; fails on the first bad one.
fn parse_raw_keys(raw_keys: &Vec<RawKeyConfig>) -> (r: Result<Vec<KeyConfig>, AppError>)
    ensures
        match key_settings(raw_keys@) {
            Ok(settings) => r is Ok && are_keys_of(r->Ok_0@, settings),
            Err(m) => r is Err && r->Err_0 is Config && r->Err_0->Config_0@ == m,
        },
{
    let mut parsed_keys: Vec<KeyConfig> = Vec::new();
    let mut i: usize = 0;
    while i < raw_keys.len()
        invariant
            0 <= i <= raw_keys@.len(),
            parsed_keys@.len() == i,
            key_settings(raw_keys@.subrange(0, i as int)) is Ok,
            are_keys_of(parsed_keys@, key_settings(raw_keys@.subrange(0, i as int))->Ok_0),
        decreases raw_keys@.len() - i,
    {
        let raw_key = &raw_keys[i];
        proof {
            assert(raw_keys@.subrange(0, i + 1).drop_last() =~= raw_keys@.subrange(0, i as int));
        }
        let name: Option<&str> = match &raw_key.name {
            Some(value) => Some(trim(value.as_str())),
            None => None,
        };
        let key_name = match name {
            Some(n) => {
                if n.unicode_len() == 0 {
                    None
                } else {
                    Some(n.to_owned())
                }
            },
            None => None,
        };
        let key_name = match key_name {
            Some(n) => n,
            None => {
                proof {
                    lemma_key_settings_fail(raw_keys@, i as int);
                }
                return Err(AppError::Config("key entry missing required name".to_owned()));
            },
        };
        let color = match &raw_key.color {
            Some(value) => match parse_app_color(value.as_str(), "key color") {
                Ok(c) => c,
                Err(e) => {
                    proof {
                        lemma_key_settings_fail(raw_keys@, i as int);
                    }
                    return Err(e);
                },
            },
            None => Color::from_rgba_u8(255, 255, 255, 255),
        };
        let size = match raw_key.size {
            Some(s) => s,
            None => MILLI,
        };
        let display_name = key_name.clone();
        let ghost before = parsed_keys@;
        parsed_keys.push(KeyConfig { key_name, display_name, color, size });
        proof {
            let settings = key_settings(raw_keys@.subrange(0, i + 1))->Ok_0;
            assert(settings =~= key_settings(raw_keys@.subrange(0, i as int))->Ok_0.push(
                key_setting(raw_keys@[i as int])->Ok_0,
            ));
            assert forall|j: int| 0 <= j < parsed_keys@.len() implies is_key_of(
                #[trigger] parsed_keys@[j],
                settings[j],
            ) by {
                if j < i {
                    assert(parsed_keys@[j] == before[j]);
                }
            }
        }
        i = i + 1;
    }
    proof {
        assert(raw_keys@.subrange(0, raw_keys@.len() as int) =~= raw_keys@);
    }
    Ok(parsed_keys)
}

/// A failing entry after good ones makes the whole resolution fail with its
/// message.
proof fn lemma_key_settings_fail(raws: Seq<RawKeyConfig>, i: int)
    requires
        0 <= i < raws.len(),
        key_settings(raws.subrange(0, i)) is Ok,
        key_setting(raws[i]) is Err,
    ensures
        key_settings(raws) == Err::<Seq<KeySetting>, Seq<char>>(key_setting(raws[i])->Err_0),
    decreases raws.len() - i,
{
    if i == raws.len() - 1 {
        assert(raws.drop_last() =~= raws.subrange(0, i));
    } else {
        assert(raws.drop_last().subrange(0, i) =~= raws.subrange(0, i));
        lemma_key_settings_fail(raws.drop_last(), i);
    }
}

/// Resolves a configuration as read: missing settings take their defaults,
/// colors are parsed, an empty key list means the default keys, and a bar
/// speed that is not positive rejects the whole configuration.
pub fn resolve_config(raw: &RawConfig) -> (r: Result<AppConfig, AppError>)
    ensures
        match config_error(*raw) {
            None => r is Ok && is_resolution_of(r->Ok_0, *raw),
            Some(m) => r is Err && r->Err_0 is Config && r->Err_0->Config_0@ == m,
        },
{
    let g = &raw.general;
    let background_color = match &g.background_color {
        Some(value) => match parse_app_color(value.as_str(), "backgroundColor") {
            Ok(c) => c,
            Err(e) => return Err(e),
        },
        None => Color::black(),
    };
    let keys = if raw.key.len() == 0 {
        default_keys()
    } else {
        match parse_raw_keys(&raw.key) {
            Ok(k) => k,
            Err(e) => return Err(e),
        }
    };
    let config = AppConfig {
        height: length_setting(g.height, DEFAULT_HEIGHT),
        key_size: length_setting(g.key_size, DEFAULT_KEY_SIZE),
        bar_speed: length_setting(g.bar_speed, DEFAULT_BAR_SPEED),
        background_color,
        margin: length_setting(g.margin, DEFAULT_MARGIN),
        outline_thickness: length_setting(g.outline_thickness, DEFAULT_OUTLINE_THICKNESS),
        fading: match g.fading {
            Some(b) => b,
            None => true,
        },
        counter: match g.counter {
            Some(b) => b,
            None => true,
        },
        fps: match g.fps {
            Some(f) => f,
            None => DEFAULT_FPS,
        },
        keys,
    };
    if !bar_speed_is_valid(&config) {
        return Err(AppError::Config("bar_speed must be positive".to_owned()));
    }
    Ok(config)
}

/// Whether the bar speed is positive.
fn bar_speed_is_valid(config: &AppConfig) -> (r: bool)
    ensures
        r == (config.bar_speed > 0),
{
    config.bar_speed > 0
}

/// The warning of a bar speed that is not positive, which
/// `resolve_config` rejects.
pub open spec fn bar_speed_warning() -> Seq<char> {
    "bar_speed must be positive; the configuration is rejected"@
}

/// The warning of an empty key list.
pub open spec fn empty_keys_warning() -> Seq<char> {
    "keys list is empty; using defaults is recommended"@
}

/// Checks a resolved configuration; returns the non-fatal warnings, the bar
/// speed's first.
pub fn validate_config(config: &AppConfig) -> (warnings: Vec<String>)
    ensures
        warnings@.len() == (if config.bar_speed == 0 {
            1int
        } else {
            0
        }) + (if config.keys@.len() == 0 {
            1int
        } else {
            0
        }),
        config.bar_speed == 0 ==> warnings@[0]@ == bar_speed_warning(),
        config.keys@.len() == 0 ==> warnings@.last()@ == empty_keys_warning(),
{
    let mut warnings: Vec<String> = Vec::new();
    if !bar_speed_is_valid(config) {
        warnings.push("bar_speed must be positive; the configuration is rejected".to_owned());
    }
    if config.keys.len() == 0 {
        warnings.push("keys list is empty; using defaults is recommended".to_owned());
    }
    warnings
}

/// The text form of a color: its four channels in decimal, comma-separated.
pub open spec fn color_text_of(c: Color) -> Seq<char> {
    decimal(c.r as nat) + ","@ + decimal(c.g as nat) + ","@ + decimal(c.b as nat) + ","@
        + decimal(c.a as nat)
}

/// Writes a color as "R,G,B,A", the form that `parse_color` reads.
pub fn color_to_text(c: Color) -> (r: String)
    ensures
        r@ == color_text_of(c),
{
    let mut r = decimal_text(c.r as u64);
    r.append(",");
    let g = decimal_text(c.g as u64);
    r.append(g.as_str());
    r.append(",");
    let b = decimal_text(c.b as u64);
    r.append(b.as_str());
    r.append(",");
    let a = decimal_text(c.a as u64);
    r.append(a.as_str());
    r
}

} // verus!
