//! Core domain types for the key overlay.
//!
//! Lengths are fixed-point integers in thousandths of a pixel, speeds in
//! thousandths of a pixel per second, and size multipliers in thousandths.
use vstd::prelude::*;

verus! {

/// Thousandths in one whole unit (one pixel, or a multiplier of one).
pub const MILLI: u32 = 1000;

/// Alpha divisor of the pressed-state color, the golden ratio in thousandths.
pub const GOLDEN_RATIO_MILLI: u32 = 1618;

/// An RGBA color with 8-bit channels.
#[derive(Clone, Copy, Debug, PartialEq, Eq, Structural)]
pub struct Color {
    pub r: u8,
    pub g: u8,
    pub b: u8,
    pub a: u8,
}

/// The alpha channel divided by the golden ratio, rounded to the nearest value.
pub open spec fn pressed_alpha(a: u8) -> u8 {
    ((a as int * 1000 + 809) / 1618) as u8
}

impl Color {
    /// Creates a color from its four channels.
    pub fn new(r: u8, g: u8, b: u8, a: u8) -> (c: Color)
        ensures
            c == (Color { r, g, b, a }),
    {
        Color { r, g, b, a }
    }

    /// Opaque black.
    pub fn black() -> (c: Color)
        ensures
            c == (Color { r: 0, g: 0, b: 0, a: 255 }),
    {
        Self::from_rgba_u8(0, 0, 0, 255)
    }

    /// The pressed-state variant: same channels, alpha dimmed by the golden ratio.
    pub open spec fn pressed_spec(self) -> Color {
        Color { r: self.r, g: self.g, b: self.b, a: pressed_alpha(self.a) }
    }

    /// Returns the pressed-state color using golden-ratio alpha dimming.
    pub fn pressed(&self) -> (c: Color)
        ensures
            c == self.pressed_spec(),
    {
        let a: u32 = (self.a as u32 * MILLI + GOLDEN_RATIO_MILLI / 2) / GOLDEN_RATIO_MILLI;
        assert(a <= 255) by (nonlinear_arith)
            requires
                a == (self.a as u32 * 1000 + 809) / 1618,
                self.a <= 255,
        ;
        Color { r: self.r, g: self.g, b: self.b, a: a as u8 }
    }

    /// Creates a color from RGBA bytes.
    pub fn from_rgba_u8(r: u8, g: u8, b: u8, a: u8) -> (c: Color)
        ensures
            c == (Color { r, g, b, a }),
    {
        Color { r, g, b, a }
    }
}

/// Configuration for a single monitored key.
#[derive(Clone, Debug)]
pub struct KeyConfig {
    /// Canonical identifier of the key, matched exactly against input events.
    pub key_name: String,
    /// Label drawn on the key.
    pub display_name: String,
    pub color: Color,
    /// Width multiplier of the key, in thousandths.
    pub size: u32,
}

/// Full application configuration.
#[derive(Clone, Debug)]
pub struct AppConfig {
    /// Window height, in thousandths of a pixel.
    pub height: u32,
    /// Base key width, in thousandths of a pixel.
    pub key_size: u32,
    /// Bar travel speed, in thousandths of a pixel per second.
    pub bar_speed: u32,
    pub background_color: Color,
    /// Spacing between keys, in thousandths of a pixel.
    pub margin: u32,
    /// Outline stroke width, in thousandths of a pixel.
    pub outline_thickness: u32,
    pub fading: bool,
    pub counter: bool,
    /// Target frames per second.
    pub fps: u32,
    pub keys: Vec<KeyConfig>,
}

/// Default window height: 700 pixels.
pub const DEFAULT_HEIGHT: u32 = 700_000;

/// Default key width: 70 pixels.
pub const DEFAULT_KEY_SIZE: u32 = 70_000;

/// Default bar speed: 600 pixels per second.
pub const DEFAULT_BAR_SPEED: u32 = 600_000;

/// Default spacing between keys: 25 pixels.
pub const DEFAULT_MARGIN: u32 = 25_000;

/// Default outline width: 5 pixels.
pub const DEFAULT_OUTLINE_THICKNESS: u32 = 5_000;

/// Default frame rate.
pub const DEFAULT_FPS: u32 = 60;

impl AppConfig {
    /// The scalar settings are the defaults.
    pub open spec fn has_default_settings(&self) -> bool {
        &&& self.height == DEFAULT_HEIGHT
        &&& self.key_size == DEFAULT_KEY_SIZE
        &&& self.bar_speed == DEFAULT_BAR_SPEED
        &&& self.background_color == (Color { r: 0, g: 0, b: 0, a: 255 })
        &&& self.margin == DEFAULT_MARGIN
        &&& self.outline_thickness == DEFAULT_OUTLINE_THICKNESS
        &&& self.fading
        &&& self.counter
        &&& self.fps == DEFAULT_FPS
    }
}

/// The default keys: "Z" in red, then "X" in cyan, both of size one.
pub open spec fn is_default_keys(keys: Seq<KeyConfig>) -> bool {
    &&& keys.len() == 2
    &&& keys[0].key_name@ == "Z"@
    &&& keys[0].display_name@ == "Z"@
    &&& keys[0].color == (Color { r: 255, g: 0, b: 0, a: 255 })
    &&& keys[0].size == MILLI
    &&& keys[1].key_name@ == "X"@
    &&& keys[1].display_name@ == "X"@
    &&& keys[1].color == (Color { r: 0, g: 255, b: 255, a: 255 })
    &&& keys[1].size == MILLI
}

/// The two default keys.
pub fn default_keys() -> (keys: Vec<KeyConfig>)
    ensures
        is_default_keys(keys@),
{
    let mut keys: Vec<KeyConfig> = Vec::new();
    keys.push(
        KeyConfig {
            key_name: "Z".to_owned(),
            display_name: "Z".to_owned(),
            color: Color::from_rgba_u8(255, 0, 0, 255),
            size: MILLI,
        },
    );
    keys.push(
        KeyConfig {
            key_name: "X".to_owned(),
            display_name: "X".to_owned(),
            color: Color::from_rgba_u8(0, 255, 255, 255),
            size: MILLI,
        },
    );
    keys
}

impl Default for AppConfig {
    fn default() -> (c: AppConfig)
        ensures
            c.has_default_settings(),
            is_default_keys(c.keys@),
    {
        AppConfig {
            height: DEFAULT_HEIGHT,
            key_size: DEFAULT_KEY_SIZE,
            bar_speed: DEFAULT_BAR_SPEED,
            background_color: Color::black(),
            margin: DEFAULT_MARGIN,
            outline_thickness: DEFAULT_OUTLINE_THICKNESS,
            fading: true,
            counter: true,
            fps: DEFAULT_FPS,
            keys: default_keys(),
        }
    }
}

/// Application error type.
#[derive(Clone, Debug, PartialEq, Eq)]
pub enum AppError {
    Config(String),
    Input(String),
    Render(String),
    Watcher(String),
    Io(String),
}

impl AppError {
    /// The message prefix of each kind of error.
    pub open spec fn prefix(&self) -> Seq<char> {
        match self {
            AppError::Config(_) => "Config error: "@,
            AppError::Input(_) => "Input backend error: "@,
            AppError::Render(_) => "Render error: "@,
            AppError::Watcher(_) => "Watcher error: "@,
            AppError::Io(_) => "IO error: "@,
        }
    }

    /// The detail carried by the error.
    pub open spec fn detail(&self) -> Seq<char> {
        match self {
            AppError::Config(m) => m@,
            AppError::Input(m) => m@,
            AppError::Render(m) => m@,
            AppError::Watcher(m) => m@,
            AppError::Io(m) => m@,
        }
    }

    /// The human-readable message: the kind's prefix, then the detail.
    pub fn to_string(&self) -> (r: String)
        ensures
            r@ == self.prefix() + self.detail(),
    {
        let (prefix, detail) = match self {
            AppError::Config(m) => ("Config error: ", m),
            AppError::Input(m) => ("Input backend error: ", m),
            AppError::Render(m) => ("Render error: ", m),
            AppError::Watcher(m) => ("Watcher error: ", m),
            AppError::Io(m) => ("IO error: ", m),
        };
        let mut r = prefix.to_owned();
        r.append(detail.as_str());
        r
    }
}

/// An input event emitted by an input backend, naming a canonical key.
#[derive(Clone, Debug, PartialEq, Eq)]
pub enum InputEvent {
    KeyPress(String),
    KeyRelease(String),
    MousePress(String),
    MouseRelease(String),
}

} // verus!
