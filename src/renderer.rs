//! Per-frame rendering decisions: window size, animation step, and what to
//! draw for each bar.
//!
//! Screen coordinates grow downwards and are in thousandths of a pixel;
//! times are in microseconds.
use vstd::prelude::*;

use crate::bars::{clamp_to_i64, saturate, Bar, BarColumn, BarManager, ColumnState};
use crate::fading::{calculate_fade_alpha, fade_alpha, OPAQUE};
use crate::layout::{
    calculate_key_x_positions, calculate_window_width, key_offset, saturate_u64, window_width,
};
use crate::text::{decimal, decimal_text};
use crate::types::{AppConfig, Color, KeyConfig};

verus! {

/// Longest animation step after a stall: a tenth of a second.
pub const MAX_FRAME_STEP: u64 = 100_000;

/// Share of the window height, in thousandths, over which bars fade out.
pub const FADE_REGION_RATIO: u32 = 250;

/// Counter text size relative to the key size, in thousandths.
pub const COUNTER_TEXT_SCALE: u32 = 240;

/// Smallest counter text size: ten pixels.
pub const MIN_COUNTER_TEXT_SIZE: u32 = 10_000;

/// Key label size relative to the key size, in thousandths.
pub const KEY_LABEL_SCALE: u32 = 320;

/// Smallest key label size: twelve pixels.
pub const MIN_KEY_LABEL_SIZE: u32 = 12_000;

/// Gap between the counter text and the bottom of the window: eight pixels.
pub const BOTTOM_TEXT_MARGIN: u32 = 8_000;

/// Height of a label's centre above the key bottom, relative to the key size,
/// in thousandths (measured from the key top).
pub const KEY_LABEL_VERTICAL_CENTER_RATIO: u32 = 600;

/// A window size difference that needs no resize: half a pixel.
pub const WINDOW_SIZE_EPSILON: u64 = 500;

/// Opaque white, the bar outline color.
pub open spec fn white() -> Color {
    Color { r: 255, g: 255, b: 255, a: 255 }
}

/// The color of the first configured key named `name`.
pub open spec fn configured_color(keys: Seq<KeyConfig>, name: Seq<char>) -> Option<Color>
    decreases keys.len(),
{
    if keys.len() == 0 {
        None
    } else if keys[0].key_name@ == name {
        Some(keys[0].color)
    } else {
        configured_color(keys.subrange(1, keys.len() as int), name)
    }
}

/// The columns after a press of `name`: a key configured in `keys` gets a
/// new bar, its column created in its configured color if it had none.
pub open spec fn pressed_columns(
    columns: Map<Seq<char>, ColumnState>,
    keys: Seq<KeyConfig>,
    name: Seq<char>,
) -> Map<Seq<char>, ColumnState> {
    match configured_color(keys, name) {
        Some(color) => columns.insert(
            name,
            (if columns.contains_key(name) {
                columns[name]
            } else {
                ColumnState::fresh(color)
            }).pressed(),
        ),
        None => columns,
    }
}

/// The columns after a release of `name`.
pub open spec fn released_columns(columns: Map<Seq<char>, ColumnState>, name: Seq<char>) -> Map<
    Seq<char>,
    ColumnState,
> {
    if columns.contains_key(name) {
        columns.insert(name, columns[name].released())
    } else {
        columns
    }
}

/// The animation step of a frame at `now`, after the frame at `last`.
pub open spec fn frame_step(last: Option<u64>, now: u64) -> u64 {
    match last {
        Some(l) => if now >= l {
            if now - l <= MAX_FRAME_STEP {
                (now - l) as u64
            } else {
                MAX_FRAME_STEP
            }
        } else {
            0
        },
        None => 0,
    }
}

/// The columns after advancing by `dt` and removing what left the window.
pub open spec fn animated(
    columns: Map<Seq<char>, ColumnState>,
    dt: i64,
    speed: u32,
    window_height: i64,
) -> Map<Seq<char>, ColumnState> {
    columns.map_values(|c: ColumnState| c.advanced(dt, speed)).map_values(
        |c: ColumnState| c.culled(window_height),
    )
}

/// The height of the fade region of a window.
pub open spec fn fade_height(window_height: u32) -> int {
    window_height as int * FADE_REGION_RATIO as int / 1000
}

/// A color whose alpha is scaled by `alpha` (out of `OPAQUE`), rounded.
pub open spec fn scaled_alpha(color: Color, alpha: u32) -> Color {
    Color {
        r: color.r,
        g: color.g,
        b: color.b,
        a: ((color.a as int * alpha as int + 500) / 1000) as u8,
    }
}

/// The counter text size for a key size.
pub open spec fn counter_text_size(key_size: u32) -> int {
    let scaled = key_size as int * COUNTER_TEXT_SCALE as int / 1000;
    if scaled > MIN_COUNTER_TEXT_SIZE {
        scaled
    } else {
        MIN_COUNTER_TEXT_SIZE as int
    }
}

/// The key label text size for a key size.
pub open spec fn label_text_size(key_size: u32) -> int {
    let scaled = key_size as int * KEY_LABEL_SCALE as int / 1000;
    if scaled > MIN_KEY_LABEL_SIZE {
        scaled
    } else {
        MIN_KEY_LABEL_SIZE as int
    }
}

/// The bottom edge of the keys: above the counter text when it is shown.
pub open spec fn key_bottom_of(config: &AppConfig, canvas_bottom: i64) -> i64 {
    if config.counter {
        saturate(
            canvas_bottom - (counter_text_size(config.key_size) + 2 * BOTTOM_TEXT_MARGIN as int),
        )
    } else {
        canvas_bottom
    }
}

/// What to draw for one bar: its visible span and its fill and outline colors.
#[derive(Clone, Copy, Debug, PartialEq, Eq, Structural)]
pub struct BarSprite {
    pub top: i64,
    pub bottom: i64,
    pub fill: Color,
    pub stroke: Color,
}

/// The sprite of bar `index` of `column` in a column whose keys end at
/// `key_bottom`, on a canvas starting at `canvas_top`; `None` when the bar
/// lies wholly outside.
pub open spec fn bar_sprite(
    config: &AppConfig,
    column: ColumnState,
    index: int,
    key_bottom: i64,
    canvas_top: i64,
) -> Option<BarSprite> {
    let bar = column.bars[index];
    let bottom = key_bottom - bar.y_position;
    let top = bottom - bar.height;
    if bottom <= canvas_top || top >= key_bottom {
        None
    } else {
        let base = if column.is_held && index == column.bars.len() - 1 {
            bar.pressed_color
        } else {
            bar.color
        };
        let alpha = if config.fading {
            fade_alpha(
                saturate(bar.y_position + bar.height) as int,
                config.height as int,
                fade_height(config.height),
            )
        } else {
            OPAQUE as int
        };
        Some(
            BarSprite {
                top: (if top > canvas_top {
                    top
                } else {
                    canvas_top as int
                }) as i64,
                bottom: (if bottom < key_bottom {
                    bottom
                } else {
                    key_bottom as int
                }) as i64,
                fill: scaled_alpha(base, alpha as u32),
                stroke: scaled_alpha(white(), alpha as u32),
            },
        )
    }
}

/// Scales the alpha of `color` by `alpha` out of `OPAQUE`, rounding.
pub fn with_scaled_alpha(color: Color, alpha: u32) -> (c: Color)
    requires
        alpha <= OPAQUE,
    ensures
        c == scaled_alpha(color, alpha),
{
    let channel: u32 = color.a as u32;
    assert(channel * alpha <= 255 * 1000) by (nonlinear_arith)
        requires
            channel <= 255,
            alpha <= 1000,
    ;
    let a: u32 = (channel * alpha + 500) / 1000;
    assert(a <= 255) by (nonlinear_arith)
        requires
            a == (color.a as int * alpha as int + 500) / 1000,
            color.a <= 255,
            alpha <= 1000,
    ;
    Color { r: color.r, g: color.g, b: color.b, a: a as u8 }
}

/// Whether the window must be resized: a side differs by more than half a
/// pixel.
pub fn window_size_needs_update(current: [u64; 2], desired: [u64; 2]) -> (r: bool)
    ensures
        r == (abs_diff(current[0], desired[0]) > WINDOW_SIZE_EPSILON || abs_diff(
            current[1],
            desired[1],
        ) > WINDOW_SIZE_EPSILON),
{
    let dw = if current[0] > desired[0] {
        current[0] - desired[0]
    } else {
        desired[0] - current[0]
    };
    let dh = if current[1] > desired[1] {
        current[1] - desired[1]
    } else {
        desired[1] - current[1]
    };
    dw > WINDOW_SIZE_EPSILON || dh > WINDOW_SIZE_EPSILON
}

/// The distance between two sizes.
pub open spec fn abs_diff(a: u64, b: u64) -> int {
    if a > b {
        a - b
    } else {
        b - a
    }
}

/// Where one key's box, label and counter go.
#[derive(Clone, Copy, Debug, PartialEq, Eq, Structural)]
pub struct KeyLayout {
    pub left: i64,
    pub right: i64,
    pub top: i64,
    pub bottom: i64,
    pub center_x: i64,
    pub label_y: i64,
    pub label_size: u32,
    pub counter_y: i64,
    pub counter_size: u32,
}

/// The layout of the key at left edge `offset` (from the layout) with size
/// multiplier `size`, on a canvas with the given left and bottom edges.
pub open spec fn key_layout_of(
    config: &AppConfig,
    offset: u64,
    size: u32,
    canvas_left: i64,
    canvas_bottom: i64,
) -> KeyLayout {
    let left = saturate(canvas_left + offset + config.outline_thickness);
    let right = saturate(left + config.key_size as int * size as int / 1000);
    let bottom = key_bottom_of(config, canvas_bottom);
    let top = saturate(bottom - config.key_size);
    KeyLayout {
        left,
        right,
        top,
        bottom,
        center_x: (left + (right - left) / 2) as i64,
        label_y: saturate(
            top + config.key_size as int * KEY_LABEL_VERTICAL_CENTER_RATIO as int / 1000,
        ),
        label_size: label_text_size(config.key_size) as u32,
        counter_y: saturate(canvas_bottom - BOTTOM_TEXT_MARGIN),
        counter_size: counter_text_size(config.key_size) as u32,
    }
}

/// Draw-independent state of the overlay: the active configuration, the bar
/// animation, and the key positions and frame clock derived from them.
#[derive(Debug)]
pub struct Renderer {
    config: AppConfig,
    pub bar_manager: BarManager,
    key_positions: Vec<u64>,
    last_frame_time: Option<u64>,
    font_loaded: bool,
}

impl Renderer {
    /// The active configuration.
    pub closed spec fn active_config(&self) -> AppConfig {
        self.config
    }

    /// The columns of the bar animation, by key.
    pub closed spec fn columns(&self) -> Map<Seq<char>, ColumnState> {
        self.bar_manager.view()
    }

    /// The time of the last animated frame.
    pub closed spec fn last_frame(&self) -> Option<u64> {
        self.last_frame_time
    }

    /// The speed at which the bars travel.
    pub closed spec fn animation_speed(&self) -> u32 {
        self.bar_manager.speed()
    }

    /// The bars always travel at the configured speed.
    pub proof fn lemma_speed_follows_config(&self)
        requires
            self.wf(),
        ensures
            self.animation_speed() == self.active_config().bar_speed,
    {
    }

    /// Whether the font was handed to the window.
    pub closed spec fn has_font(&self) -> bool {
        self.font_loaded
    }

    /// The animation runs at the configured speed, and the key positions
    /// belong to the configuration.
    pub closed spec fn wf(&self) -> bool {
        &&& self.bar_manager.wf()
        &&& self.bar_manager.speed() == self.config.bar_speed
        &&& self.key_positions@.len() == self.config.keys@.len()
        &&& forall|i: int|
            0 <= i < self.key_positions@.len() ==> self.key_positions@[i] == saturate_u64(
                key_offset(&self.config, i),
            )
    }

    /// Creates a renderer for `config`, with no bars yet.
    pub fn new(config: AppConfig) -> (r: Renderer)
        ensures
            r.wf(),
            r.active_config() == config,
            r.animation_speed() == config.bar_speed,
            r.columns() == Map::<Seq<char>, ColumnState>::empty(),
            r.last_frame() == None::<u64>,
            !r.has_font(),
    {
        let key_positions = calculate_key_x_positions(&config);
        let bar_manager = BarManager::new(config.bar_speed);
        Renderer { config, bar_manager, key_positions, last_frame_time: None, font_loaded: false }
    }

    /// The active configuration.
    pub fn config(&self) -> (c: &AppConfig)
        ensures
            *c == self.active_config(),
    {
        &self.config
    }

    /// The left edge of every configured key, in configuration order.
    pub fn key_positions(&self) -> (p: &Vec<u64>)
        requires
            self.wf(),
        ensures
            p@.len() == self.active_config().keys@.len(),
            forall|i: int|
                0 <= i < p@.len() ==> p@[i] == saturate_u64(key_offset(&self.active_config(), i)),
    {
        &self.key_positions
    }

    /// Records a press of `key_name`: a configured key gets a new bar in the
    /// color of its first configuration entry; other keys are ignored.
    pub fn on_key_press(&mut self, key_name: &str)
        requires
            old(self).wf(),
        ensures
            final(self).wf(),
            final(self).active_config() == old(self).active_config(),
            final(self).last_frame() == old(self).last_frame(),
            final(self).has_font() == old(self).has_font(),
            final(self).columns() == pressed_columns(
                old(self).columns(),
                old(self).active_config().keys@,
                key_name@,
            ),
    {
        let name = key_name.to_owned();
        match first_key_index(&self.config.keys, &name) {
            Some(i) => {
                let color = self.config.keys[i].color;
                self.bar_manager.on_key_press(key_name, color);
            },
            None => {},
        }
    }

    /// Records a release of `key_name`.
    pub fn on_key_release(&mut self, key_name: &str)
        requires
            old(self).wf(),
        ensures
            final(self).wf(),
            final(self).active_config() == old(self).active_config(),
            final(self).last_frame() == old(self).last_frame(),
            final(self).has_font() == old(self).has_font(),
            final(self).columns() == released_columns(old(self).columns(), key_name@),
    {
        self.bar_manager.on_key_release(key_name);
    }

    /// Replaces the configuration; the bars stay and travel at the new speed.
    pub fn set_config(&mut self, config: AppConfig)
        requires
            old(self).wf(),
        ensures
            final(self).wf(),
            final(self).active_config() == config,
            final(self).animation_speed() == config.bar_speed,
            final(self).columns() == old(self).columns(),
            final(self).last_frame() == old(self).last_frame(),
            final(self).has_font() == old(self).has_font(),
    {
        self.key_positions = calculate_key_x_positions(&config);
        self.bar_manager.set_bar_speed(config.bar_speed);
        self.config = config;
    }

    /// The window size the layout asks for: its width, and the configured
    /// height.
    pub fn desired_window_size(&self) -> (size: [u64; 2])
        ensures
            size[0] == saturate_u64(window_width(&self.active_config())),
            size[1] == self.active_config().height,
    {
        [calculate_window_width(&self.config), self.config.height as u64]
    }

    /// Notes that the font was handed to the window; returns whether that
    /// still had to be done.
    pub fn ensure_font_loaded(&mut self) -> (load_now: bool)
        requires
            old(self).wf(),
        ensures
            final(self).wf(),
            load_now == !old(self).has_font(),
            final(self).has_font(),
            final(self).active_config() == old(self).active_config(),
            final(self).columns() == old(self).columns(),
            final(self).last_frame() == old(self).last_frame(),
    {
        if self.font_loaded {
            return false;
        }
        self.font_loaded = true;
        true
    }

    /// Advances the animation to the frame at `now`: by the time since the
    /// previous frame, at most a tenth of a second, and nothing on the first
    /// frame. Then removes the bars that left the window.
    pub fn update_animation(&mut self, now: u64)
        requires
            old(self).wf(),
        ensures
            final(self).wf(),
            final(self).last_frame() == Some(now),
            final(self).active_config() == old(self).active_config(),
            final(self).has_font() == old(self).has_font(),
            final(self).columns() == animated(
                old(self).columns(),
                frame_step(old(self).last_frame(), now) as i64,
                old(self).active_config().bar_speed,
                old(self).active_config().height as i64,
            ),
    {
        let dt: u64 = match self.last_frame_time {
            Some(last) => {
                let elapsed = now.saturating_sub(last);
                if elapsed <= MAX_FRAME_STEP {
                    elapsed
                } else {
                    MAX_FRAME_STEP
                }
            },
            None => 0,
        };
        self.last_frame_time = Some(now);
        self.bar_manager.update(dt as i64);
        self.bar_manager.remove_offscreen(self.config.height as i64);
    }

    /// The bottom edge of the keys on a canvas whose bottom is at
    /// `canvas_bottom`.
    pub fn key_bottom(&self, canvas_bottom: i64) -> (b: i64)
        ensures
            b == key_bottom_of(&self.active_config(), canvas_bottom),
    {
        if self.config.counter {
            let scaled: i128 = self.config.key_size as i128 * COUNTER_TEXT_SCALE as i128 / 1000;
            let size: i128 = if scaled > MIN_COUNTER_TEXT_SIZE as i128 {
                scaled
            } else {
                MIN_COUNTER_TEXT_SIZE as i128
            };
            clamp_to_i64(canvas_bottom as i128 - (size + 2 * BOTTOM_TEXT_MARGIN as i128))
        } else {
            canvas_bottom
        }
    }

    /// Where the key at `index` goes, on a canvas with the given left and
    /// bottom edges.
    pub fn key_layout(&self, index: usize, canvas_left: i64, canvas_bottom: i64) -> (l: KeyLayout)
        requires
            self.wf(),
            index < self.active_config().keys@.len(),
        ensures
            l == key_layout_of(
                &self.active_config(),
                saturate_u64(key_offset(&self.active_config(), index as int)),
                self.active_config().keys@[index as int].size,
                canvas_left,
                canvas_bottom,
            ),
    {
        let key_size: i128 = self.config.key_size as i128;
        let size: i128 = self.config.keys[index].size as i128;
        let left = clamp_to_i64(
            canvas_left as i128 + self.key_positions[index] as i128
                + self.config.outline_thickness as i128,
        );
        assert(key_size * size <= u32::MAX as int * u32::MAX as int) by (nonlinear_arith)
            requires
                0 <= key_size <= u32::MAX,
                0 <= size <= u32::MAX,
        ;
        assert(key_size * size >= 0) by (nonlinear_arith)
            requires
                0 <= key_size,
                0 <= size,
        ;
        let right = clamp_to_i64(left as i128 + key_size * size / 1000);
        let bottom = self.key_bottom(canvas_bottom);
        let top = clamp_to_i64(bottom as i128 - key_size);
        assert(0 <= key_size <= u32::MAX);
        let label_scaled: i128 = key_size * KEY_LABEL_SCALE as i128 / 1000;
        let label_size: u32 = if label_scaled > MIN_KEY_LABEL_SIZE as i128 {
            label_scaled as u32
        } else {
            MIN_KEY_LABEL_SIZE
        };
        let counter_scaled: i128 = key_size * COUNTER_TEXT_SCALE as i128 / 1000;
        let counter_size: u32 = if counter_scaled > MIN_COUNTER_TEXT_SIZE as i128 {
            counter_scaled as u32
        } else {
            MIN_COUNTER_TEXT_SIZE
        };
        assert(0 <= key_size <= u32::MAX);
        let label_offset: i128 = key_size * KEY_LABEL_VERTICAL_CENTER_RATIO as i128 / 1000;
        KeyLayout {
            left,
            right,
            top,
            bottom,
            center_x: left + (right - left) / 2,
            label_y: clamp_to_i64(top as i128 + label_offset),
            label_size,
            counter_y: clamp_to_i64(canvas_bottom as i128 - BOTTOM_TEXT_MARGIN as i128),
            counter_size,
        }
    }

    /// The press counter shown under the key `key_name`: its column's press
    /// count in decimal, or "0" for a key never pressed.
    pub fn counter_text(&self, key_name: &str) -> (t: String)
        requires
            self.wf(),
        ensures
            t@ == decimal(
                if self.columns().contains_key(key_name@) {
                    self.columns()[key_name@].press_count as nat
                } else {
                    0
                },
            ),
    {
        let count: u64 = match self.bar_manager.column(key_name) {
            Some(column) => column.press_count,
            None => 0,
        };
        decimal_text(count)
    }

    /// The sprite of every bar of `column`, in order; `None` for a bar that
    /// lies wholly outside the canvas.
    pub fn plan_column_bars(&self, column: &BarColumn, key_bottom: i64, canvas_top: i64) -> (r: Vec<
        Option<BarSprite>,
    >)
        ensures
            r@.len() == column.bars@.len(),
            forall|i: int|
                0 <= i < r@.len() ==> r@[i] == bar_sprite(
                    &self.active_config(),
                    column@,
                    i,
                    key_bottom,
                    canvas_top,
                ),
    {
        let mut sprites: Vec<Option<BarSprite>> = Vec::new();
        let n = column.bars.len();
        let mut i: usize = 0;
        while i < n
            invariant
                n == column.bars@.len(),
                0 <= i <= n,
                sprites@.len() == i,
                forall|j: int|
                    0 <= j < i ==> sprites@[j] == bar_sprite(
                        &self.active_config(),
                        column@,
                        j,
                        key_bottom,
                        canvas_top,
                    ),
            decreases n - i,
        {
            let sprite = self.bar_sprite_at(column, i, key_bottom, canvas_top);
            sprites.push(sprite);
            i = i + 1;
        }
        sprites
    }

    fn bar_sprite_at(&self, column: &BarColumn, index: usize, key_bottom: i64, canvas_top: i64) -> (r:
        Option<BarSprite>)
        requires
            index < column.bars@.len(),
        ensures
            r == bar_sprite(&self.active_config(), column@, index as int, key_bottom, canvas_top),
    {
        let bar: Bar = column.bars[index];
        let bottom: i128 = key_bottom as i128 - bar.y_position as i128;
        let top: i128 = bottom - bar.height as i128;
        if bottom <= canvas_top as i128 || top >= key_bottom as i128 {
            return None;
        }
        let base = if column.is_held && index == column.bars.len() - 1 {
            bar.pressed_color
        } else {
            bar.color
        };
        let alpha = if self.config.fading {
            let edge = clamp_to_i64(bar.y_position as i128 + bar.height as i128);
            let height: u64 = self.config.height as u64;
            assert(height * 250 <= u32::MAX as int * 250);
            let fade: u64 = height * FADE_REGION_RATIO as u64 / 1000;
            calculate_fade_alpha(edge, self.config.height as i64, fade as i64)
        } else {
            OPAQUE
        };
        let draw_top = if top > canvas_top as i128 {
            top as i64
        } else {
            canvas_top
        };
        let draw_bottom = if bottom < key_bottom as i128 {
            bottom as i64
        } else {
            key_bottom
        };
        Some(
            BarSprite {
                top: draw_top,
                bottom: draw_bottom,
                fill: with_scaled_alpha(base, alpha),
                stroke: with_scaled_alpha(Color::new(255, 255, 255, 255), alpha),
            },
        )
    }
}

/// Creates the renderer of a configuration.
pub fn create_renderer(config: AppConfig) -> (r: Renderer)
    ensures
        r.wf(),
        r.active_config() == config,
        r.animation_speed() == config.bar_speed,
        r.columns() == Map::<Seq<char>, ColumnState>::empty(),
        r.last_frame() == None::<u64>,
        !r.has_font(),
{
    Renderer::new(config)
}

/// The index of the first key configured under `name`.
fn first_key_index(keys: &Vec<KeyConfig>, name: &String) -> (r: Option<usize>)
    ensures
        match r {
            Some(i) => i < keys@.len() && configured_color(keys@, name@) == Some(keys@[i as int].color),
            None => configured_color(keys@, name@) == None::<Color>,
        },
{
    let ghost all = keys@;
    let mut i: usize = 0;
    assert(all.subrange(0, all.len() as int) =~= all);
    while i < keys.len()
        invariant
            all == keys@,
            0 <= i <= all.len(),
            configured_color(all, name@) == configured_color(
                all.subrange(i as int, all.len() as int),
                name@,
            ),
        decreases all.len() - i,
    {
        if keys[i].key_name == *name {
            return Some(i);
        }
        proof {
            let rest = all.subrange(i as int, all.len() as int);
            assert(rest.subrange(1, rest.len() as int) =~= all.subrange(i + 1, all.len() as int));
        }
        i = i + 1;
    }
    None
}

} // verus!
