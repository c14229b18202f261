//! Per-frame orchestration: applies pending configuration snapshots, then
//! pending input events, and decides whether the overlay closes.
//!
//! Times are in microseconds of a monotonic clock.
use vstd::prelude::*;

use crate::bars::ColumnState;
use crate::renderer::{pressed_columns, released_columns, Renderer};
use crate::types::{AppConfig, InputEvent, KeyConfig};

verus! {

/// Longest gap between two presses of the cancel key that closes the overlay.
pub const DOUBLE_ESCAPE_INTERVAL: u64 = 400_000;

/// The canonical name of the cancel key.
pub open spec fn escape_key() -> Seq<char> {
    "Escape"@
}

/// Edge-triggered double-tap detector of the cancel key.
///
/// It is idle when `armed_at` is `None`, and armed since that time otherwise.
/// `key_down` tells whether the key is held, so that key repeat is no press.
#[derive(Clone, Copy, Debug, PartialEq, Eq, Structural)]
pub struct DoubleTap {
    pub key_down: bool,
    pub armed_at: Option<u64>,
}

impl DoubleTap {
    /// The detector after a press at `now`, and whether the press closes.
    pub open spec fn pressed_at(self, now: u64) -> (DoubleTap, bool) {
        if self.key_down {
            (self, false)
        } else {
            match self.armed_at {
                Some(previous) if now < previous || now - previous <= DOUBLE_ESCAPE_INTERVAL => (
                    DoubleTap { key_down: true, armed_at: None },
                    true,
                ),
                _ => (DoubleTap { key_down: true, armed_at: Some(now) }, false),
            }
        }
    }

    /// An idle detector with the key up.
    pub fn new() -> (d: DoubleTap)
        ensures
            d == (DoubleTap { key_down: false, armed_at: None }),
    {
        DoubleTap { key_down: false, armed_at: None }
    }

    /// Records a press of the cancel key at `now`; returns whether it is the
    /// second press within the interval.
    pub fn should_close_on_press(&mut self, now: u64) -> (close: bool)
        ensures
            (*final(self), close) == old(self).pressed_at(now),
    {
        if self.key_down {
            return false;
        }
        self.key_down = true;
        match self.armed_at {
            Some(previous) => {
                if now.saturating_sub(previous) <= DOUBLE_ESCAPE_INTERVAL {
                    self.armed_at = None;
                    return true;
                }
            },
            None => {},
        }
        self.armed_at = Some(now);
        false
    }

    /// Records a release of the cancel key; the armed time stays.
    pub fn on_release(&mut self)
        ensures
            *final(self) == (DoubleTap { key_down: false, armed_at: old(self).armed_at }),
    {
        self.key_down = false;
    }
}

/// From an idle detector, a single press never closes, and a second press
/// after a release closes exactly when it comes within the interval of the
/// first (time running forward).
pub proof fn lemma_double_tap_closes(first: u64, second: u64)
    requires
        first <= second,
    ensures
        ({
            let idle = DoubleTap { key_down: false, armed_at: None };
            let (armed, first_closes) = idle.pressed_at(first);
            let released = DoubleTap { key_down: false, armed_at: armed.armed_at };
            let (_, second_closes) = released.pressed_at(second);
            &&& !first_closes
            &&& second_closes == (second - first <= DOUBLE_ESCAPE_INTERVAL)
        }),
{
}

/// What the input events of a frame act on.
pub ghost struct FrameInput {
    pub columns: Map<Seq<char>, ColumnState>,
    pub escape: DoubleTap,
    pub close: bool,
}

/// The effect of one event, with the keys configured in `keys`.
pub open spec fn apply_event(
    keys: Seq<KeyConfig>,
    s: FrameInput,
    event: InputEvent,
    focused: bool,
    now: u64,
) -> FrameInput {
    match event {
        InputEvent::KeyPress(k) => {
            let (escape, fire) = if k@ == escape_key() && focused {
                s.escape.pressed_at(now)
            } else {
                (s.escape, false)
            };
            FrameInput {
                columns: pressed_columns(s.columns, keys, k@),
                escape,
                close: s.close || fire,
            }
        },
        InputEvent::MousePress(k) => FrameInput {
            columns: pressed_columns(s.columns, keys, k@),
            ..s
        },
        InputEvent::KeyRelease(k) => FrameInput {
            columns: released_columns(s.columns, k@),
            escape: if k@ == escape_key() {
                DoubleTap { key_down: false, armed_at: s.escape.armed_at }
            } else {
                s.escape
            },
            close: s.close,
        },
        InputEvent::MouseRelease(k) => FrameInput {
            columns: released_columns(s.columns, k@),
            ..s
        },
    }
}

/// The effect of a sequence of events, in order.
pub open spec fn apply_events(
    keys: Seq<KeyConfig>,
    s: FrameInput,
    events: Seq<InputEvent>,
    focused: bool,
    now: u64,
) -> FrameInput
    decreases events.len(),
{
    if events.len() == 0 {
        s
    } else {
        apply_event(
            keys,
            apply_events(keys, s, events.drop_last(), focused, now),
            events.last(),
            focused,
            now,
        )
    }
}

/// The single-threaded owner of the overlay state, driven once per frame.
#[derive(Debug)]
pub struct Orchestrator {
    pub renderer: Renderer,
    pub escape: DoubleTap,
}

impl Orchestrator {
    /// Starts with a renderer and an idle cancel-key detector.
    pub fn new(renderer: Renderer) -> (o: Orchestrator)
        ensures
            o.renderer == renderer,
            o.escape == (DoubleTap { key_down: false, armed_at: None }),
    {
        Orchestrator { renderer, escape: DoubleTap::new() }
    }

    /// Applies the last of the pending configuration snapshots, if any; the
    /// earlier ones are superseded.
    pub fn process_config_updates(&mut self, configs: Vec<AppConfig>)
        requires
            old(self).renderer.wf(),
        ensures
            final(self).renderer.wf(),
            final(self).escape == old(self).escape,
            final(self).renderer.active_config() == if configs@.len() == 0 {
                old(self).renderer.active_config()
            } else {
                configs@.last()
            },
            final(self).renderer.columns() == old(self).renderer.columns(),
            final(self).renderer.last_frame() == old(self).renderer.last_frame(),
            final(self).renderer.has_font() == old(self).renderer.has_font(),
    {
        let mut configs = configs;
        match configs.pop() {
            Some(config) => self.renderer.set_config(config),
            None => {},
        }
    }

    /// Applies the pending input events in arrival order; returns whether a
    /// double press of the cancel key, while the window has focus, asks to
    /// close.
    pub fn process_input_events(
        &mut self,
        events: Vec<InputEvent>,
        is_window_focused: bool,
        now: u64,
    ) -> (close: bool)
        requires
            old(self).renderer.wf(),
        ensures
            final(self).renderer.wf(),
            final(self).renderer.active_config() == old(self).renderer.active_config(),
            final(self).renderer.last_frame() == old(self).renderer.last_frame(),
            final(self).renderer.has_font() == old(self).renderer.has_font(),
            ({
                let r = apply_events(
                    old(self).renderer.active_config().keys@,
                    FrameInput {
                        columns: old(self).renderer.columns(),
                        escape: old(self).escape,
                        close: false,
                    },
                    events@,
                    is_window_focused,
                    now,
                );
                final(self).renderer.columns() == r.columns && final(self).escape == r.escape
                    && close == r.close
            }),
    {
        let ghost keys = self.renderer.active_config().keys@;
        let ghost start = FrameInput {
            columns: self.renderer.columns(),
            escape: self.escape,
            close: false,
        };
        let ghost cfg = self.renderer.active_config();
        let ghost last = self.renderer.last_frame();
        let ghost font = self.renderer.has_font();
        let escape_name = "Escape".to_owned();
        let mut should_close = false;
        let n = events.len();
        let mut i: usize = 0;
        while i < n
            invariant
                n == events@.len(),
                0 <= i <= n,
                escape_name@ == escape_key(),
                self.renderer.wf(),
                self.renderer.active_config() == cfg,
                self.renderer.last_frame() == last,
                self.renderer.has_font() == font,
                keys == cfg.keys@,
                ({
                    let r = apply_events(keys, start, events@.subrange(0, i as int), is_window_focused, now);
                    self.renderer.columns() == r.columns && self.escape == r.escape
                        && should_close == r.close
                }),
            decreases n - i,
        {
            proof {
                assert(events@.subrange(0, i + 1).drop_last() =~= events@.subrange(0, i as int));
            }
            match &events[i] {
                InputEvent::KeyPress(key) => {
                    if is_window_focused && *key == escape_name {
                        if self.escape.should_close_on_press(now) {
                            should_close = true;
                        }
                    }
                    self.renderer.on_key_press(key.as_str());
                },
                InputEvent::MousePress(key) => {
                    self.renderer.on_key_press(key.as_str());
                },
                InputEvent::KeyRelease(key) => {
                    if *key == escape_name {
                        self.escape.on_release();
                    }
                    self.renderer.on_key_release(key.as_str());
                },
                InputEvent::MouseRelease(key) => {
                    self.renderer.on_key_release(key.as_str());
                },
            }
            i = i + 1;
        }
        proof {
            assert(events@.subrange(0, n as int) =~= events@);
        }
        should_close
    }

    /// One frame's decisions: configuration first, then input; returns
    /// whether the overlay closes, on a double press of the cancel key or an
    /// outside shutdown request.
    pub fn process_frame(
        &mut self,
        configs: Vec<AppConfig>,
        events: Vec<InputEvent>,
        is_window_focused: bool,
        shutdown_requested: bool,
        now: u64,
    ) -> (close: bool)
        requires
            old(self).renderer.wf(),
        ensures
            final(self).renderer.wf(),
            ({
                let cfg = if configs@.len() == 0 {
                    old(self).renderer.active_config()
                } else {
                    configs@.last()
                };
                let r = apply_events(
                    cfg.keys@,
                    FrameInput {
                        columns: old(self).renderer.columns(),
                        escape: old(self).escape,
                        close: false,
                    },
                    events@,
                    is_window_focused,
                    now,
                );
                &&& final(self).renderer.active_config() == cfg
                &&& final(self).renderer.columns() == r.columns
                &&& final(self).escape == r.escape
                &&& close == (r.close || shutdown_requested)
            }),
    {
        self.process_config_updates(configs);
        let from_escape = self.process_input_events(events, is_window_focused, now);
        from_escape || shutdown_requested
    }
}

} // verus!
