//! Bar state machine and delta-time physics.
//!
//! Positions and heights are in thousandths of a pixel, delta-times in
//! microseconds and speeds in thousandths of a pixel per second.
use vstd::prelude::*;

use crate::types::Color;

verus! {

/// Microseconds in one second.
pub const MICROS_PER_SECOND: i64 = 1_000_000;

/// Height of a freshly pressed bar: one pixel.
pub const INITIAL_BAR_HEIGHT: i64 = 1000;

/// Clamps a mathematical integer into the range of `i64`.
pub open spec fn saturate(x: int) -> i64 {
    if x > i64::MAX {
        i64::MAX
    } else if x < i64::MIN {
        i64::MIN
    } else {
        x as i64
    }
}

/// Distance travelled in `dt` microseconds at `speed` thousandths of a pixel
/// per second, rounded down.
pub open spec fn travel(speed: u32, dt: i64) -> int {
    speed as int * dt as int / MICROS_PER_SECOND as int
}

/// One press-to-release (or still held) visual segment.
#[derive(Clone, Copy, Debug, PartialEq, Eq, Structural)]
pub struct Bar {
    pub y_position: i64,
    pub height: i64,
    pub color: Color,
    pub pressed_color: Color,
}

impl Bar {
    /// The bar moved up by `delta`.
    pub open spec fn moved(self, delta: int) -> Bar {
        Bar {
            y_position: saturate(self.y_position + delta),
            height: self.height,
            color: self.color,
            pressed_color: self.pressed_color,
        }
    }

    /// The bar stretched by `delta`.
    pub open spec fn stretched(self, delta: int) -> Bar {
        Bar {
            y_position: self.y_position,
            height: saturate(self.height + delta),
            color: self.color,
            pressed_color: self.pressed_color,
        }
    }

    /// Whether the bar is still inside a window of the given height.
    pub open spec fn visible_in(self, window_height: i64) -> bool {
        self.y_position <= window_height
    }
}

/// The mathematical state of a bar column.
pub ghost struct ColumnState {
    pub bars: Seq<Bar>,
    pub press_count: u64,
    pub is_held: bool,
    pub color: Color,
}

/// Every bar of `bars` moved up by `delta`.
pub open spec fn all_moved(bars: Seq<Bar>, delta: int) -> Seq<Bar> {
    bars.map_values(|b: Bar| b.moved(delta))
}

/// Keeps the bars of `bars` that are inside a window of the given height.
pub open spec fn visible_bars(bars: Seq<Bar>, window_height: i64) -> Seq<Bar> {
    bars.filter(visible_pred(window_height))
}

/// The predicate of the bars inside a window of the given height.
pub open spec fn visible_pred(window_height: i64) -> spec_fn(Bar) -> bool {
    |b: Bar| b.visible_in(window_height)
}

impl ColumnState {
    /// A column with no bars, not held, never pressed.
    pub open spec fn fresh(color: Color) -> ColumnState {
        ColumnState { bars: Seq::empty(), press_count: 0, is_held: false, color }
    }

    /// The bar that a press appends.
    pub open spec fn new_bar(self) -> Bar {
        Bar {
            y_position: 0,
            height: INITIAL_BAR_HEIGHT,
            color: self.color,
            pressed_color: self.color.pressed_spec(),
        }
    }

    /// The column after a key press.
    pub open spec fn pressed(self) -> ColumnState {
        ColumnState {
            bars: self.bars.push(self.new_bar()),
            press_count: if self.press_count < u64::MAX {
                (self.press_count + 1) as u64
            } else {
                u64::MAX
            },
            is_held: true,
            color: self.color,
        }
    }

    /// The column after a key release.
    pub open spec fn released(self) -> ColumnState {
        ColumnState { is_held: false, ..self }
    }

    /// The bars after advancing by `dt` at `speed`: all move up, and the last
    /// one grows while the column is held. Nothing changes unless `dt > 0`.
    pub open spec fn advanced_bars(self, dt: i64, speed: u32) -> Seq<Bar> {
        if dt <= 0 {
            self.bars
        } else {
            let moved = all_moved(self.bars, travel(speed, dt));
            if self.is_held && moved.len() > 0 {
                moved.update(moved.len() - 1, moved.last().stretched(travel(speed, dt)))
            } else {
                moved
            }
        }
    }

    /// The column after advancing by `dt` at `speed`.
    pub open spec fn advanced(self, dt: i64, speed: u32) -> ColumnState {
        ColumnState { bars: self.advanced_bars(dt, speed), ..self }
    }

    /// The column with the bars beyond `window_height` removed.
    pub open spec fn culled(self, window_height: i64) -> ColumnState {
        ColumnState { bars: visible_bars(self.bars, window_height), ..self }
    }
}

/// The bars, press counter and held state of one key.
#[derive(Clone, Debug)]
pub struct BarColumn {
    pub bars: Vec<Bar>,
    pub press_count: u64,
    pub is_held: bool,
    pub color: Color,
}

impl View for BarColumn {
    type V = ColumnState;

    open spec fn view(&self) -> ColumnState {
        ColumnState {
            bars: self.bars@,
            press_count: self.press_count,
            is_held: self.is_held,
            color: self.color,
        }
    }
}

impl BarColumn {
    /// Creates an empty column whose bars take the given color.
    pub fn new(color: Color) -> (c: BarColumn)
        ensures
            c@ == ColumnState::fresh(color),
    {
        BarColumn { bars: Vec::new(), press_count: 0, is_held: false, color }
    }

    /// Starts a new bar at the origin and marks the column held.
    pub fn on_key_press(&mut self)
        ensures
            final(self)@ == old(self)@.pressed(),
    {
        let bar = Bar {
            y_position: 0,
            height: INITIAL_BAR_HEIGHT,
            color: self.color,
            pressed_color: self.color.pressed(),
        };
        self.bars.push(bar);
        self.press_count = self.press_count.saturating_add(1);
        self.is_held = true;
    }

    /// Marks the column released.
    pub fn on_key_release(&mut self)
        ensures
            final(self)@ == old(self)@.released(),
    {
        self.is_held = false;
    }

    /// Moves every bar up by `bar_speed * dt`, and stretches the last bar by
    /// the same amount while the column is held. A `dt <= 0` changes nothing.
    pub fn update(&mut self, dt: i64, bar_speed: u32)
        ensures
            final(self)@ == old(self)@.advanced(dt, bar_speed),
    {
        if dt <= 0 {
            return;
        }
        let speed: i128 = bar_speed as i128;
        let span: i128 = dt as i128;
        assert(0 <= speed * span <= u32::MAX as int * i64::MAX as int) by (nonlinear_arith)
            requires
                0 <= speed <= u32::MAX,
                0 < span <= i64::MAX,
        ;
        let delta: i128 = speed * span / MICROS_PER_SECOND as i128;
        assert(delta == travel(bar_speed, dt));
        assert(0 <= delta <= u32::MAX as int * i64::MAX as int);
        let ghost start = self.bars@;
        let n = self.bars.len();
        let mut i: usize = 0;
        while i < n
            invariant
                n == start.len(),
                self.bars@.len() == n,
                0 <= i <= n,
                0 <= delta <= u32::MAX as int * i64::MAX as int,
                forall|j: int| 0 <= j < i ==> self.bars@[j] == start[j].moved(delta as int),
                forall|j: int| i <= j < n ==> self.bars@[j] == start[j],
                self.press_count == old(self).press_count,
                self.is_held == old(self).is_held,
                self.color == old(self).color,
            decreases n - i,
        {
            let mut bar = self.bars[i];
            bar.y_position = clamp_to_i64(bar.y_position as i128 + delta);
            self.bars.set(i, bar);
            i = i + 1;
        }
        assert(self.bars@ =~= all_moved(start, delta as int));
        if self.is_held && n > 0 {
            let mut last = self.bars[n - 1];
            last.height = clamp_to_i64(last.height as i128 + delta);
            self.bars.set(n - 1, last);
        }
        assert(self.bars@ =~= old(self)@.advanced_bars(dt, bar_speed));
    }

    /// Removes the bars whose `y_position` exceeds `window_height`, keeping
    /// the order of the others.
    pub fn remove_offscreen(&mut self, window_height: i64)
        ensures
            final(self)@ == old(self)@.culled(window_height),
    {
        let ghost pred = visible_pred(window_height);
        let mut kept: Vec<Bar> = Vec::new();
        let n = self.bars.len();
        let mut i: usize = 0;
        while i < n
            invariant
                n == self.bars@.len(),
                0 <= i <= n,
                pred == visible_pred(window_height),
                kept@ == self.bars@.subrange(0, i as int).filter(pred),
            decreases n - i,
        {
            let bar = self.bars[i];
            proof {
                assert(self.bars@.subrange(0, i + 1) =~= self.bars@.subrange(0, i as int).push(
                    bar,
                ));
                self.bars@.subrange(0, i as int).lemma_filter_push(bar, pred);
            }
            if bar.y_position <= window_height {
                kept.push(bar);
            }
            i = i + 1;
        }
        assert(self.bars@.subrange(0, n as int) =~= self.bars@);
        self.bars = kept;
    }
}

/// The columns of all keys pressed so far, and the speed at which bars travel.
///
/// Columns are kept in the order of their keys' first presses; each key has
/// at most one column.
#[derive(Debug)]
pub struct BarManager {
    keys: Vec<String>,
    columns: Vec<BarColumn>,
    bar_speed: u32,
}

impl BarManager {
    /// Keys and columns pair up, and no key appears twice.
    pub closed spec fn wf(&self) -> bool {
        &&& self.keys@.len() == self.columns@.len()
        &&& forall|i: int, j: int|
            0 <= i < j < self.keys@.len() ==> self.keys@[i]@ != self.keys@[j]@
    }

    /// The speed at which bars travel, in thousandths of a pixel per second.
    pub closed spec fn speed(&self) -> u32 {
        self.bar_speed
    }

    /// The speed at which bars travel, in thousandths of a pixel per second.
    pub fn bar_speed(&self) -> (r: u32)
        ensures
            r == self.speed(),
    {
        self.bar_speed
    }

    /// Changes the travel speed; the columns stay as they are.
    pub fn set_bar_speed(&mut self, bar_speed: u32)
        requires
            old(self).wf(),
        ensures
            final(self).wf(),
            final(self).speed() == bar_speed,
            final(self).view() == old(self).view(),
    {
        let ghost before = *self;
        self.bar_speed = bar_speed;
        assert(self.keys == before.keys && self.columns == before.columns);
        assert forall|k: Seq<char>|
            self.has_key(k) == before.has_key(k) && self.index_of(k) == before.index_of(k) by {}
        assert(self.view() =~= before.view());
    }

    /// Whether `k` names one of the columns.
    spec fn has_key(&self, k: Seq<char>) -> bool {
        exists|i: int| 0 <= i < self.keys@.len() && self.keys@[i]@ == k
    }

    /// The index of the column of `k`.
    spec fn index_of(&self, k: Seq<char>) -> int {
        choose|i: int| 0 <= i < self.keys@.len() && self.keys@[i]@ == k
    }

    /// The columns, by key.
    pub closed spec fn view(&self) -> Map<Seq<char>, ColumnState> {
        Map::new(|k: Seq<char>| self.has_key(k), |k: Seq<char>| self.columns@[self.index_of(k)]@)
    }

    proof fn lemma_index_of(&self, i: int)
        requires
            self.wf(),
            0 <= i < self.keys@.len(),
        ensures
            self.has_key(self.keys@[i]@),
            self.index_of(self.keys@[i]@) == i,
    {
        let k = self.keys@[i]@;
        assert(self.has_key(k));
        let j = self.index_of(k);
        if j != i {
            if j < i {
                assert(self.keys@[j]@ != self.keys@[i]@);
            } else {
                assert(self.keys@[i]@ != self.keys@[j]@);
            }
        }
    }

    /// Creates a manager with no columns.
    pub fn new(bar_speed: u32) -> (m: BarManager)
        ensures
            m.wf(),
            m.view() == Map::<Seq<char>, ColumnState>::empty(),
            m.speed() == bar_speed,
    {
        let m = BarManager { keys: Vec::new(), columns: Vec::new(), bar_speed };
        assert(m.view() =~= Map::<Seq<char>, ColumnState>::empty());
        m
    }

    /// The number of columns, one per key ever pressed.
    pub fn column_count(&self) -> (n: usize)
        requires
            self.wf(),
        ensures
            n == self.view().dom().len(),
    {
        proof {
            let names = self.keys@.map_values(|k: String| k@);
            assert(names.no_duplicates()) by {
                assert forall|i: int, j: int|
                    0 <= i < names.len() && 0 <= j < names.len() && i != j implies names[i]
                    != names[j] by {
                    if i < j {
                        assert(self.keys@[i]@ != self.keys@[j]@);
                    } else {
                        assert(self.keys@[j]@ != self.keys@[i]@);
                    }
                }
            }
            names.unique_seq_to_set();
            assert forall|k: Seq<char>| names.to_set().contains(k) == self.has_key(k) by {
                if self.has_key(k) {
                    let i = self.index_of(k);
                    assert(names[i] == k);
                }
            }
            assert(self.view().dom() =~= names.to_set());
        }
        self.keys.len()
    }

    /// The index of the column of `key`, if there is one.
    fn find(&self, key: &String) -> (r: Option<usize>)
        requires
            self.wf(),
        ensures
            match r {
                Some(i) => i < self.keys@.len() && self.keys@[i as int]@ == key@,
                None => !self.has_key(key@),
            },
    {
        let mut i: usize = 0;
        while i < self.keys.len()
            invariant
                self.wf(),
                0 <= i <= self.keys@.len(),
                forall|j: int| 0 <= j < i ==> self.keys@[j]@ != key@,
            decreases self.keys@.len() - i,
        {
            if self.keys[i] == *key {
                return Some(i);
            }
            i = i + 1;
        }
        None
    }

    /// The column of `key`, if it was ever pressed.
    pub fn column(&self, key: &str) -> (r: Option<&BarColumn>)
        requires
            self.wf(),
        ensures
            match r {
                Some(c) => self.view().contains_key(key@) && c@ == self.view()[key@],
                None => !self.view().contains_key(key@),
            },
    {
        let k = key.to_owned();
        match self.find(&k) {
            Some(i) => {
                proof {
                    self.lemma_index_of(i as int);
                }
                Some(&self.columns[i])
            },
            None => None,
        }
    }

    /// Records a press of `key`: creates its column with `color` if it has
    /// none, then starts a new bar in it.
    pub fn on_key_press(&mut self, key: &str, color: Color)
        requires
            old(self).wf(),
        ensures
            final(self).wf(),
            final(self).speed() == old(self).speed(),
            final(self).view() == old(self).view().insert(
                key@,
                (if old(self).view().contains_key(key@) {
                    old(self).view()[key@]
                } else {
                    ColumnState::fresh(color)
                }).pressed(),
            ),
    {
        let k = key.to_owned();
        let ghost before = *self;
        match self.find(&k) {
            Some(i) => {
                proof {
                    before.lemma_index_of(i as int);
                }
                let mut column = self.columns.remove(i);
                column.on_key_press();
                self.columns.insert(i, column);
                proof {
                    assert(self.columns@ =~= before.columns@.update(i as int, column));
                    assert forall|j: int| 0 <= j < self.keys@.len() implies self.index_of(
                        self.keys@[j]@,
                    ) == j by {
                        self.lemma_index_of(j);
                    }
                    assert forall|j: int| 0 <= j < before.keys@.len() implies before.index_of(
                        before.keys@[j]@,
                    ) == j by {
                        before.lemma_index_of(j);
                    }
                    assert(self.view() =~= before.view().insert(
                        key@,
                        before.view()[key@].pressed(),
                    ));
                }
            },
            None => {
                let mut column = BarColumn::new(color);
                column.on_key_press();
                self.keys.push(k);
                self.columns.push(column);
                proof {
                    assert forall|j: int| 0 <= j < self.keys@.len() implies self.index_of(
                        self.keys@[j]@,
                    ) == j by {
                        self.lemma_index_of(j);
                    }
                    assert forall|j: int| 0 <= j < before.keys@.len() implies before.index_of(
                        before.keys@[j]@,
                    ) == j by {
                        before.lemma_index_of(j);
                    }
                    let n = before.keys@.len();
                    assert(self.keys@[n as int]@ == key@);
                    assert forall|k2: Seq<char>|
                        #[trigger] self.has_key(k2) == (before.has_key(k2) || k2 == key@) by {
                        if before.has_key(k2) {
                            let j = before.index_of(k2);
                            assert(self.keys@[j] == before.keys@[j]);
                        }
                        if k2 == key@ {
                            assert(self.keys@[n as int]@ == k2);
                        }
                        if self.has_key(k2) && k2 != key@ {
                            let j = self.index_of(k2);
                            assert(j < n);
                            assert(before.keys@[j]@ == k2);
                        }
                    }
                    assert forall|k2: Seq<char>| #[trigger]
                        before.has_key(k2) implies self.index_of(k2) == before.index_of(k2) by {
                        let j = before.index_of(k2);
                        assert(self.keys@[j] == before.keys@[j]);
                    }
                    assert(self.view() =~= before.view().insert(
                        key@,
                        ColumnState::fresh(color).pressed(),
                    ));
                }
            },
        }
    }

    /// Records a release of `key`; a key without a column is ignored.
    pub fn on_key_release(&mut self, key: &str)
        requires
            old(self).wf(),
        ensures
            final(self).wf(),
            final(self).speed() == old(self).speed(),
            final(self).view() == if old(self).view().contains_key(key@) {
                old(self).view().insert(key@, old(self).view()[key@].released())
            } else {
                old(self).view()
            },
    {
        let k = key.to_owned();
        let ghost before = *self;
        match self.find(&k) {
            Some(i) => {
                proof {
                    before.lemma_index_of(i as int);
                }
                let mut column = self.columns.remove(i);
                column.on_key_release();
                self.columns.insert(i, column);
                proof {
                    assert(self.columns@ =~= before.columns@.update(i as int, column));
                    assert forall|j: int| 0 <= j < self.keys@.len() implies self.index_of(
                        self.keys@[j]@,
                    ) == j by {
                        self.lemma_index_of(j);
                    }
                    assert(self.view() =~= before.view().insert(
                        key@,
                        before.view()[key@].released(),
                    ));
                }
            },
            None => {},
        }
    }

    /// Advances every column by `dt` microseconds at the manager's speed.
    pub fn update(&mut self, dt: i64)
        requires
            old(self).wf(),
        ensures
            final(self).wf(),
            final(self).speed() == old(self).speed(),
            final(self).view() == old(self).view().map_values(
                |c: ColumnState| c.advanced(dt, old(self).speed()),
            ),
    {
        let ghost before = *self;
        let n = self.columns.len();
        let mut i: usize = 0;
        while i < n
            invariant
                before.wf(),
                self.keys == before.keys,
                self.bar_speed == before.bar_speed,
                n == self.columns@.len() == before.columns@.len(),
                0 <= i <= n,
                forall|j: int|
                    0 <= j < i ==> self.columns@[j]@ == before.columns@[j]@.advanced(
                        dt,
                        before.bar_speed,
                    ),
                forall|j: int| i <= j < n ==> self.columns@[j] == before.columns@[j],
            decreases n - i,
        {
            let mut column = self.columns.remove(i);
            column.update(dt, self.bar_speed);
            self.columns.insert(i, column);
            i = i + 1;
        }
        proof {
            assert forall|j: int| 0 <= j < self.keys@.len() implies self.index_of(
                self.keys@[j]@,
            ) == j by {
                self.lemma_index_of(j);
            }
            assert(self.view() =~= before.view().map_values(
                |c: ColumnState| c.advanced(dt, before.bar_speed),
            ));
        }
    }

    /// Removes, from every column, the bars beyond `window_height`.
    pub fn remove_offscreen(&mut self, window_height: i64)
        requires
            old(self).wf(),
        ensures
            final(self).wf(),
            final(self).speed() == old(self).speed(),
            final(self).view() == old(self).view().map_values(
                |c: ColumnState| c.culled(window_height),
            ),
    {
        let ghost before = *self;
        let n = self.columns.len();
        let mut i: usize = 0;
        while i < n
            invariant
                before.wf(),
                self.keys == before.keys,
                self.bar_speed == before.bar_speed,
                n == self.columns@.len() == before.columns@.len(),
                0 <= i <= n,
                forall|j: int|
                    0 <= j < i ==> self.columns@[j]@ == before.columns@[j]@.culled(window_height),
                forall|j: int| i <= j < n ==> self.columns@[j] == before.columns@[j],
            decreases n - i,
        {
            let mut column = self.columns.remove(i);
            column.remove_offscreen(window_height);
            self.columns.insert(i, column);
            i = i + 1;
        }
        proof {
            assert forall|j: int| 0 <= j < self.keys@.len() implies self.index_of(
                self.keys@[j]@,
            ) == j by {
                self.lemma_index_of(j);
            }
            assert(self.view() =~= before.view().map_values(
                |c: ColumnState| c.culled(window_height),
            ));
        }
    }
}

/// A non-positive delta-time leaves every column, and so every bar's
/// position and height, unchanged.
pub proof fn lemma_no_time_no_motion(
    columns: Map<Seq<char>, ColumnState>,
    dt: i64,
    speed: u32,
)
    requires
        dt <= 0,
    ensures
        columns.map_values(|c: ColumnState| c.advanced(dt, speed)) == columns,
{
    assert(columns.map_values(|c: ColumnState| c.advanced(dt, speed)) =~= columns);
}

/// With a positive delta-time, the last bar of a held column grows by exactly
/// the distance travelled, while every other bar keeps its height: the other
/// bars of that column, and the bars of the other columns, none of which is
/// held. (A held column grows its own last bar too.)
pub proof fn lemma_held_bar_grows(
    columns: Map<Seq<char>, ColumnState>,
    key: Seq<char>,
    dt: i64,
    speed: u32,
)
    requires
        dt > 0,
        columns.contains_key(key),
        columns[key].is_held,
        columns[key].bars.len() > 0,
        columns[key].bars.last().height + travel(speed, dt) <= i64::MAX,
        forall|k: Seq<char>| #[trigger] columns.contains_key(k) && k != key ==> !columns[k].is_held,
    ensures
        ({
            let after = columns.map_values(|c: ColumnState| c.advanced(dt, speed));
            let before = columns[key].bars;
            &&& after[key].bars.len() == before.len()
            &&& after[key].bars.last().height == before.last().height + travel(speed, dt)
            &&& forall|i: int|
                0 <= i < before.len() - 1 ==> #[trigger] after[key].bars[i].height
                    == before[i].height
            &&& forall|k: Seq<char>, i: int|
                #[trigger] columns.contains_key(k) && k != key && 0 <= i < columns[k].bars.len()
                    ==> #[trigger] after[k].bars[i].height == columns[k].bars[i].height
        }),
{
    assert(travel(speed, dt) >= 0) by (nonlinear_arith)
        requires
            dt > 0,
            travel(speed, dt) == speed as int * dt as int / 1_000_000,
    ;
}

/// Culling keeps exactly the bars at or below the window height, and keeps
/// them in the order they had.
pub proof fn lemma_cull_keeps_visible_in_order(column: ColumnState, window_height: i64)
    ensures
        column.culled(window_height).bars == column.bars.filter(
            |b: Bar| b.y_position <= window_height,
        ),
        forall|b: Bar| #[trigger]
            column.culled(window_height).bars.contains(b) <==> (column.bars.contains(b)
                && b.y_position <= window_height),
{
    let pred = visible_pred(window_height);
    assert(pred =~= |b: Bar| b.y_position <= window_height);
    broadcast use vstd::seq_lib::group_filter_ensures;

    assert forall|b: Bar| #[trigger]
        column.culled(window_height).bars.contains(b) <==> (column.bars.contains(b)
            && b.y_position <= window_height) by {
        if column.bars.contains(b) && b.y_position <= window_height {
            let i = choose|i: int| 0 <= i < column.bars.len() && column.bars[i] == b;
            column.bars.lemma_filter_contains(pred, i);
        }
        if column.culled(window_height).bars.contains(b) {
            column.bars.lemma_filter_contains_rev(pred, b);
        }
    }
}

/// Converts an integer to `i64`, saturating at the bounds.
pub(crate) fn clamp_to_i64(x: i128) -> (r: i64)
    ensures
        r == saturate(x as int),
{
    if x > i64::MAX as i128 {
        i64::MAX
    } else if x < i64::MIN as i128 {
        i64::MIN
    } else {
        x as i64
    }
}

} // verus!
