//! The window onto the track: where the camera may stand, and which beat
//! columns have had their gridline drawn.
//!
//! Lengths are whole numbers of one unit, the pixel or any finer one that the
//! presentation layer measures in; `CELL_WIDTH` and `CELL_HEIGHT` are given in
//! it. The x axis is time and the y axis pitch, both growing from 0 at the first
//! gridline and the lowest row.

use crate::pitch::{name_of, Semi, NUM_SEMIS};
use vstd::prelude::*;

verus! {

/// Width of a beat column.
pub const CELL_WIDTH: u32 = 50;

/// Height of a semitone row.
pub const CELL_HEIGHT: u32 = 25;

/// Height of all the semitone rows together.
pub const PITCH_SPAN: u32 = 3000;

/// Where the camera stands: the point of the track at the centre of the
/// window.
#[derive(Clone, Copy, Debug, PartialEq, Eq, Structural)]
pub struct Camera {
    pub x: i64,
    pub y: i64,
}

/// Half the width and half the height of the window.
#[derive(Clone, Copy, Debug, PartialEq, Eq, Structural)]
pub struct Extent {
    pub half_width: u32,
    pub half_height: u32,
}

/// The unit in which a wheel reports its turn.
#[derive(Clone, Copy, Debug, PartialEq, Eq, Structural)]
pub enum ScrollUnit {
    /// Lines, each as high as a semitone row.
    Line,
    /// The unit of the window itself.
    Pixel,
}

/// One turn of the wheel.
#[derive(Clone, Copy, Debug, PartialEq, Eq, Structural)]
pub struct Wheel {
    pub unit: ScrollUnit,
    pub x: i32,
    pub y: i32,
}

/// Beat columns whose gridlines are to be drawn: those past `after`, up to and
/// including `through`. The gridline of column `c` stands at `c * CELL_WIDTH`.
#[derive(Clone, Copy, Debug, PartialEq, Eq, Structural)]
pub struct Columns {
    pub after: u64,
    pub through: u64,
}

impl Columns {
    /// Whether the gridline of `column` is asked for.
    pub open spec fn asks_for(self, column: int) -> bool {
        self.after < column <= self.through
    }
}

/// A semitone row as the window shows it: its gridline runs along the lower
/// edge of the row.
#[derive(Debug)]
pub struct Row {
    pub semi: Semi,
    pub line_y: u32,
    pub name: String,
}

/// The camera's x once it may not show what lies left of the first column.
pub open spec fn clamped_x(x: int, half_width: int) -> int {
    if x < half_width {
        half_width
    } else {
        x
    }
}

/// The camera's y once it may show neither what lies below the lowest row nor
/// what lies above the highest. In a window higher than all the rows both
/// cannot be had, and the lower bound wins.
pub open spec fn clamped_y(y: int, half_height: int) -> int {
    let low = half_height;
    let high = PITCH_SPAN - half_height;
    if y < low || high < low {
        low
    } else if y > high {
        high
    } else {
        y
    }
}

/// The number of beat columns that begin left of the window's right edge when
/// the camera stands at `x`.
pub open spec fn columns_in_view(x: int, half_width: int) -> nat {
    if x + half_width <= 0 {
        0
    } else {
        ((x + half_width) / (CELL_WIDTH as int)) as nat
    }
}

/// How far a turn of the wheel moves the camera along each axis before any
/// key is held: a line counts as one row's height.
pub open spec fn wheel_travel(wheel: Wheel) -> (int, int) {
    match wheel.unit {
        ScrollUnit::Line => (wheel.x * CELL_HEIGHT, wheel.y * CELL_HEIGHT),
        ScrollUnit::Pixel => (wheel.x as int, wheel.y as int),
    }
}

/// Where a turn of the wheel takes the camera before it is clamped. The view
/// moves against the wheel along x and with it along y; with `swap` the two
/// axes of the wheel change places.
pub open spec fn scrolled(camera: Camera, wheel: Wheel, swap: bool) -> (int, int) {
    let (dx, dy) = wheel_travel(wheel);
    if swap {
        (camera.x - dy, camera.y + dx)
    } else {
        (camera.x - dx, camera.y + dy)
    }
}

/// The count after a trigger that requires `required` columns.
pub open spec fn raised(count: nat, required: nat) -> nat {
    if required > count {
        required
    } else {
        count
    }
}

/// The count after a run of triggers, `required[i]` being what the i-th one
/// requires.
pub open spec fn raised_by_all(count: nat, required: Seq<nat>) -> nat
    decreases required.len(),
{
    if required.len() == 0 {
        count
    } else {
        raised(raised_by_all(count, required.drop_last()), required.last())
    }
}

/// The camera for the point `(x, y)`, clamped to the track.
fn clamp_point(x: i128, y: i128, window: Extent) -> (camera: Camera)
    requires
        x <= i64::MAX,
    ensures
        camera.x == clamped_x(x as int, window.half_width as int),
        camera.y == clamped_y(y as int, window.half_height as int),
{
    let half_width: i128 = window.half_width as i128;
    let low: i128 = window.half_height as i128;
    let high: i128 = PITCH_SPAN as i128 - low;
    let cx: i128 = if x < half_width {
        half_width
    } else {
        x
    };
    let cy: i128 = if y < low || high < low {
        low
    } else if y > high {
        high
    } else {
        y
    };
    Camera { x: cx as i64, y: cy as i64 }
}

/// Moves the camera back onto the track: no further left than half a window
/// from the first column, and between half a window above the lowest row and
/// half a window below the highest.
pub fn clamp_cam_pos(pos: &mut Camera, window: Extent)
    ensures
        final(pos).x == clamped_x(old(pos).x as int, window.half_width as int),
        final(pos).y == clamped_y(old(pos).y as int, window.half_height as int),
{
    *pos = clamp_point(pos.x as i128, pos.y as i128, window);
}

/// The number of beat columns that the window requires when the camera stands
/// at `camera_x`.
pub fn required_columns(camera_x: i64, window: Extent) -> (required: u64)
    ensures
        required == columns_in_view(camera_x as int, window.half_width as int),
{
    let right: i128 = camera_x as i128 + window.half_width as i128;
    if right <= 0 {
        0
    } else {
        (right / CELL_WIDTH as i128) as u64
    }
}

/// The number of beat columns whose gridline has been drawn. It never goes
/// down.
#[derive(Debug)]
pub struct ColumnCount {
    drawn: u64,
}

impl View for ColumnCount {
    type V = nat;

    closed spec fn view(&self) -> nat {
        self.drawn as nat
    }
}

impl ColumnCount {
    /// No column drawn yet.
    pub fn new() -> (count: ColumnCount)
        ensures
            count@ == 0,
    {
        ColumnCount { drawn: 0 }
    }

    /// The number of columns drawn.
    pub fn get(&self) -> (drawn: u64)
        ensures
            drawn == self@,
    {
        self.drawn
    }

    /// Raises the count to `required` if that is more, and says which columns
    /// are to be drawn for it: the ones past the old count, none of which has
    /// been asked for before.
    pub fn raise(&mut self, required: u64) -> (columns: Columns)
        ensures
            final(self)@ == raised(old(self)@, required as nat),
            columns.after == old(self)@,
            columns.through == final(self)@,
    {
        let after: u64 = self.drawn;
        if required > self.drawn {
            self.drawn = required;
        }
        Columns { after, through: self.drawn }
    }
}

/// Draws what the window now requires: raises the count to the columns in
/// view from `camera` and says which are new.
pub fn update_column_count(count: &mut ColumnCount, camera: &Camera, window: Extent) -> (columns:
    Columns)
    ensures
        final(count)@ == raised(
            old(count)@,
            columns_in_view(camera.x as int, window.half_width as int),
        ),
        columns.after == old(count)@,
        columns.through == final(count)@,
{
    count.raise(required_columns(camera.x, window))
}

/// The semitone rows from the lowest up, each with the height of its gridline
/// and its name.
pub fn rows() -> (rows: Vec<Row>)
    ensures
        rows@.len() == NUM_SEMIS,
        forall|i: int|
            0 <= i < NUM_SEMIS ==> {
                &&& (#[trigger] rows@[i]).semi.0 == i
                &&& rows@[i].line_y == i * CELL_HEIGHT
                &&& rows@[i].name@ == name_of(i as u8)
            },
{
    let mut rows: Vec<Row> = Vec::new();
    let mut semi: u8 = 0;
    while semi < NUM_SEMIS
        invariant
            semi <= NUM_SEMIS,
            rows@.len() == semi,
            forall|i: int|
                0 <= i < semi ==> {
                    &&& (#[trigger] rows@[i]).semi.0 == i
                    &&& rows@[i].line_y == i * CELL_HEIGHT
                    &&& rows@[i].name@ == name_of(i as u8)
                },
        decreases NUM_SEMIS - semi,
    {
        let line_y: u32 = semi as u32 * CELL_HEIGHT;
        rows.push(Row { semi: Semi(semi), line_y, name: Semi(semi).name() });
        semi += 1;
    }
    rows
}

/// The state at start: the camera at the left end of the track and half way up
/// the rows, and the columns in view from there, all of them new.
pub fn setup(window: Extent) -> (start: (Camera, ColumnCount, Columns))
    ensures
        start.0.x == window.half_width,
        start.0.y == PITCH_SPAN / 2,
        start.1@ == columns_in_view(window.half_width as int, window.half_width as int),
        start.2.after == 0,
        start.2.through == start.1@,
{
    let camera = Camera { x: window.half_width as i64, y: (PITCH_SPAN / 2) as i64 };
    let mut count = ColumnCount::new();
    let columns = update_column_count(&mut count, &camera, window);
    (camera, count, columns)
}

/// The window has been resized: the camera is clamped to the track as the new
/// window shows it, and the columns that have come into view are drawn.
pub fn on_window_resize(count: &mut ColumnCount, camera: &mut Camera, window: Extent) -> (columns:
    Columns)
    ensures
        final(camera).x == clamped_x(old(camera).x as int, window.half_width as int),
        final(camera).y == clamped_y(old(camera).y as int, window.half_height as int),
        final(count)@ == raised(
            old(count)@,
            columns_in_view(final(camera).x as int, window.half_width as int),
        ),
        columns.after == old(count)@,
        columns.through == final(count)@,
{
    clamp_cam_pos(camera, window);
    update_column_count(count, camera, window)
}

/// The wheel has turned: the camera moves, is clamped to the track, and the
/// columns that have come into view are drawn. `swap` is set while a shift key
/// is held.
pub fn scroll(
    count: &mut ColumnCount,
    camera: &mut Camera,
    window: Extent,
    wheel: Wheel,
    swap: bool,
) -> (columns: Columns)
    requires
        scrolled(*old(camera), wheel, swap).0 <= i64::MAX,
    ensures
        final(camera).x == clamped_x(
            scrolled(*old(camera), wheel, swap).0,
            window.half_width as int,
        ),
        final(camera).y == clamped_y(
            scrolled(*old(camera), wheel, swap).1,
            window.half_height as int,
        ),
        final(count)@ == raised(
            old(count)@,
            columns_in_view(final(camera).x as int, window.half_width as int),
        ),
        columns.after == old(count)@,
        columns.through == final(count)@,
{
    let row: i128 = CELL_HEIGHT as i128;
    let (dx, dy): (i128, i128) = match wheel.unit {
        ScrollUnit::Line => {
            assert(wheel.x * row == wheel.x * 25 && wheel.y * row == wheel.y * 25)
                by (nonlinear_arith)
                requires
                    row == 25,
            ;
            (wheel.x as i128 * row, wheel.y as i128 * row)
        },
        ScrollUnit::Pixel => (wheel.x as i128, wheel.y as i128),
    };
    let (x, y): (i128, i128) = if swap {
        (camera.x as i128 - dy, camera.y as i128 + dx)
    } else {
        (camera.x as i128 - dx, camera.y as i128 + dy)
    };
    *camera = clamp_point(x, y, window);
    update_column_count(count, camera, window)
}

/// In a window higher than all the rows together the camera comes to stand at
/// the middle of the window's height, wherever it stood.
pub proof fn lemma_tall_window(y: int, half_height: int)
    requires
        2 * half_height > PITCH_SPAN,
    ensures
        clamped_y(y, half_height) == half_height,
{
}

/// In a window no higher than the rows, the camera stays between half a window
/// above the lowest row and half a window below the highest, and stays where
/// it is if it stood there already.
pub proof fn lemma_clamp_within(y: int, half_height: int)
    requires
        0 <= 2 * half_height <= PITCH_SPAN,
    ensures
        half_height <= clamped_y(y, half_height) <= PITCH_SPAN - half_height,
        half_height <= y <= PITCH_SPAN - half_height ==> clamped_y(y, half_height) == y,
{
}

/// The count never goes down: after more triggers it is at least what it was
/// after fewer.
pub proof fn lemma_count_monotonic(count: nat, required: Seq<nat>, earlier: int, later: int)
    requires
        0 <= earlier <= later <= required.len(),
    ensures
        count <= raised_by_all(count, required.take(earlier)) <= raised_by_all(
            count,
            required.take(later),
        ),
    decreases later,
{
    if later == 0 {
        assert(required.take(0).len() == 0);
    } else {
        assert(required.take(later).drop_last() =~= required.take(later - 1));
        if earlier < later {
            lemma_count_monotonic(count, required, earlier, later - 1);
        } else {
            lemma_count_monotonic(count, required, earlier - 1, later - 1);
        }
    }
}

/// No gridline is asked for twice: a column that a trigger asks for lies past
/// the count as it stood before that trigger and before every earlier one, and
/// so past every column that an earlier trigger asked for.
pub proof fn lemma_columns_drawn_once(
    count: nat,
    required: Seq<nat>,
    earlier: int,
    later: int,
    column: int,
)
    requires
        0 <= earlier <= later < required.len(),
        raised_by_all(count, required.take(later)) < column <= raised_by_all(
            count,
            required.take(later + 1),
        ),
    ensures
        column > raised_by_all(count, required.take(earlier)),
        earlier < later ==> column > raised_by_all(count, required.take(earlier + 1)),
{
    lemma_count_monotonic(count, required, earlier, later);
    if earlier < later {
        lemma_count_monotonic(count, required, earlier + 1, later);
    }
}

} // verus!
