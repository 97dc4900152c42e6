//! Definitions of various useful structures: identifiers, positions, sizes and areas.

use vstd::prelude::*;

use crate::enums::{Action, Direction};
use crate::text::{decimal, push_decimal, string_push};
use crate::timing::Milliseconds;
use vstd::math::{max, min};

verus! {

/// Type of surface ID.
pub type SurfaceIdType = u64;

/// Code of a key as reported by the kernel.
pub type KeyCode = u16;

/// Value of a key event (pressed, released, repeated).
pub type KeyValue = i32;

/// Type alias for signal IDs.
pub type SignalId = usize;

/// Value of the surface ID that does not identify any surface.
pub const INVALID_SURFACE_ID: SurfaceIdType = 0;

/// Structure representing surface ID.
#[derive(Clone, Copy, PartialEq, Eq, Structural, Hash, Debug)]
pub struct SurfaceId(pub SurfaceIdType);

impl SurfaceId {
    /// Create new surface ID.
    pub fn new(sid: SurfaceIdType) -> (result: Self)
        ensures
            result.0 == sid,
    {
        SurfaceId(sid)
    }

    /// Create new invalid surface ID.
    pub fn invalid() -> (result: Self)
        ensures
            result.0 == INVALID_SURFACE_ID,
    {
        SurfaceId(INVALID_SURFACE_ID)
    }

    /// Check if the surface ID is valid.
    pub fn is_valid(&self) -> (result: bool)
        ensures
            result == (self.0 != INVALID_SURFACE_ID),
    {
        self.0 != INVALID_SURFACE_ID
    }

    /// Cast surface ID as number.
    pub fn as_number(&self) -> (result: SurfaceIdType)
        ensures
            result == self.0,
    {
        self.0
    }

    /// The text form of the identifier: `SID(` and its number in decimal, then `)`, or
    /// `<invalid>` for the invalid identifier.
    pub open spec fn spec_text(self) -> Seq<char> {
        if self.0 != INVALID_SURFACE_ID {
            seq!['S', 'I', 'D', '('] + decimal(self.0 as nat) + seq![')']
        } else {
            seq!['<', 'i', 'n', 'v', 'a', 'l', 'i', 'd', '>']
        }
    }

    /// Returns the text form of the identifier, as it is displayed.
    pub fn to_text(&self) -> (result: String)
        ensures
            result@ == self.spec_text(),
    {
        let mut text = String::new();
        if self.is_valid() {
            string_push(&mut text, 'S');
            string_push(&mut text, 'I');
            string_push(&mut text, 'D');
            string_push(&mut text, '(');
            push_decimal(&mut text, self.0);
            string_push(&mut text, ')');
            assert(text@ =~= self.spec_text());
        } else {
            proof {
                reveal_strlit("<invalid>");
            }
            text = String::from_str("<invalid>");
            assert(text@ =~= self.spec_text());
        }
        text
    }

    /// Returns the text form of the identifier for debugging output: the same as `to_text`.
    pub fn to_debug_text(&self) -> (result: String)
        ensures
            result@ == self.spec_text(),
    {
        self.to_text()
    }
}

/// Identifier of a memory pool.
#[derive(Clone, Copy, PartialEq, Eq, Structural, Hash, Debug)]
pub struct MemoryPoolId(pub usize);

impl MemoryPoolId {
    /// Returns the first identifier.
    pub fn initial() -> (result: Self)
        ensures
            result.0 == 1,
    {
        MemoryPoolId(1)
    }

    /// Returns the identifier following `id`.
    pub fn incremented(id: &Self) -> (result: Self)
        requires
            id.0 < usize::MAX,
        ensures
            result.0 == id.0 + 1,
    {
        MemoryPoolId(id.0 + 1)
    }

    /// Advances this identifier and returns its new value.
    pub fn increment(&mut self) -> (result: Self)
        requires
            old(self).0 < usize::MAX,
        ensures
            final(self).0 == old(self).0 + 1,
            result == *final(self),
    {
        self.0 = self.0 + 1;
        *self
    }
}

/// Identifier of a memory view.
#[derive(Clone, Copy, PartialEq, Eq, Structural, Hash, Debug)]
pub struct MemoryViewId(pub usize);

impl MemoryViewId {
    /// Returns the first identifier.
    pub fn initial() -> (result: Self)
        ensures
            result.0 == 1,
    {
        MemoryViewId(1)
    }

    /// Returns the identifier following `id`.
    pub fn incremented(id: &Self) -> (result: Self)
        requires
            id.0 < usize::MAX,
        ensures
            result.0 == id.0 + 1,
    {
        MemoryViewId(id.0 + 1)
    }

    /// Advances this identifier and returns its new value.
    pub fn increment(&mut self) -> (result: Self)
        requires
            old(self).0 < usize::MAX,
        ensures
            final(self).0 == old(self).0 + 1,
            result == *final(self),
    {
        self.0 = self.0 + 1;
        *self
    }
}

/// Identifier of a hardware image.
#[derive(Clone, Copy, PartialEq, Eq, Structural, Hash, Debug)]
pub struct HwImageId(pub usize);

impl HwImageId {
    /// Returns the first identifier.
    pub fn initial() -> (result: Self)
        ensures
            result.0 == 1,
    {
        HwImageId(1)
    }

    /// Returns the identifier following `id`.
    pub fn incremented(id: &Self) -> (result: Self)
        requires
            id.0 < usize::MAX,
        ensures
            result.0 == id.0 + 1,
    {
        HwImageId(id.0 + 1)
    }

    /// Advances this identifier and returns its new value.
    pub fn increment(&mut self) -> (result: Self)
        requires
            old(self).0 < usize::MAX,
        ensures
            final(self).0 == old(self).0 + 1,
            result == *final(self),
    {
        self.0 = self.0 + 1;
        *self
    }
}

/// Type defining position, point coordinates or 2D vector.
#[derive(Clone, Copy, Debug, PartialEq, Eq, Structural)]
pub struct Position {
    pub x: isize,
    pub y: isize,
}

/// Point on the screen.
pub type Point = Position;

/// Displacement on the screen.
pub type Vector = Position;

/// Whether `v` lies in the range of `isize`.
pub open spec fn fits_isize(v: int) -> bool {
    isize::MIN <= v <= isize::MAX
}

/// Clamps one coordinate into the range starting at `low` of length `len`, first from below and
/// then from above, as casting a position into an area does.
pub open spec fn cast_coordinate(v: int, low: int, len: int) -> int {
    let raised = if v < low { low } else { v };
    if raised > low + len - 1 { low + len - 1 } else { raised }
}

impl Position {
    /// `Position` constructor.
    pub fn new(x: isize, y: isize) -> (result: Self)
        ensures
            result.x == x,
            result.y == y,
    {
        Position { x: x, y: y }
    }

    /// Check if `Position` points at (0,0).
    pub fn is_zero(&self) -> (result: bool)
        ensures
            result == (self.x == 0 && self.y == 0),
    {
        self.x == 0 && self.y == 0
    }

    /// Check if position is inside given area.
    pub fn is_inside(&self, area: &Area) -> (result: bool)
        requires
            area.margins_fit(),
        ensures
            result == area.spec_contains(*self),
    {
        area.contains(self)
    }

    /// Returns opposite position (with negated coordinates).
    pub fn opposite(&self) -> (result: Self)
        requires
            self.x != isize::MIN,
            self.y != isize::MIN,
        ensures
            result.x == -self.x,
            result.y == -self.y,
    {
        Position { x: -self.x, y: -self.y }
    }

    /// The position `self` casted into `area`.
    pub open spec fn spec_casted(self, area: Area) -> Position {
        if !area.spec_is_zero() {
            Position {
                x: cast_coordinate(self.x as int, area.pos.x as int, area.signed_width()) as isize,
                y: cast_coordinate(self.y as int, area.pos.y as int, area.signed_height()) as isize,
            }
        } else {
            area.pos
        }
    }

    /// Return new position casted into given area.
    /// - if `self` if inside area - return copy of `self`
    /// - if `self` if outside area - return closes point inside area
    pub fn casted(&self, area: &Area) -> (result: Self)
        requires
            !area.spec_is_zero() ==> area.margins_fit() && fits_isize(area.margin_right() - 1)
                && fits_isize(area.margin_bottom() - 1),
        ensures
            result == self.spec_casted(*area),
    {
        let mut position = *self;

        if !area.is_zero() {
            let right = area.pos.x + area.size.width as isize - 1;
            let bottom = area.pos.y + area.size.height as isize - 1;

            if position.x < area.pos.x {
                position.x = area.pos.x;
            }

            if position.x > right {
                position.x = right;
            }

            if position.y < area.pos.y {
                position.y = area.pos.y;
            }

            if position.y > bottom {
                position.y = bottom;
            }
        } else {
            position = area.pos;
        }

        position
    }

    /// Whether adding `other` to `self` stays within the range of coordinates.
    pub open spec fn can_add(self, other: Position) -> bool {
        fits_isize(self.x + other.x) && fits_isize(self.y + other.y)
    }

    /// Whether subtracting `other` from `self` stays within the range of coordinates.
    pub open spec fn can_sub(self, other: Position) -> bool {
        fits_isize(self.x - other.x) && fits_isize(self.y - other.y)
    }

    /// Sum of two positions.
    pub fn add(self, other: Position) -> (result: Position)
        requires
            self.can_add(other),
        ensures
            result.x == self.x + other.x,
            result.y == self.y + other.y,
    {
        Position { x: self.x + other.x, y: self.y + other.y }
    }

    /// Difference of two positions.
    pub fn sub(self, other: Position) -> (result: Position)
        requires
            self.can_sub(other),
        ensures
            result.x == self.x - other.x,
            result.y == self.y - other.y,
    {
        Position { x: self.x - other.x, y: self.y - other.y }
    }
}

impl Default for Position {
    fn default() -> (result: Self)
        ensures
            result.x == 0,
            result.y == 0,
    {
        Position { x: 0, y: 0 }
    }
}

/// Type defining position with optional coordinates.
#[derive(Clone, Copy, Debug, PartialEq, Eq, Structural)]
pub struct OptionalPosition {
    pub x: Option<isize>,
    pub y: Option<isize>,
}

impl OptionalPosition {
    /// `OptionalPosition` constructor.
    pub fn new(x: Option<isize>, y: Option<isize>) -> (result: Self)
        ensures
            result.x == x,
            result.y == y,
    {
        OptionalPosition { x: x, y: y }
    }
}

impl Default for OptionalPosition {
    fn default() -> (result: Self)
        ensures
            result.x is None,
            result.y is None,
    {
        OptionalPosition { x: None, y: None }
    }
}

/// Type defining 2D size, dimensions or resolution.
#[derive(Clone, Copy, Debug, PartialEq, Eq, Structural)]
pub struct Size {
    pub width: usize,
    pub height: usize,
}

impl Size {
    /// `Size` constructor.
    pub fn new(width: usize, height: usize) -> (result: Self)
        ensures
            result.width == width,
            result.height == height,
    {
        Size { width: width, height: height }
    }

    /// Whether both dimensions are zero.
    pub open spec fn spec_is_zero(self) -> bool {
        self.width == 0 && self.height == 0
    }

    /// Check if `Size` has zero size.
    pub fn is_zero(&self) -> (result: bool)
        ensures
            result == self.spec_is_zero(),
    {
        self.width == 0 && self.height == 0
    }
}

impl Default for Size {
    fn default() -> (result: Self)
        ensures
            result.width == 0,
            result.height == 0,
    {
        Size { width: 0, height: 0 }
    }
}

/// Type defining 2D area.
#[derive(Clone, Copy, Debug, PartialEq, Eq, Structural)]
pub struct Area {
    pub pos: Position,
    pub size: Size,
}

impl Area {
    /// Left edge of the area.
    pub open spec fn left(self) -> int {
        self.pos.x as int
    }

    /// Top edge of the area.
    pub open spec fn top(self) -> int {
        self.pos.y as int
    }

    /// First column to the right of the area.
    pub open spec fn right(self) -> int {
        self.pos.x + self.size.width
    }

    /// First row below the area.
    pub open spec fn bottom(self) -> int {
        self.pos.y + self.size.height
    }

    /// Whether the edges of the area can be computed in coordinates: both dimensions fit into
    /// coordinates and so do the far edges.
    pub open spec fn fits(self) -> bool {
        &&& self.size.width <= isize::MAX
        &&& self.size.height <= isize::MAX
        &&& fits_isize(self.right())
        &&& fits_isize(self.bottom())
    }

    /// The width taken as a coordinate, wrapping around where it exceeds `isize::MAX`.
    pub open spec fn signed_width(self) -> int {
        (self.size.width as isize) as int
    }

    /// The height taken as a coordinate, wrapping around where it exceeds `isize::MAX`.
    pub open spec fn signed_height(self) -> int {
        (self.size.height as isize) as int
    }

    /// The right margin as a coordinate: the left edge moved by the signed width.
    pub open spec fn margin_right(self) -> int {
        self.pos.x + self.signed_width()
    }

    /// The bottom margin as a coordinate: the top edge moved by the signed height.
    pub open spec fn margin_bottom(self) -> int {
        self.pos.y + self.signed_height()
    }

    /// Whether the margins of the area can be computed in coordinates.
    pub open spec fn margins_fit(self) -> bool {
        fits_isize(self.margin_right()) && fits_isize(self.margin_bottom())
    }

    /// Whether `pos` lies between the top-left corner and the margins of the area.
    pub open spec fn spec_contains(self, pos: Position) -> bool {
        &&& self.top() <= pos.y
        &&& pos.y < self.margin_bottom()
        &&& self.left() <= pos.x
        &&& pos.x < self.margin_right()
    }

    /// Constructs `Area` from `Position` and `Size`.
    pub fn new(pos: Position, size: Size) -> (result: Self)
        ensures
            result.pos == pos,
            result.size == size,
    {
        Area { pos: pos, size: size }
    }

    /// Constructs `Area` from coordinates and dimensions.
    pub fn create(x: isize, y: isize, width: usize, height: usize) -> (result: Self)
        ensures
            result.pos.x == x,
            result.pos.y == y,
            result.size.width == width,
            result.size.height == height,
    {
        Area { pos: Position::new(x, y), size: Size::new(width, height) }
    }

    /// Return this area but with position set to origin (0,0).
    pub fn rebased(&self) -> (result: Self)
        ensures
            result.pos.x == 0,
            result.pos.y == 0,
            result.size == self.size,
    {
        Area { pos: Position::default(), size: self.size }
    }

    /// Whether the area is empty: one of its dimensions is zero.
    pub open spec fn spec_is_zero(self) -> bool {
        self.size.width == 0 || self.size.height == 0
    }

    /// Check if `Area` has zero area.
    pub fn is_zero(&self) -> (result: bool)
        ensures
            result == self.spec_is_zero(),
    {
        self.size.width == 0 || self.size.height == 0
    }

    /// Check if `Area` contains given position.
    pub fn contains(&self, pos: &Position) -> (result: bool)
        requires
            self.margins_fit(),
        ensures
            result == self.spec_contains(*pos),
    {
        let margin_top = self.pos.y;
        let margin_bottom = self.size.height as isize + margin_top;
        let margin_left = self.pos.x;
        let margin_right = self.size.width as isize + margin_left;

        (margin_top <= pos.y) && (pos.y < margin_bottom) && (margin_left <= pos.x) && (pos.x
            < margin_right)
    }

    /// The center of the area: its position moved by half of its size in each direction.
    pub open spec fn spec_center(self) -> Position {
        Position {
            x: (self.left() + self.size.width / 2) as isize,
            y: (self.top() + self.size.height / 2) as isize,
        }
    }

    /// Whether the center of the area can be computed in coordinates.
    pub open spec fn center_fits(self) -> bool {
        fits_isize(self.left() + self.size.width / 2) && fits_isize(self.top() + self.size.height / 2)
    }

    /// Calculate position in center of the area.
    pub fn calculate_center(&self) -> (result: Position)
        requires
            self.center_fits(),
        ensures
            result == self.spec_center(),
    {
        let half_width = (self.size.width / 2) as isize;
        let half_height = (self.size.height / 2) as isize;
        Position::new(self.pos.x + half_width, self.pos.y + half_height)
    }

    /// Whether every intermediate value computed by `inflate` fits its type.
    pub open spec fn can_inflate(self, area: Area) -> bool {
        &&& self.fits()
        &&& area.fits()
        &&& fits_isize(self.left() - area.left())
        &&& fits_isize(self.top() - area.top())
        &&& fits_isize(area.size.width - self.size.width)
        &&& fits_isize(area.size.width - self.size.width + area.left())
        &&& fits_isize(area.right() - self.right())
        &&& fits_isize(area.size.height - self.size.height)
        &&& fits_isize(area.size.height - self.size.height + area.top())
        &&& fits_isize(area.bottom() - self.bottom())
        &&& self.bounding_width(area) <= usize::MAX
        &&& self.bounding_height(area) <= usize::MAX
    }

    /// Width of the smallest area containing both `self` and `area`.
    pub open spec fn bounding_width(self, area: Area) -> int {
        max(self.right(), area.right()) - min(self.left(), area.left())
    }

    /// Height of the smallest area containing both `self` and `area`.
    pub open spec fn bounding_height(self, area: Area) -> int {
        max(self.bottom(), area.bottom()) - min(self.top(), area.top())
    }

    /// Inflates this `Area` so that it contains passed `area`.
    pub fn inflate(&mut self, area: &Area)
        requires
            old(self).can_inflate(*area),
        ensures
            final(self).left() == min(old(self).left(), area.left()),
            final(self).top() == min(old(self).top(), area.top()),
            final(self).right() == max(old(self).right(), area.right()),
            final(self).bottom() == max(old(self).bottom(), area.bottom()),
            final(self).size.width == old(self).bounding_width(*area),
            final(self).size.height == old(self).bounding_height(*area),
    {
        let old = *self;

        let mut diff: isize = old.pos.x - area.pos.x;
        if diff > 0 {
            self.size.width = self.size.width + diff as usize;
            self.pos.x = area.pos.x;
        }
        diff = old.pos.y - area.pos.y;
        if diff > 0 {
            self.size.height = self.size.height + diff as usize;
            self.pos.y = area.pos.y;
        }
        diff = area.size.width as isize - old.size.width as isize + area.pos.x - old.pos.x;
        if diff > 0 {
            self.size.width = self.size.width + diff as usize;
        }
        diff = area.size.height as isize - old.size.height as isize + area.pos.y - old.pos.y;
        if diff > 0 {
            self.size.height = self.size.height + diff as usize;
        }
    }
}

impl Default for Area {
    fn default() -> (result: Self)
        ensures
            result.pos.x == 0,
            result.pos.y == 0,
            result.size.width == 0,
            result.size.height == 0,
    {
        Area { pos: Position::default(), size: Size::default() }
    }
}

/// Subtracting a position that was added gives back the position one started from.
pub proof fn lemma_sub_undoes_add(p: Position, q: Position)
    requires
        p.can_add(q),
    ensures
        (Position { x: (p.x + q.x) as isize, y: (p.y + q.y) as isize }).can_sub(q),
        (p.x + q.x) - q.x == p.x,
        (p.y + q.y) - q.y == p.y,
{
}

/// The opposite of the opposite of a position is the position itself.
pub proof fn lemma_opposite_involutive(p: Position)
    requires
        p.x != isize::MIN,
        p.y != isize::MIN,
    ensures
        -(-p.x) == p.x,
        -(-p.y) == p.y,
        (-p.x) != isize::MIN,
        (-p.y) != isize::MIN,
{
}

/// Casting any position into an area with both dimensions positive gives a position inside it.
pub proof fn lemma_casted_is_inside(pos: Position, area: Area)
    requires
        0 < area.size.width <= isize::MAX,
        0 < area.size.height <= isize::MAX,
    ensures
        area.spec_contains(pos.spec_casted(area)),
{
}

/// Casting a position that already lies in an area leaves it unchanged.
pub proof fn lemma_casted_inside_is_identity(pos: Position, area: Area)
    requires
        area.fits(),
        area.spec_contains(pos),
    ensures
        pos.spec_casted(area) == pos,
{
}

/// Casting into an area of zero size gives the area's origin.
pub proof fn lemma_casted_into_zero_area(pos: Position, area: Area)
    requires
        area.spec_is_zero(),
    ensures
        pos.spec_casted(area) == area.pos,
{
}

/// An inflated area contains every position contained by either of the two areas.
pub proof fn lemma_inflated_contains_both(before: Area, area: Area, after: Area, pos: Position)
    requires
        before.can_inflate(area),
        after.left() == min(before.left(), area.left()),
        after.top() == min(before.top(), area.top()),
        after.right() == max(before.right(), area.right()),
        after.bottom() == max(before.bottom(), area.bottom()),
        after.size.width <= isize::MAX,
        after.size.height <= isize::MAX,
        before.spec_contains(pos) || area.spec_contains(pos),
    ensures
        after.spec_contains(pos),
{
}

/// Data for button event.
#[derive(Clone, Copy, Debug)]
pub struct Button {
    pub code: u16,
    pub value: i32,
    pub time: Milliseconds,
}

impl Button {
    /// Constructs `Button`.
    pub fn new(code: u16, value: i32, milliseconds: Milliseconds) -> (result: Self)
        ensures
            result.code == code,
            result.value == value,
            result.time == milliseconds,
    {
        Button { code: code, value: value, time: milliseconds }
    }

    /// Constructs `Button` with current time.
    pub fn new_now(code: u16, value: i32) -> (result: Self)
        ensures
            result.code == code,
            result.value == value,
            result.time.spec_value() < 61000,
    {
        Button { code: code, value: value, time: Milliseconds::now() }
    }
}

/// Key event: a button on the keyboard.
pub type Key = Button;

/// Set of informations about output.
#[derive(Clone, Debug)]
pub struct OutputInfo {
    pub id: i32,
    pub area: Area,
    pub physical_size: Size,
    pub refresh_rate: usize,
    pub make: String,
    pub model: String,
}

impl OutputInfo {
    /// Constructs new `OutputInfo`.
    pub fn new(
        id: i32,
        area: Area,
        physical_size: Size,
        refresh_rate: usize,
        make: String,
        model: String,
    ) -> (result: Self)
        ensures
            result.id == id,
            result.area == area,
            result.physical_size == physical_size,
            result.refresh_rate == refresh_rate,
            result.make == make,
            result.model == model,
    {
        OutputInfo {
            id: id,
            area: area,
            physical_size: physical_size,
            refresh_rate: refresh_rate,
            make: make,
            model: model,
        }
    }
}

/// Command context for compositor.
#[derive(Clone, Debug)]
pub struct Command {
    pub action: Action,
    pub direction: Direction,
    pub magnitude: i32,
    pub string: String,
}

/// Abstract value of a command.
pub struct CommandView {
    pub action: Action,
    pub direction: Direction,
    pub magnitude: i32,
    pub string: Seq<char>,
}

impl CommandView {
    /// The empty command.
    pub open spec fn empty() -> CommandView {
        CommandView {
            action: Action::Empty,
            direction: Direction::Empty,
            magnitude: 0,
            string: Seq::<char>::empty(),
        }
    }

    /// This command with its action replaced.
    pub open spec fn with_action(self, action: Action) -> CommandView {
        CommandView { action: action, direction: self.direction, magnitude: self.magnitude, string: self.string }
    }

    /// This command with its direction replaced.
    pub open spec fn with_direction(self, direction: Direction) -> CommandView {
        CommandView { action: self.action, direction: direction, magnitude: self.magnitude, string: self.string }
    }

    /// This command with its magnitude replaced.
    pub open spec fn with_magnitude(self, magnitude: i32) -> CommandView {
        CommandView { action: self.action, direction: self.direction, magnitude: magnitude, string: self.string }
    }

    /// This command with its string replaced.
    pub open spec fn with_string(self, string: Seq<char>) -> CommandView {
        CommandView { action: self.action, direction: self.direction, magnitude: self.magnitude, string: string }
    }
}

impl View for Command {
    type V = CommandView;

    open spec fn view(&self) -> CommandView {
        CommandView {
            action: self.action,
            direction: self.direction,
            magnitude: self.magnitude,
            string: self.string@,
        }
    }
}

impl Default for Command {
    fn default() -> (result: Self)
        ensures
            result@ == CommandView::empty(),
    {
        Command {
            action: Action::Empty,
            direction: Direction::Empty,
            magnitude: 0,
            string: String::new(),
        }
    }
}

} // verus!
