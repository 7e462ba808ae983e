use vstd::prelude::*;

verus! {

/// A pixel position of a captured frame; y grows downwards.
#[derive(Clone, Copy, Debug, PartialEq, Eq, Structural)]
pub struct Point {
    pub x: i32,
    pub y: i32,
}

/// A pixel extent.
#[derive(Clone, Copy, Debug, PartialEq, Eq, Structural)]
pub struct Size {
    pub width: u32,
    pub height: u32,
}

/// An axis-aligned pixel rectangle: `origin` is its top-left corner.
#[derive(Clone, Copy, Debug, PartialEq, Eq, Structural)]
pub struct Rect {
    pub origin: Point,
    pub size: Size,
}

/// An extent read as a signed pixel count, the way it is added to a
/// coordinate: values above `i32::MAX` wrap around to negative ones.
pub open spec fn as_signed(v: u32) -> int {
    if v <= i32::MAX {
        v as int
    } else {
        v as int - 0x1_0000_0000
    }
}

impl Rect {
    /// Right edge (exclusive).
    pub open spec fn right(self) -> int {
        self.origin.x + as_signed(self.size.width)
    }

    /// Bottom edge (exclusive).
    pub open spec fn bottom(self) -> int {
        self.origin.y + as_signed(self.size.height)
    }

    /// The edges of the rectangle are representable as `i32` values.
    pub open spec fn edges_fit(self) -> bool {
        &&& i32::MIN <= self.right() <= i32::MAX
        &&& i32::MIN <= self.bottom() <= i32::MAX
    }

    /// Both extents are at most `i32::MAX`.
    pub open spec fn extents_fit(self) -> bool {
        self.size.width <= i32::MAX && self.size.height <= i32::MAX
    }
}

fn signed_extent(v: u32) -> (s: i64)
    ensures
        s == as_signed(v),
{
    if v <= 0x7fff_ffff {
        v as i64
    } else {
        v as i64 - 0x1_0000_0000
    }
}

fn right_edge(rect: Rect) -> (r: i32)
    requires
        rect.edges_fit(),
    ensures
        r == rect.right(),
{
    (rect.origin.x as i64 + signed_extent(rect.size.width)) as i32
}

fn bottom_edge(rect: Rect) -> (r: i32)
    requires
        rect.edges_fit(),
    ensures
        r == rect.bottom(),
{
    (rect.origin.y as i64 + signed_extent(rect.size.height)) as i32
}

pub open spec fn clamp_int(v: int, lo: int, hi: int) -> int {
    if v < lo {
        lo
    } else if v > hi {
        hi
    } else {
        v
    }
}

/// The part of `rect` inside a `width` x `height` frame, as half-open pixel
/// bounds `(x0, y0, x1, y1)`, or `None` when that part is empty.
pub open spec fn spec_clamp_rect(rect: Rect, width: u32, height: u32) -> Option<(u32, u32, u32, u32)> {
    let x0 = if rect.origin.x < 0 { 0 } else { rect.origin.x as int };
    let y0 = if rect.origin.y < 0 { 0 } else { rect.origin.y as int };
    let x1 = clamp_int(rect.right(), 0, width as int);
    let y1 = clamp_int(rect.bottom(), 0, height as int);
    if x0 >= x1 || y0 >= y1 {
        None
    } else {
        Some((x0 as u32, y0 as u32, x1 as u32, y1 as u32))
    }
}

/// Clip `rect` to a `width` x `height` frame.
pub fn clamp_rect(rect: Rect, width: u32, height: u32) -> (clamped: Option<(u32, u32, u32, u32)>)
    requires
        rect.edges_fit(),
        width <= i32::MAX,
        height <= i32::MAX,
    ensures
        clamped == spec_clamp_rect(rect, width, height),
        clamped matches Some((x0, y0, x1, y1)) ==> x0 < x1 <= width && y0 < y1 <= height,
{
    let x0: i32 = if rect.origin.x < 0 { 0 } else { rect.origin.x };
    let y0: i32 = if rect.origin.y < 0 { 0 } else { rect.origin.y };
    let right: i32 = right_edge(rect);
    let bottom: i32 = bottom_edge(rect);
    let w: i32 = width as i32;
    let h: i32 = height as i32;
    let x1: i32 = if right < 0 { 0 } else if right > w { w } else { right };
    let y1: i32 = if bottom < 0 { 0 } else if bottom > h { h } else { bottom };
    if x0 >= x1 || y0 >= y1 {
        return None;
    }
    Some((x0 as u32, y0 as u32, x1 as u32, y1 as u32))
}

/// Whether two rectangles overlap in at least one pixel.
pub open spec fn spec_rects_intersect(a: Rect, b: Rect) -> bool {
    a.origin.x < b.right() && a.right() > b.origin.x && a.origin.y < b.bottom() && a.bottom()
        > b.origin.y
}

pub fn rects_intersect(a: Rect, b: Rect) -> (r: bool)
    requires
        a.edges_fit(),
        b.edges_fit(),
    ensures
        r == spec_rects_intersect(a, b),
{
    let ax0 = a.origin.x;
    let ay0 = a.origin.y;
    let ax1 = right_edge(a);
    let ay1 = bottom_edge(a);
    let bx0 = b.origin.x;
    let by0 = b.origin.y;
    let bx1 = right_edge(b);
    let by1 = bottom_edge(b);
    ax0 < bx1 && ax1 > bx0 && ay0 < by1 && ay1 > by0
}

/// Whether `point` is one of the pixels of `rect`.
pub open spec fn spec_rect_contains_point(rect: Rect, point: Point) -> bool {
    rect.origin.x <= point.x < rect.right() && rect.origin.y <= point.y < rect.bottom()
}

pub fn rect_contains_point(rect: Rect, point: Point) -> (r: bool)
    requires
        rect.edges_fit(),
    ensures
        r == spec_rect_contains_point(rect, point),
{
    point.x >= rect.origin.x && point.y >= rect.origin.y && point.x < right_edge(rect) && point.y < bottom_edge(
        rect,
    )
}

/// `v` halved, rounding towards zero.
pub open spec fn half_toward_zero(v: int) -> int {
    if v >= 0 {
        v / 2
    } else {
        -((-v) / 2)
    }
}

/// The pixel at the middle of `rect`, each extent read as `as_signed` does
/// and halved towards zero.
pub fn rect_center(rect: Rect) -> (center: Point)
    requires
        i32::MIN <= rect.origin.x + half_toward_zero(as_signed(rect.size.width)) <= i32::MAX,
        i32::MIN <= rect.origin.y + half_toward_zero(as_signed(rect.size.height)) <= i32::MAX,
    ensures
        center.x == rect.origin.x + half_toward_zero(as_signed(rect.size.width)),
        center.y == rect.origin.y + half_toward_zero(as_signed(rect.size.height)),
{
    let w = signed_extent(rect.size.width);
    let h = signed_extent(rect.size.height);
    let hw: i64 = if w >= 0 { w / 2 } else { -((-w) / 2) };
    let hh: i64 = if h >= 0 { h / 2 } else { -((-h) / 2) };
    Point { x: (rect.origin.x as i64 + hw) as i32, y: (rect.origin.y as i64 + hh) as i32 }
}

} // verus!

verus! {

/// The middle of menu row `row_index` of a dropdown whose trigger occupies
/// `control_rect`; rows have the trigger's height and open above the trigger
/// when `open_up`.
pub open spec fn spec_dropdown_menu_row_point(control_rect: Rect, row_index: int, open_up: bool) -> (int, int) {
    let row_height = control_rect.size.height as int;
    let menu_row = row_index + 1;
    let y = if open_up {
        control_rect.origin.y - row_height * menu_row + row_height / 2
    } else {
        control_rect.origin.y + row_height * menu_row + row_height / 2
    };
    (control_rect.origin.x + control_rect.size.width / 2, y)
}

pub fn dropdown_menu_row_point(control_rect: Rect, row_index: usize, open_up: bool) -> (p: Point)
    requires
        control_rect.edges_fit(),
        control_rect.extents_fit(),
        row_index < i32::MAX,
        control_rect.size.height * (row_index + 1) <= i32::MAX,
        open_up ==> i32::MIN <= control_rect.origin.y - control_rect.size.height * (row_index + 1),
        !open_up ==> control_rect.origin.y + control_rect.size.height * (row_index + 1) <= i32::MAX,
        ({
            let (x, y) = spec_dropdown_menu_row_point(control_rect, row_index as int, open_up);
            i32::MIN <= y <= i32::MAX && i32::MIN <= x <= i32::MAX
        }),
    ensures
        (p.x as int, p.y as int) == spec_dropdown_menu_row_point(control_rect, row_index as int, open_up),
{
    let row_height: i32 = control_rect.size.height as i32;
    let menu_row: i32 = row_index as i32 + 1;
    assert(0 <= row_height * menu_row <= i32::MAX) by (nonlinear_arith)
        requires
            0 <= row_height,
            1 <= menu_row,
            row_height * menu_row == control_rect.size.height * (row_index + 1),
            control_rect.size.height * (row_index + 1) <= i32::MAX,
    ;
    let offset: i32 = row_height * menu_row;
    let y: i32 = if open_up {
        control_rect.origin.y - offset + (row_height / 2)
    } else {
        control_rect.origin.y + offset + (row_height / 2)
    };
    Point { x: control_rect.origin.x + (control_rect.size.width as i32 / 2), y }
}

/// The rectangle of an open dropdown menu with `option_count` rows (at least
/// one), each as tall as the trigger (at least one pixel): the menu is at most
/// `window_height` tall, opens above the trigger (not above the window) when
/// `open_up`, and otherwise below it (not below the window).
pub open spec fn spec_dropdown_menu_rect(
    control_rect: Rect,
    option_count: int,
    open_up: bool,
    window_height: int,
) -> Rect {
    let row_height = if control_rect.size.height < 1 { 1 } else { control_rect.size.height as int };
    let menu_height = spec_dropdown_menu_height(control_rect, option_count, window_height);
    let origin_y = if open_up {
        if control_rect.origin.y - menu_height < 0 { 0 } else { control_rect.origin.y - menu_height }
    } else {
        let max_origin = window_height - menu_height;
        let limit = if max_origin < 0 { 0 } else { max_origin };
        if control_rect.origin.y + row_height < limit { control_rect.origin.y + row_height } else { limit }
    };
    Rect {
        origin: Point { x: control_rect.origin.x, y: origin_y as i32 },
        size: Size { width: control_rect.size.width, height: menu_height as u32 },
    }
}

/// Height of an open dropdown menu (see `spec_dropdown_menu_rect`).
pub open spec fn spec_dropdown_menu_height(control_rect: Rect, option_count: int, window_height: int) -> int {
    let row_height = if control_rect.size.height < 1 { 1 } else { control_rect.size.height as int };
    let rows = if option_count < 1 { 1 } else { option_count };
    let product = row_height * rows;
    let unclamped = if product > i32::MAX { i32::MAX as int } else { product };
    if unclamped < window_height { unclamped } else { window_height }
}

pub fn dropdown_menu_rect(control_rect: Rect, option_count: usize, open_up: bool, window_height: u32) -> (menu: Rect)
    requires
        control_rect.edges_fit(),
        control_rect.extents_fit(),
        control_rect.origin.y + control_rect.size.height + 1 <= i32::MAX,
        option_count <= i32::MAX,
        window_height <= i32::MAX,
        open_up ==> i32::MIN <= control_rect.origin.y - spec_dropdown_menu_height(
            control_rect,
            option_count as int,
            window_height as int,
        ),
    ensures
        menu == spec_dropdown_menu_rect(control_rect, option_count as int, open_up, window_height as int),
{
    let row_height: i32 = if control_rect.size.height < 1 { 1 } else { control_rect.size.height as i32 };
    let rows: i32 = if option_count < 1 { 1 } else { option_count as i32 };
    assert(0 <= row_height * rows <= 0x4000_0000_0000_0000) by (nonlinear_arith)
        requires
            1 <= row_height <= i32::MAX,
            1 <= rows <= i32::MAX,
    ;
    let wide: i64 = row_height as i64 * rows as i64;
    assert(wide == row_height * rows);
    let unclamped: i32 = if wide > i32::MAX as i64 { i32::MAX } else { wide as i32 };
    let window: i32 = window_height as i32;
    let menu_height: i32 = if unclamped < window { unclamped } else { window };
    let origin_y: i32 = if open_up {
        let above: i32 = control_rect.origin.y - menu_height;
        if above < 0 { 0 } else { above }
    } else {
        let max_origin: i32 = window - menu_height;
        let limit: i32 = if max_origin < 0 { 0 } else { max_origin };
        let below: i32 = control_rect.origin.y + row_height;
        if below < limit { below } else { limit }
    };
    Rect {
        origin: Point { x: control_rect.origin.x, y: origin_y },
        size: Size { width: control_rect.size.width, height: menu_height as u32 },
    }
}

} // verus!

verus! {

/// The low 16 bits of a coordinate, as an unsigned word.
pub open spec fn spec_low_word(v: i32) -> u32 {
    (v as u16) as u32
}

/// Mouse-message `lParam` bits for `point`: the low word holds x and the high
/// word holds y, each truncated to 16 bits.
pub open spec fn spec_mouse_lparam_bits(point: Point) -> u32 {
    (spec_low_word(point.y) * 65536 + spec_low_word(point.x)) as u32
}

/// Pack `point` into the `lParam` of a mouse message.
pub fn pack_mouse_lparam(point: Point) -> (lparam: isize)
    ensures
        lparam == spec_mouse_lparam_bits(point) as isize,
        spec_mouse_lparam_bits(point) == spec_low_word(point.y) * 65536 + spec_low_word(point.x),
{
    let x: u32 = point.x as i16 as u16 as u32;
    let y: u32 = point.y as i16 as u16 as u32;
    let px = point.x;
    let py = point.y;
    assert(x == spec_low_word(px) && y == spec_low_word(py)) by (bit_vector)
        requires
            x == px as i16 as u16 as u32,
            y == py as i16 as u16 as u32,
    ;
    assert(((y << 16u32) | x) == y * 65536 + x && y * 65536 + x <= u32::MAX) by (bit_vector)
        requires
            x <= 0xffff,
            y <= 0xffff,
    ;
    ((y << 16) | x) as isize
}

} // verus!
