use vstd::prelude::*;

verus! {

/// A rectangle in top-left-origin screen coordinates.
#[derive(Debug, Clone, Copy, PartialEq, Eq, Structural)]
pub struct Rect {
    pub x: i32,
    pub y: i32,
    pub width: u32,
    pub height: u32,
}

/// The mathematical model of a rectangle: integer origin and extent.
pub struct RectModel {
    pub x: int,
    pub y: int,
    pub width: int,
    pub height: int,
}

impl View for Rect {
    type V = RectModel;

    open spec fn view(&self) -> RectModel {
        RectModel {
            x: self.x as int,
            y: self.y as int,
            width: self.width as int,
            height: self.height as int,
        }
    }
}

impl RectModel {
    /// The right and bottom edges can be expressed as `i32` coordinates.
    pub open spec fn edges_fit(self) -> bool {
        &&& self.x + self.width <= i32::MAX
        &&& self.y + self.height <= i32::MAX
    }

    /// `inner` lies entirely inside `self`.
    pub open spec fn contains(self, inner: RectModel) -> bool {
        &&& inner.x >= self.x
        &&& inner.y >= self.y
        &&& inner.x + inner.width <= self.x + self.width
        &&& inner.y + inner.height <= self.y + self.height
    }

    /// The two rectangles share no interior point.
    pub open spec fn disjoint(self, other: RectModel) -> bool {
        ||| self.x + self.width <= other.x
        ||| other.x + other.width <= self.x
        ||| self.y + self.height <= other.y
        ||| other.y + other.height <= self.y
    }

    /// The point `(px, py)` lies in the rectangle: the left and top edges are
    /// inside, the right and bottom edges are not.
    pub open spec fn contains_point(self, px: int, py: int) -> bool {
        &&& self.x <= px < self.x + self.width
        &&& self.y <= py < self.y + self.height
    }
}

impl Rect {
    pub fn new(x: i32, y: i32, width: u32, height: u32) -> (r: Rect)
        ensures
            r.x == x,
            r.y == y,
            r.width == width,
            r.height == height,
    {
        Rect { x, y, width, height }
    }

    /// Whether the right and bottom edges are representable coordinates.
    pub fn edges_fit(&self) -> (r: bool)
        ensures
            r == self@.edges_fit(),
    {
        (self.x as i64) + (self.width as i64) <= i32::MAX as i64
            && (self.y as i64) + (self.height as i64) <= i32::MAX as i64
    }
}

/// Platform-specific window handle.
#[derive(Debug, Clone, Copy, PartialEq, Eq, Structural)]
pub enum WindowHandle {
    Windows(isize),
    MacOS(u32),
    Linux(u64),
}

/// A snapshot of a window: its handle, its title and its frame.
#[derive(Debug, Clone)]
pub struct Window {
    pub handle: WindowHandle,
    pub title: String,
    pub frame: Rect,
}

/// A display/monitor.
#[derive(Debug, Clone)]
pub struct Display {
    pub name: String,
    /// The full bounds of the display.
    pub bounds: Rect,
    /// The usable work area (excluding taskbar/dock/menubar).
    pub work_area: Rect,
    pub is_primary: bool,
}

/// The snap positions supported by the application.
#[derive(Debug, Clone, Copy, PartialEq, Eq, Structural)]
pub enum SnapPosition {
    LeftHalf,
    RightHalf,
    TopHalf,
    BottomHalf,
    TopLeft,
    TopRight,
    BottomLeft,
    BottomRight,
    Center,
    Maximize,
    LeftThird,
    CenterThird,
    RightThird,
    LeftTwoThirds,
    RightTwoThirds,
}

/// The region that `pos` occupies inside the work area `wa`. All divisions
/// truncate, so odd extents leave a remainder of one pixel.
pub open spec fn frame_of(pos: SnapPosition, wa: RectModel) -> RectModel {
    let x = wa.x;
    let y = wa.y;
    let w = wa.width;
    let h = wa.height;
    match pos {
        SnapPosition::LeftHalf => RectModel { x, y, width: w / 2, height: h },
        SnapPosition::RightHalf => RectModel { x: x + w / 2, y, width: w / 2, height: h },
        SnapPosition::TopHalf => RectModel { x, y, width: w, height: h / 2 },
        SnapPosition::BottomHalf => RectModel { x, y: y + h / 2, width: w, height: h / 2 },
        SnapPosition::TopLeft => RectModel { x, y, width: w / 2, height: h / 2 },
        SnapPosition::TopRight => RectModel { x: x + w / 2, y, width: w / 2, height: h / 2 },
        SnapPosition::BottomLeft => RectModel { x, y: y + h / 2, width: w / 2, height: h / 2 },
        SnapPosition::BottomRight => RectModel {
            x: x + w / 2,
            y: y + h / 2,
            width: w / 2,
            height: h / 2,
        },
        SnapPosition::Center => RectModel {
            x: x + (w - w * 2 / 3) / 2,
            y: y + (h - h * 2 / 3) / 2,
            width: w * 2 / 3,
            height: h * 2 / 3,
        },
        SnapPosition::Maximize => wa,
        SnapPosition::LeftThird => RectModel { x, y, width: w / 3, height: h },
        SnapPosition::CenterThird => RectModel { x: x + w / 3, y, width: w / 3, height: h },
        SnapPosition::RightThird => RectModel { x: x + w * 2 / 3, y, width: w / 3, height: h },
        SnapPosition::LeftTwoThirds => RectModel { x, y, width: w * 2 / 3, height: h },
        SnapPosition::RightTwoThirds => RectModel { x: x + w / 3, y, width: w * 2 / 3, height: h },
    }
}

/// `base + delta` as a coordinate, where the sum is known to fit.
fn shifted(base: i32, delta: u64) -> (r: i32)
    requires
        base + delta <= i32::MAX,
    ensures
        r == base + delta,
{
    ((base as i64) + (delta as i64)) as i32
}

impl SnapPosition {
    /// Calculate the frame for this snap position within the given work area.
    pub fn calculate_frame(&self, work_area: &Rect) -> (r: Rect)
        requires
            work_area@.edges_fit(),
        ensures
            r@ == frame_of(*self, work_area@),
    {
        let x = work_area.x;
        let y = work_area.y;
        let w = work_area.width as u64;
        let h = work_area.height as u64;
        let half_w = w / 2;
        let half_h = h / 2;
        let third_w = w / 3;
        let two_thirds_w = w * 2 / 3;
        let two_thirds_h = h * 2 / 3;
        assert(two_thirds_w <= w && two_thirds_h <= h) by (nonlinear_arith)
            requires
                two_thirds_w == w * 2 / 3,
                two_thirds_h == h * 2 / 3,
        ;

        match self {
            SnapPosition::LeftHalf => Rect::new(x, y, half_w as u32, h as u32),
            SnapPosition::RightHalf => Rect::new(shifted(x, half_w), y, half_w as u32, h as u32),
            SnapPosition::TopHalf => Rect::new(x, y, w as u32, half_h as u32),
            SnapPosition::BottomHalf => Rect::new(x, shifted(y, half_h), w as u32, half_h as u32),
            SnapPosition::TopLeft => Rect::new(x, y, half_w as u32, half_h as u32),
            SnapPosition::TopRight => Rect::new(
                shifted(x, half_w),
                y,
                half_w as u32,
                half_h as u32,
            ),
            SnapPosition::BottomLeft => Rect::new(
                x,
                shifted(y, half_h),
                half_w as u32,
                half_h as u32,
            ),
            SnapPosition::BottomRight => Rect::new(
                shifted(x, half_w),
                shifted(y, half_h),
                half_w as u32,
                half_h as u32,
            ),
            SnapPosition::Center => Rect::new(
                shifted(x, (w - two_thirds_w) / 2),
                shifted(y, (h - two_thirds_h) / 2),
                two_thirds_w as u32,
                two_thirds_h as u32,
            ),
            SnapPosition::Maximize => Rect::new(x, y, w as u32, h as u32),
            SnapPosition::LeftThird => Rect::new(x, y, third_w as u32, h as u32),
            SnapPosition::CenterThird => Rect::new(shifted(x, third_w), y, third_w as u32, h as u32),
            SnapPosition::RightThird => Rect::new(
                shifted(x, two_thirds_w),
                y,
                third_w as u32,
                h as u32,
            ),
            SnapPosition::LeftTwoThirds => Rect::new(x, y, two_thirds_w as u32, h as u32),
            SnapPosition::RightTwoThirds => Rect::new(
                shifted(x, third_w),
                y,
                two_thirds_w as u32,
                h as u32,
            ),
        }
    }
}

/// The identifier of a position, as menu items and the configuration
/// file name it.
pub open spec fn id_of(pos: SnapPosition) -> Seq<char> {
    match pos {
        SnapPosition::LeftHalf => "left_half"@,
        SnapPosition::RightHalf => "right_half"@,
        SnapPosition::TopHalf => "top_half"@,
        SnapPosition::BottomHalf => "bottom_half"@,
        SnapPosition::TopLeft => "top_left"@,
        SnapPosition::TopRight => "top_right"@,
        SnapPosition::BottomLeft => "bottom_left"@,
        SnapPosition::BottomRight => "bottom_right"@,
        SnapPosition::Center => "center"@,
        SnapPosition::Maximize => "maximize"@,
        SnapPosition::LeftThird => "left_third"@,
        SnapPosition::CenterThird => "center_third"@,
        SnapPosition::RightThird => "right_third"@,
        SnapPosition::LeftTwoThirds => "left_two_thirds"@,
        SnapPosition::RightTwoThirds => "right_two_thirds"@,
    }
}

impl SnapPosition {
    /// Every position, in declaration order.
    pub fn all() -> (r: Vec<SnapPosition>)
        ensures
            r@ == seq![
                SnapPosition::LeftHalf,
                SnapPosition::RightHalf,
                SnapPosition::TopHalf,
                SnapPosition::BottomHalf,
                SnapPosition::TopLeft,
                SnapPosition::TopRight,
                SnapPosition::BottomLeft,
                SnapPosition::BottomRight,
                SnapPosition::Center,
                SnapPosition::Maximize,
                SnapPosition::LeftThird,
                SnapPosition::CenterThird,
                SnapPosition::RightThird,
                SnapPosition::LeftTwoThirds,
                SnapPosition::RightTwoThirds,
            ],
            forall|p: SnapPosition| r@.contains(p),
    {
        let r = vec![
            SnapPosition::LeftHalf,
            SnapPosition::RightHalf,
            SnapPosition::TopHalf,
            SnapPosition::BottomHalf,
            SnapPosition::TopLeft,
            SnapPosition::TopRight,
            SnapPosition::BottomLeft,
            SnapPosition::BottomRight,
            SnapPosition::Center,
            SnapPosition::Maximize,
            SnapPosition::LeftThird,
            SnapPosition::CenterThird,
            SnapPosition::RightThird,
            SnapPosition::LeftTwoThirds,
            SnapPosition::RightTwoThirds,
        ];
        assert(forall|p: SnapPosition| r@.contains(p)) by {
            assert forall|p: SnapPosition| r@.contains(p) by {
                match p {
                    SnapPosition::LeftHalf => assert(r@[0] == p),
                    SnapPosition::RightHalf => assert(r@[1] == p),
                    SnapPosition::TopHalf => assert(r@[2] == p),
                    SnapPosition::BottomHalf => assert(r@[3] == p),
                    SnapPosition::TopLeft => assert(r@[4] == p),
                    SnapPosition::TopRight => assert(r@[5] == p),
                    SnapPosition::BottomLeft => assert(r@[6] == p),
                    SnapPosition::BottomRight => assert(r@[7] == p),
                    SnapPosition::Center => assert(r@[8] == p),
                    SnapPosition::Maximize => assert(r@[9] == p),
                    SnapPosition::LeftThird => assert(r@[10] == p),
                    SnapPosition::CenterThird => assert(r@[11] == p),
                    SnapPosition::RightThird => assert(r@[12] == p),
                    SnapPosition::LeftTwoThirds => assert(r@[13] == p),
                    SnapPosition::RightTwoThirds => assert(r@[14] == p),
                }
            }
        }
        r
    }

    /// The identifier of this position.
    pub fn id(&self) -> (r: &'static str)
        ensures
            r@ == id_of(*self),
    {
        match self {
            SnapPosition::LeftHalf => "left_half",
            SnapPosition::RightHalf => "right_half",
            SnapPosition::TopHalf => "top_half",
            SnapPosition::BottomHalf => "bottom_half",
            SnapPosition::TopLeft => "top_left",
            SnapPosition::TopRight => "top_right",
            SnapPosition::BottomLeft => "bottom_left",
            SnapPosition::BottomRight => "bottom_right",
            SnapPosition::Center => "center",
            SnapPosition::Maximize => "maximize",
            SnapPosition::LeftThird => "left_third",
            SnapPosition::CenterThird => "center_third",
            SnapPosition::RightThird => "right_third",
            SnapPosition::LeftTwoThirds => "left_two_thirds",
            SnapPosition::RightTwoThirds => "right_two_thirds",
        }
    }

    /// The position with identifier `id`, if there is one.
    pub fn from_id(id: &str) -> (r: Option<SnapPosition>)
        ensures
            r matches Some(p) ==> id_of(p) == id@,
            r is None ==> forall|p: SnapPosition| id_of(p) != id@,
    {
        let key = id.to_owned();
        if key == "left_half".to_owned() {
            return Some(SnapPosition::LeftHalf);
        }
        if key == "right_half".to_owned() {
            return Some(SnapPosition::RightHalf);
        }
        if key == "top_half".to_owned() {
            return Some(SnapPosition::TopHalf);
        }
        if key == "bottom_half".to_owned() {
            return Some(SnapPosition::BottomHalf);
        }
        if key == "top_left".to_owned() {
            return Some(SnapPosition::TopLeft);
        }
        if key == "top_right".to_owned() {
            return Some(SnapPosition::TopRight);
        }
        if key == "bottom_left".to_owned() {
            return Some(SnapPosition::BottomLeft);
        }
        if key == "bottom_right".to_owned() {
            return Some(SnapPosition::BottomRight);
        }
        if key == "center".to_owned() {
            return Some(SnapPosition::Center);
        }
        if key == "maximize".to_owned() {
            return Some(SnapPosition::Maximize);
        }
        if key == "left_third".to_owned() {
            return Some(SnapPosition::LeftThird);
        }
        if key == "center_third".to_owned() {
            return Some(SnapPosition::CenterThird);
        }
        if key == "right_third".to_owned() {
            return Some(SnapPosition::RightThird);
        }
        if key == "left_two_thirds".to_owned() {
            return Some(SnapPosition::LeftTwoThirds);
        }
        if key == "right_two_thirds".to_owned() {
            return Some(SnapPosition::RightTwoThirds);
        }
        assert forall|p: SnapPosition| id_of(p) != id@ by {
            match p {
                SnapPosition::LeftHalf => {},
                SnapPosition::RightHalf => {},
                SnapPosition::TopHalf => {},
                SnapPosition::BottomHalf => {},
                SnapPosition::TopLeft => {},
                SnapPosition::TopRight => {},
                SnapPosition::BottomLeft => {},
                SnapPosition::BottomRight => {},
                SnapPosition::Center => {},
                SnapPosition::Maximize => {},
                SnapPosition::LeftThird => {},
                SnapPosition::CenterThird => {},
                SnapPosition::RightThird => {},
                SnapPosition::LeftTwoThirds => {},
                SnapPosition::RightTwoThirds => {},
            }
        }
        None
    }
}

} // verus!
