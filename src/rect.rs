use vstd::prelude::*;

verus! {

/// A coordinate type: totally ordered, copyable, with a distance between any
/// two of its values that fits in a `u64`.
pub trait Num: Copy + Sized {
    /// The mathematical value of a coordinate.
    spec fn val(&self) -> int;

    /// Two coordinates with the same value are the same coordinate.
    proof fn lemma_val_injective(a: Self, b: Self)
        ensures
            a.val() == b.val() ==> a == b,
    ;

    fn le(&self, other: &Self) -> (r: bool)
        ensures
            r == (self.val() <= other.val()),
    ;

    /// The distance from `self` up to `upper`.
    fn span_to(&self, upper: &Self) -> (r: u64)
        requires
            self.val() <= upper.val(),
        ensures
            r == upper.val() - self.val(),
    ;
}

impl Num for i32 {
    open spec fn val(&self) -> int {
        *self as int
    }

    proof fn lemma_val_injective(a: Self, b: Self) {
    }

    fn le(&self, other: &Self) -> (r: bool) {
        *self <= *other
    }

    fn span_to(&self, upper: &Self) -> (r: u64) {
        (*upper as i64 - *self as i64) as u64
    }
}

impl Num for i64 {
    open spec fn val(&self) -> int {
        *self as int
    }

    proof fn lemma_val_injective(a: Self, b: Self) {
    }

    fn le(&self, other: &Self) -> (r: bool) {
        *self <= *other
    }

    fn span_to(&self, upper: &Self) -> (r: u64) {
        (*upper as i128 - *self as i128) as u64
    }
}

impl Num for u32 {
    open spec fn val(&self) -> int {
        *self as int
    }

    proof fn lemma_val_injective(a: Self, b: Self) {
    }

    fn le(&self, other: &Self) -> (r: bool) {
        *self <= *other
    }

    fn span_to(&self, upper: &Self) -> (r: u64) {
        (*upper - *self) as u64
    }
}

impl Num for u64 {
    open spec fn val(&self) -> int {
        *self as int
    }

    proof fn lemma_val_injective(a: Self, b: Self) {
    }

    fn le(&self, other: &Self) -> (r: bool) {
        *self <= *other
    }

    fn span_to(&self, upper: &Self) -> (r: u64) {
        *upper - *self
    }
}

/// The smaller of two coordinates (the first one on a tie).
pub open spec fn min_of<T: Num>(a: T, b: T) -> T {
    if a.val() <= b.val() {
        a
    } else {
        b
    }
}

/// The larger of two coordinates (the second one on a tie).
pub open spec fn max_of<T: Num>(a: T, b: T) -> T {
    if a.val() <= b.val() {
        b
    } else {
        a
    }
}

#[derive(Debug, Clone, Copy, PartialEq, Eq)]
pub struct Point<T: Num> {
    pub x: T,
    pub y: T,
}

#[derive(Debug, Clone, Copy, PartialEq, Eq)]
pub struct Rect<T: Num> {
    top_left: Point<T>,
    bottom_right: Point<T>,
}

/// The rectangle spanned by two corner points, whichever corners they are.
pub closed spec fn rect_from<T: Num>(a: Point<T>, b: Point<T>) -> Rect<T> {
    Rect {
        top_left: Point { x: min_of(a.x, b.x), y: min_of(a.y, b.y) },
        bottom_right: Point { x: max_of(a.x, b.x), y: max_of(a.y, b.y) },
    }
}

impl<T: Num> Point<T> {
    /// Normalizes two corner points into a rectangle by component-wise
    /// minimum and maximum.
    pub fn to_rect(&self, other: Point<T>) -> (r: Rect<T>)
        ensures
            r == rect_from(*self, other),
            r.spec_top_left() == (Point { x: min_of(self.x, other.x), y: min_of(self.y, other.y) }),
            r.spec_bottom_right() == (Point { x: max_of(self.x, other.x), y: max_of(self.y, other.y) }),
            r.wf(),
    {
        let min_x = if self.x.le(&other.x) { self.x } else { other.x };
        let min_y = if self.y.le(&other.y) { self.y } else { other.y };
        let max_x = if self.x.le(&other.x) { other.x } else { self.x };
        let max_y = if self.y.le(&other.y) { other.y } else { self.y };
        let top_left = Point { x: min_x, y: min_y };
        let bottom_right = Point { x: max_x, y: max_y };
        Rect { top_left, bottom_right }
    }
}

impl<T: Num> Rect<T> {
    /// The top-left corner lies left of and above the bottom-right one.
    pub open spec fn wf(&self) -> bool {
        &&& self.spec_top_left().x.val() <= self.spec_bottom_right().x.val()
        &&& self.spec_top_left().y.val() <= self.spec_bottom_right().y.val()
    }

    pub closed spec fn spec_top_left(&self) -> Point<T> {
        self.top_left
    }

    pub closed spec fn spec_bottom_right(&self) -> Point<T> {
        self.bottom_right
    }

    pub open spec fn spec_width(&self) -> int {
        self.spec_bottom_right().x.val() - self.spec_top_left().x.val()
    }

    pub open spec fn spec_height(&self) -> int {
        self.spec_bottom_right().y.val() - self.spec_top_left().y.val()
    }

    pub fn width(&self) -> (r: u64)
        requires
            self.wf(),
        ensures
            r == self.spec_width(),
    {
        self.top_left.x.span_to(&self.bottom_right.x)
    }

    pub fn height(&self) -> (r: u64)
        requires
            self.wf(),
        ensures
            r == self.spec_height(),
    {
        self.top_left.y.span_to(&self.bottom_right.y)
    }

    pub fn origin(&self) -> (r: &Point<T>)
        ensures
            *r == self.spec_top_left(),
    {
        &self.top_left
    }
}

/// Normalization does not depend on the order in which the two corners are
/// given: drawing in any direction yields the same rectangle.
pub proof fn lemma_rect_from_symmetric<T: Num>(a: Point<T>, b: Point<T>)
    ensures
        rect_from(a, b) == rect_from(b, a),
{
    T::lemma_val_injective(a.x, b.x);
    T::lemma_val_injective(a.y, b.y);
}

/// A rectangle is determined by its two corners.
pub proof fn lemma_rect_ext<T: Num>(a: Rect<T>, b: Rect<T>)
    requires
        a.spec_top_left() == b.spec_top_left(),
        a.spec_bottom_right() == b.spec_bottom_right(),
    ensures
        a == b,
{
}

/// The corners of the rectangle spanned by two points.
pub proof fn lemma_rect_from_corners<T: Num>(a: Point<T>, b: Point<T>)
    ensures
        rect_from(a, b).spec_top_left() == (Point { x: min_of(a.x, b.x), y: min_of(a.y, b.y) }),
        rect_from(a, b).spec_bottom_right() == (Point { x: max_of(a.x, b.x), y: max_of(a.y, b.y) }),
{
}

/// The two corners of either diagonal span the same rectangle.
pub proof fn lemma_rect_from_diagonals<T: Num>(a: Point<T>, b: Point<T>)
    ensures
        rect_from(a, b) == rect_from(Point { x: a.x, y: b.y }, Point { x: b.x, y: a.y }),
{
    T::lemma_val_injective(a.x, b.x);
    T::lemma_val_injective(a.y, b.y);
}

} // verus!
