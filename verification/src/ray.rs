//! Rays and the box they are cast through.
//!
//! Positions are points of an integer lattice, as fine as the caller makes
//! it. The box is centred at the origin; a point `p` lies in it when
//! `-size <= 2 * p <= size` on every axis. A ray is the set of points
//! `origin + t * direction` for `t >= 0`.

use vstd::prelude::*;
use crate::ratio::{lemma_le_transitive, Fraction, Ratio};

verus! {

/// A point of the lattice, or a displacement between two of them.
#[derive(Clone, Copy, PartialEq, Eq, Structural, Debug, Hash)]
pub struct Point {
    /// Along the first axis.
    pub x: i16,
    /// Along the second axis.
    pub y: i16,
    /// Along the third axis.
    pub z: i16,
}

/// The full size of the box along each axis.
#[derive(Clone, Copy, PartialEq, Eq, Structural, Debug, Hash)]
pub struct Extent {
    /// Along the first axis.
    pub x: u16,
    /// Along the second axis.
    pub y: u16,
    /// Along the third axis.
    pub z: u16,
}

/// A ray from `origin` along `direction`. The length of `direction` does not
/// matter, only where it points.
#[derive(Clone, Copy, PartialEq, Eq, Structural, Debug, Hash)]
pub struct Ray {
    /// Where the ray starts: the position of the viewer.
    pub origin: Point,
    /// Where the ray heads: from the viewer towards the fragment.
    pub direction: Point,
}

/// The part of a ray inside the box: the parameters at which it enters and
/// leaves.
#[derive(Clone, Copy, PartialEq, Eq, Structural, Debug)]
pub struct Span {
    /// Where the ray enters, or zero where it starts inside.
    pub near: Fraction,
    /// Where the ray leaves.
    pub exit: Fraction,
}

/// The parameter at which a ray moving along an axis enters the slab of the
/// box on that axis.
pub open spec fn slab_near(o: int, d: int, s: int) -> Ratio
    recommends
        d != 0,
{
    if d > 0 {
        Ratio { num: -s - 2 * o, den: 2 * d }
    } else {
        Ratio { num: 2 * o - s, den: -2 * d }
    }
}

/// The parameter at which a ray moving along an axis leaves the slab of the
/// box on that axis.
pub open spec fn slab_exit(o: int, d: int, s: int) -> Ratio
    recommends
        d != 0,
{
    if d > 0 {
        Ratio { num: s - 2 * o, den: 2 * d }
    } else {
        Ratio { num: 2 * o + s, den: -2 * d }
    }
}

/// The axis leaves the ray room: the box has thickness there, and a ray that
/// does not move along the axis lies within the slab.
pub open spec fn axis_open(o: int, d: int, s: int) -> bool {
    s > 0 && (d == 0 ==> -s <= 2 * o <= s)
}

/// The entry parameter so far, moved on by one more axis.
pub open spec fn clip_near(near: Ratio, o: int, d: int, s: int) -> Ratio {
    if d == 0 {
        near
    } else {
        near.later(slab_near(o, d, s))
    }
}

/// The exit parameter so far, if any axis has set one, brought in by one more
/// axis.
pub open spec fn clip_exit(exit: Option<Ratio>, o: int, d: int, s: int) -> Option<Ratio> {
    if d == 0 {
        exit
    } else {
        match exit {
            None => Some(slab_exit(o, d, s)),
            Some(e) => Some(e.sooner(slab_exit(o, d, s))),
        }
    }
}

/// On one axis, the point of the ray at parameter `tn / td` lies within the
/// slab of the box.
pub open spec fn axis_inside(o: int, d: int, s: int, tn: int, td: int) -> bool {
    -(s * td) <= 2 * (o * td + tn * d) <= s * td
}

impl Ray {
    /// The point of the ray at parameter `tn / td` lies in the box.
    pub open spec fn inside_at(self, size: Extent, tn: int, td: int) -> bool {
        &&& axis_inside(self.origin.x as int, self.direction.x as int, size.x as int, tn, td)
        &&& axis_inside(self.origin.y as int, self.direction.y as int, size.y as int, tn, td)
        &&& axis_inside(self.origin.z as int, self.direction.z as int, size.z as int, tn, td)
    }

    /// Some point of the ray lies in the box.
    pub open spec fn meets(self, size: Extent) -> bool {
        exists|tn: int, td: int| td > 0 && tn >= 0 && #[trigger] self.inside_at(size, tn, td)
    }

    /// Every axis leaves the ray room.
    pub open spec fn admitted(self, size: Extent) -> bool {
        &&& axis_open(self.origin.x as int, self.direction.x as int, size.x as int)
        &&& axis_open(self.origin.y as int, self.direction.y as int, size.y as int)
        &&& axis_open(self.origin.z as int, self.direction.z as int, size.z as int)
    }

    /// The latest entry into a slab, and not before the origin.
    pub open spec fn near(self, size: Extent) -> Ratio {
        clip_near(
            clip_near(
                clip_near(
                    Ratio { num: 0, den: 1 },
                    self.origin.x as int,
                    self.direction.x as int,
                    size.x as int,
                ),
                self.origin.y as int,
                self.direction.y as int,
                size.y as int,
            ),
            self.origin.z as int,
            self.direction.z as int,
            size.z as int,
        )
    }

    /// The earliest exit from a slab; none for a ray that points nowhere.
    pub open spec fn exit(self, size: Extent) -> Option<Ratio> {
        clip_exit(
            clip_exit(
                clip_exit(
                    None,
                    self.origin.x as int,
                    self.direction.x as int,
                    size.x as int,
                ),
                self.origin.y as int,
                self.direction.y as int,
                size.y as int,
            ),
            self.origin.z as int,
            self.direction.z as int,
            size.z as int,
        )
    }

    /// The part of the ray inside the box, where that part has length: entry
    /// and exit parameter. A ray that misses the box, only touches it, leaves
    /// it behind or points nowhere has none, nor has any ray through a box
    /// without thickness.
    pub open spec fn span(self, size: Extent) -> Option<(Ratio, Ratio)> {
        if !self.admitted(size) {
            None
        } else {
            match self.exit(size) {
                None => None,
                Some(exit) => if self.near(size).lt(exit) {
                    Some((self.near(size), exit))
                } else {
                    None
                },
            }
        }
    }
}

/// Entry and exit of one axis's slab, for a ray that moves along the axis.
fn slab(o: i16, d: i16, s: u16) -> (ends: (Fraction, Fraction))
    requires
        d != 0,
    ensures
        ends.0@ == slab_near(o as int, d as int, s as int),
        ends.1@ == slab_exit(o as int, d as int, s as int),
        ends.0@.small(),
        ends.1@.small(),
{
    let origin: i64 = o as i64;
    let step: i64 = d as i64;
    let size: i64 = s as i64;
    if step > 0 {
        (
            Fraction { num: -size - 2 * origin, den: 2 * step },
            Fraction { num: size - 2 * origin, den: 2 * step },
        )
    } else {
        (
            Fraction { num: 2 * origin - size, den: -(2 * step) },
            Fraction { num: 2 * origin + size, den: -(2 * step) },
        )
    }
}

/// The exit parameter held so far, as a ratio.
spec fn exit_view(exit: Option<Fraction>) -> Option<Ratio> {
    match exit {
        Some(e) => Some(e@),
        None => None,
    }
}

/// Narrows entry and exit by one axis; nothing is left where the axis is
/// closed to the ray.
fn clip(near: Fraction, exit: Option<Fraction>, o: i16, d: i16, s: u16) -> (clipped: Option<
    (Fraction, Option<Fraction>),
>)
    requires
        near@.small(),
        exit matches Some(e) ==> e@.small(),
    ensures
        clipped is Some <==> axis_open(o as int, d as int, s as int),
        clipped matches Some((n, e)) ==> {
            &&& n@ == clip_near(near@, o as int, d as int, s as int)
            &&& n@.small()
            &&& exit_view(e) == clip_exit(exit_view(exit), o as int, d as int, s as int)
            &&& e matches Some(x) ==> x@.small()
        },
{
    if s == 0 {
        return None;
    }
    if d == 0 {
        let twice: i64 = 2 * (o as i64);
        if twice < -(s as i64) || twice > s as i64 {
            return None;
        }
        return Some((near, exit));
    }
    let (enter, leave) = slab(o, d, s);
    let near: Fraction = if enter.le(&near) {
        near
    } else {
        enter
    };
    let exit: Fraction = match exit {
        None => leave,
        Some(e) => if e.le(&leave) {
            e
        } else {
            leave
        },
    };
    Some((near, Some(exit)))
}

/// Finds the part of the ray inside the box by intersecting the three slabs,
/// starting not before the origin. Returns nothing where that part has no
/// length.
pub fn ray_box_span(ray: &Ray, size: &Extent) -> (span: Option<Span>)
    ensures
        match span {
            Some(s) => ray.span(*size) == Some((s.near@, s.exit@)),
            None => ray.span(*size) is None,
        },
        span matches Some(s) ==> s.near@.small() && s.exit@.small(),
{
    let start = Fraction { num: 0, den: 1 };
    let (near, exit) = match clip(start, None, ray.origin.x, ray.direction.x, size.x) {
        None => {
            return None;
        },
        Some(c) => c,
    };
    let (near, exit) = match clip(near, exit, ray.origin.y, ray.direction.y, size.y) {
        None => {
            return None;
        },
        Some(c) => c,
    };
    let (near, exit) = match clip(near, exit, ray.origin.z, ray.direction.z, size.z) {
        None => {
            return None;
        },
        Some(c) => c,
    };
    match exit {
        None => None,
        Some(exit) => if near.lt(&exit) {
            Some(Span { near, exit })
        } else {
            None
        },
    }
}

/// On one axis, a parameter between the slab's entry and exit gives a point
/// within the slab.
proof fn lemma_axis_inside(o: int, d: int, s: int, t: Ratio)
    by (nonlinear_arith)
    requires
        s > 0 && (d == 0 ==> -s <= 2 * o <= s),
        t.den > 0,
        d > 0 ==> (-s - 2 * o) * t.den <= t.num * (2 * d) && t.num * (2 * d) <= (s - 2 * o)
            * t.den,
        d < 0 ==> (2 * o - s) * t.den <= t.num * (-2 * d) && t.num * (-2 * d) <= (2 * o + s)
            * t.den,
    ensures
        -(s * t.den) <= 2 * (o * t.den + t.num * d) <= s * t.den,
{
}

/// On one axis, a point within the slab has a parameter between the slab's
/// entry and exit, and where the ray does not move along the axis, the axis
/// is open to it.
proof fn lemma_axis_between(o: int, d: int, s: int, t: Ratio)
    by (nonlinear_arith)
    requires
        s > 0,
        t.den > 0,
        -(s * t.den) <= 2 * (o * t.den + t.num * d) <= s * t.den,
    ensures
        d == 0 ==> -s <= 2 * o <= s,
        d > 0 ==> (-s - 2 * o) * t.den <= t.num * (2 * d) && t.num * (2 * d) <= (s - 2 * o)
            * t.den,
        d < 0 ==> (2 * o - s) * t.den <= t.num * (-2 * d) && t.num * (-2 * d) <= (2 * o + s)
            * t.den,
{
}

impl Ray {
    /// The entry and exit parameters of a span are small, the entry is not
    /// negative, and every slab that the ray moves through is entered by the
    /// entry and left no sooner than the exit.
    pub proof fn lemma_span_within_slabs(self, size: Extent)
        requires
            self.span(size) is Some,
        ensures
            self.span(size) matches Some((near, exit)) && {
                &&& near.small() && exit.small()
                &&& 0 <= near.num
                &&& near.lt(exit)
                &&& self.direction.x != 0 ==> slab_near(
                    self.origin.x as int,
                    self.direction.x as int,
                    size.x as int,
                ).le(near) && exit.le(
                    slab_exit(self.origin.x as int, self.direction.x as int, size.x as int),
                )
                &&& self.direction.y != 0 ==> slab_near(
                    self.origin.y as int,
                    self.direction.y as int,
                    size.y as int,
                ).le(near) && exit.le(
                    slab_exit(self.origin.y as int, self.direction.y as int, size.y as int),
                )
                &&& self.direction.z != 0 ==> slab_near(
                    self.origin.z as int,
                    self.direction.z as int,
                    size.z as int,
                ).le(near) && exit.le(
                    slab_exit(self.origin.z as int, self.direction.z as int, size.z as int),
                )
            },
    {
        let (ox, dx, sx) = (self.origin.x as int, self.direction.x as int, size.x as int);
        let (oy, dy, sy) = (self.origin.y as int, self.direction.y as int, size.y as int);
        let (oz, dz, sz) = (self.origin.z as int, self.direction.z as int, size.z as int);
        let n0 = Ratio { num: 0, den: 1 };
        let n1 = clip_near(n0, ox, dx, sx);
        let n2 = clip_near(n1, oy, dy, sy);
        let n3 = clip_near(n2, oz, dz, sz);
        lemma_le_transitive(n0, n1, n2);
        lemma_le_transitive(n0, n2, n3);
        if dx != 0 {
            lemma_le_transitive(slab_near(ox, dx, sx), n1, n2);
            lemma_le_transitive(slab_near(ox, dx, sx), n2, n3);
        }
        if dy != 0 {
            lemma_le_transitive(slab_near(oy, dy, sy), n2, n3);
        }
        let e1 = clip_exit(None, ox, dx, sx);
        let e2 = clip_exit(e1, oy, dy, sy);
        let e3 = clip_exit(e2, oz, dz, sz);
        let exit = e3->0;
        if dx != 0 {
            lemma_le_transitive(exit, e2->0, slab_exit(ox, dx, sx));
        }
        if dy != 0 {
            lemma_le_transitive(exit, e2->0, slab_exit(oy, dy, sy));
        }
    }

    /// The exit of a span is a point of the ray that lies in the box.
    pub proof fn lemma_span_meets(self, size: Extent)
        requires
            self.span(size) is Some,
        ensures
            self.meets(size),
    {
        self.lemma_span_within_slabs(size);
        let (near, exit) = self.span(size)->0;
        let (ox, dx, sx) = (self.origin.x as int, self.direction.x as int, size.x as int);
        let (oy, dy, sy) = (self.origin.y as int, self.direction.y as int, size.y as int);
        let (oz, dz, sz) = (self.origin.z as int, self.direction.z as int, size.z as int);
        if dx != 0 {
            lemma_le_transitive(slab_near(ox, dx, sx), near, exit);
        }
        if dy != 0 {
            lemma_le_transitive(slab_near(oy, dy, sy), near, exit);
        }
        if dz != 0 {
            lemma_le_transitive(slab_near(oz, dz, sz), near, exit);
        }
        lemma_axis_inside(ox, dx, sx, exit);
        lemma_axis_inside(oy, dy, sy, exit);
        lemma_axis_inside(oz, dz, sz, exit);
        assert(exit.num >= 0) by (nonlinear_arith)
            requires
                0 <= near.num,
                near.den > 0,
                exit.den > 0,
                near.num * exit.den < exit.num * near.den,
        ;
        assert(self.inside_at(size, exit.num, exit.den));
    }

    /// A ray that points somewhere and has two points in a box with
    /// thickness, one further along than the other, has a span in the box.
    pub proof fn lemma_stretch_has_span(self, size: Extent, tn: int, td: int, un: int, ud: int)
        requires
            size.x > 0 && size.y > 0 && size.z > 0,
            self.direction.x != 0 || self.direction.y != 0 || self.direction.z != 0,
            td > 0,
            ud > 0,
            0 <= tn,
            tn * ud < un * td,
            self.inside_at(size, tn, td),
            self.inside_at(size, un, ud),
        ensures
            self.span(size) is Some,
    {
        let (ox, dx, sx) = (self.origin.x as int, self.direction.x as int, size.x as int);
        let (oy, dy, sy) = (self.origin.y as int, self.direction.y as int, size.y as int);
        let (oz, dz, sz) = (self.origin.z as int, self.direction.z as int, size.z as int);
        let t = Ratio { num: tn, den: td };
        let u = Ratio { num: un, den: ud };
        lemma_axis_between(ox, dx, sx, t);
        lemma_axis_between(oy, dy, sy, t);
        lemma_axis_between(oz, dz, sz, t);
        lemma_axis_between(ox, dx, sx, u);
        lemma_axis_between(oy, dy, sy, u);
        lemma_axis_between(oz, dz, sz, u);
        let n0 = Ratio { num: 0, den: 1 };
        let n1 = clip_near(n0, ox, dx, sx);
        let n2 = clip_near(n1, oy, dy, sy);
        let n3 = clip_near(n2, oz, dz, sz);
        assert(n0.le(t)) by (nonlinear_arith)
            requires
                n0 == (Ratio { num: 0, den: 1 }),
                t.num >= 0,
        ;
        let e1 = clip_exit(None, ox, dx, sx);
        let e2 = clip_exit(e1, oy, dy, sy);
        let e3 = clip_exit(e2, oz, dz, sz);
        let exit = e3->0;
        assert(n3.lt(exit)) by (nonlinear_arith)
            requires
                n3.den > 0,
                t.den > 0,
                u.den > 0,
                exit.den > 0,
                n3.num * t.den <= t.num * n3.den,
                t.num * u.den < u.num * t.den,
                u.num * exit.den <= exit.num * u.den,
        ;
    }

    /// A ray of which no point lies in the box has no span in it.
    pub proof fn lemma_miss_has_no_span(self, size: Extent)
        requires
            !self.meets(size),
        ensures
            self.span(size) is None,
    {
        if self.span(size) is Some {
            self.lemma_span_meets(size);
        }
    }
}

} // verus!
