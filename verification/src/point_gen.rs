//! Sampling points on the surface of a mesh.
//!
//! The sampler walks the triangles of a mesh. For each it asks the caller to
//! measure the triangle, rounds the expected number of points to a whole
//! number with one random draw, and asks the caller to place that many
//! points, giving each a brush. What is measured and placed is arithmetic on
//! real numbers and is the caller's; how many points there are, where they
//! come from and in what order they stand is decided here.

use crate::mesh::{Corners, Mesh};
use crate::scalar::{Scalar, Vector2, Vector3};
use vstd::prelude::*;

verus! {

/// A sampled surface point.
#[derive(Clone, Copy, Debug, PartialEq, Eq, Structural)]
pub struct Point {
    pub position: Vector3,
    pub normal: Vector3,
    pub tangent: Vector3,
    pub bitangent: Vector3,
    pub uv: Vector2,
    pub brush_index: i32,
}

/// What the caller measures of a triangle, and what all samples of the
/// triangle share.
#[derive(Clone, Copy, Debug, PartialEq, Eq, Structural)]
pub struct Frame {
    /// The tangent of the triangle, from its texture coordinates.
    pub tangent: Vector3,
    /// The bitangent of the triangle, from its texture coordinates.
    pub bitangent: Vector3,
    /// The area of the triangle.
    pub area: Scalar,
    /// The whole part of the expected number of points, area times density.
    pub whole: usize,
    /// The fractional part of the expected number of points.
    pub remainder: Scalar,
}

/// What the caller computes for one sample of a triangle.
#[derive(Clone, Copy, Debug, PartialEq, Eq, Structural)]
pub struct Placement {
    pub position: Vector3,
    pub normal: Vector3,
    pub uv: Vector2,
}

impl Frame {
    /// Whether the expected number of points is exactly zero. Such a
    /// triangle is passed over without a draw.
    pub open spec fn blank(self) -> bool {
        self.whole == 0 && self.remainder.zero()
    }

    /// Whether no draw can give the triangle a point: nothing whole is
    /// expected, and the remainder is zero or no number.
    pub open spec fn barren(self) -> bool {
        self.whole == 0 && (self.remainder.zero() || self.remainder.nan())
    }

    /// The number of points of the triangle when `draw` is drawn for it: the
    /// whole part of the expectation, and one more where the draw falls
    /// below the remainder.
    pub open spec fn count(self, draw: Scalar) -> int {
        if self.blank() {
            0
        } else {
            rounded(self.whole, self.remainder, draw)
        }
    }

    pub fn is_blank(&self) -> (r: bool)
        ensures
            r == self.blank(),
    {
        self.whole == 0 && self.remainder.is_zero()
    }
}

/// Stochastic rounding of `whole` plus `remainder`: up where `draw` is below
/// the remainder, down where it is not.
pub open spec fn rounded(whole: usize, remainder: Scalar, draw: Scalar) -> int {
    if draw.below(remainder) {
        whole + 1
    } else {
        whole as int
    }
}

/// Rounds an expected count of `whole` plus `remainder` points to a whole
/// number, by one draw that is compared with the remainder. With a draw that
/// is uniform between zero and one, the count is expected to be the
/// expectation.
pub fn stochastic_count(whole: usize, remainder: Scalar, draw: Scalar) -> (count: usize)
    requires
        whole < usize::MAX,
    ensures
        count == rounded(whole, remainder, draw),
{
    if draw.less_than(remainder) {
        whole + 1
    } else {
        whole
    }
}

/// The brush that the raw random number `raw` selects among `num_brushes`:
/// the remainder of the division, as a signed 32-bit number.
pub open spec fn brush_of(raw: u32, num_brushes: u32) -> int {
    let r = (raw as int) % (num_brushes as int);
    if r < 0x8000_0000 {
        r
    } else {
        r - 0x1_0000_0000
    }
}

/// Whether `brush` is what some raw random number selects.
pub open spec fn is_brush(brush: i32, num_brushes: u32) -> bool {
    exists|raw: u32| brush == #[trigger] brush_of(raw, num_brushes)
}

/// The brush that a raw random number selects.
pub fn brush_index(raw: u32, num_brushes: u32) -> (brush: i32)
    requires
        num_brushes > 0,
    ensures
        brush == brush_of(raw, num_brushes),
        num_brushes <= 0x8000_0000 ==> 0 <= brush < num_brushes,
{
    let r: u32 = raw % num_brushes;
    if r < 0x8000_0000 {
        r as i32
    } else {
        (r as i64 - 0x1_0000_0000) as i32
    }
}

/// With no more brushes than a signed 32-bit number can count, the brushes
/// that can be selected are exactly the numbers below `num_brushes`.
pub proof fn lemma_brushes_are_the_range(brush: i32, num_brushes: u32)
    requires
        0 < num_brushes <= 0x8000_0000,
    ensures
        is_brush(brush, num_brushes) <==> 0 <= brush < num_brushes,
{
    if 0 <= brush < num_brushes {
        assert(brush_of(brush as u32, num_brushes) == brush) by {
            assert((brush as int) % (num_brushes as int) == (brush as int)) by (nonlinear_arith)
                requires
                    0 <= brush < num_brushes,
            ;
        }
    }
    if is_brush(brush, num_brushes) {
        let raw = choose|raw: u32| brush == #[trigger] brush_of(raw, num_brushes);
        let r = (raw as int) % (num_brushes as int);
        assert(0 <= r && r < num_brushes as int) by (nonlinear_arith)
            requires
                num_brushes > 0,
                raw >= 0,
                r == (raw as int) % (num_brushes as int),
        ;
    }
}

/// rand's `random`, at `u32`: the next number of the thread's generator.
/// Nothing is claimed of the number.
#[verifier::external_body]
fn random_u32() -> u32 {
    rand::random::<u32>()
}

/// Draws a brush at random.
pub fn pick_brush(num_brushes: u32) -> (brush: i32)
    requires
        num_brushes > 0,
    ensures
        is_brush(brush, num_brushes),
        num_brushes <= 0x8000_0000 ==> 0 <= brush < num_brushes,
{
    let raw = random_u32();
    brush_index(raw, num_brushes)
}

/// Whether `point` is a sample of the triangle with the given corners and
/// frame: placed by `place`, with the tangent and bitangent of the frame and
/// a brush that can be selected.
pub open spec fn is_sample_of<L: Fn(Corners, Frame) -> Placement>(
    point: Point,
    corners: Corners,
    frame: Frame,
    num_brushes: u32,
    place: L,
) -> bool {
    &&& place.ensures(
        (corners, frame),
        Placement { position: point.position, normal: point.normal, uv: point.uv },
    )
    &&& point.tangent == frame.tangent
    &&& point.bitangent == frame.bitangent
    &&& is_brush(point.brush_index, num_brushes)
}

/// Appends `count` samples of one triangle to `points`.
pub fn sample_triangle<L: Fn(Corners, Frame) -> Placement>(
    corners: Corners,
    frame: Frame,
    count: usize,
    num_brushes: u32,
    place: &L,
    points: &mut Vec<Point>,
)
    requires
        num_brushes > 0,
        place.requires((corners, frame)),
    ensures
        final(points)@.len() == old(points)@.len() + count,
        final(points)@.subrange(0, old(points)@.len() as int) == old(points)@,
        forall|i: int|
            old(points)@.len() <= i < final(points)@.len() ==> is_sample_of(
                #[trigger] final(points)@[i],
                corners,
                frame,
                num_brushes,
                *place,
            ),
{
    let mut k: usize = 0;
    while k < count
        invariant
            num_brushes > 0,
            place.requires((corners, frame)),
            k <= count,
            points@.len() == old(points)@.len() + k,
            points@.subrange(0, old(points)@.len() as int) == old(points)@,
            forall|i: int|
                old(points)@.len() <= i < points@.len() ==> is_sample_of(
                    #[trigger] points@[i],
                    corners,
                    frame,
                    num_brushes,
                    *place,
                ),
        decreases count - k,
    {
        let placement = place(corners, frame);
        let brush_index = pick_brush(num_brushes);
        let ghost before = points@;
        points.push(
            Point {
                position: placement.position,
                normal: placement.normal,
                tangent: frame.tangent,
                bitangent: frame.bitangent,
                uv: placement.uv,
                brush_index,
            },
        );
        proof {
            assert(points@.subrange(0, old(points)@.len() as int) =~= before.subrange(
                0,
                old(points)@.len() as int,
            ));
            assert forall|i: int| old(points)@.len() <= i < points@.len() implies is_sample_of(
                #[trigger] points@[i],
                corners,
                frame,
                num_brushes,
                *place,
            ) by {
                if i < before.len() {
                    assert(points@[i] == before[i]);
                }
            }
        }
        k += 1;
    }
}

/// Whether `points` is what sampling yields once the first `done` triangles
/// of `mesh` are through, given what was measured and drawn on the way:
/// `frames[t]` was measured of triangle `t`, `draws[t]` was drawn for it
/// unless its frame is blank, and its samples stand at
/// `offsets[t] .. offsets[t + 1]`, as many as the frame counts for the draw.
pub open spec fn sampled_through<
    M: Fn(Corners) -> Frame,
    D: Fn() -> Scalar,
    L: Fn(Corners, Frame) -> Placement,
>(
    points: Seq<Point>,
    mesh: Mesh,
    num_brushes: u32,
    measure: M,
    draw: D,
    place: L,
    frames: Seq<Frame>,
    draws: Seq<Scalar>,
    offsets: Seq<int>,
    done: int,
) -> bool {
    &&& frames.len() == done
    &&& draws.len() == done
    &&& offsets.len() == done + 1
    &&& offsets[0] == 0
    &&& offsets[done] == points.len()
    &&& forall|t: int|
        0 <= t < done ==> {
            &&& measure.ensures((mesh.corners_of(t),), #[trigger] frames[t])
            &&& !frames[t].blank() ==> draw.ensures((), draws[t])
            &&& offsets[t + 1] == offsets[t] + frames[t].count(draws[t])
        }
    &&& forall|t: int, i: int|
        0 <= t < done && offsets[t] <= i < offsets[t + 1] ==> #[trigger] is_sample_of(
            points[i],
            mesh.corners_of(t),
            frames[t],
            num_brushes,
            place,
        )
}

/// Whether `points` is a sampling of the whole of `mesh`: for some frames
/// that `measure` can return and some numbers that `draw` can return, the
/// samples of the triangles stand one triangle after the other, in the order
/// of the index list, each triangle with the count that its frame and draw
/// give.
pub open spec fn is_sampling<
    M: Fn(Corners) -> Frame,
    D: Fn() -> Scalar,
    L: Fn(Corners, Frame) -> Placement,
>(points: Seq<Point>, mesh: Mesh, num_brushes: u32, measure: M, draw: D, place: L) -> bool {
    exists|frames: Seq<Frame>, draws: Seq<Scalar>, offsets: Seq<int>|
        sampled_through(
            points,
            mesh,
            num_brushes,
            measure,
            draw,
            place,
            frames,
            draws,
            offsets,
            mesh.triangles() as int,
        )
}

/// Whether `measure` expects no point of any triangle, as it does at
/// density zero.
pub open spec fn expects_nothing<M: Fn(Corners) -> Frame>(measure: M) -> bool {
    forall|corners: Corners, frame: Frame|
        measure.ensures((corners,), frame) ==> frame.barren()
}

/// Generates points on the surface of a mesh.
///
/// `measure` gives the frame of a triangle: its tangents, and the expected
/// number of its points, area times density, split at the point. `draw`
/// gives a number that is uniform between zero and one. `place` gives one
/// sample of a triangle, uniform over its area. Indices that follow the last
/// complete triangle are passed over.
///
/// Where nothing is expected of any triangle the result is empty, whatever
/// is drawn.
pub fn gen_point_list<
    M: Fn(Corners) -> Frame,
    D: Fn() -> Scalar,
    L: Fn(Corners, Frame) -> Placement,
>(mesh: &Mesh, num_brushes: u32, measure: M, draw: D, place: L) -> (points: Vec<Point>)
    requires
        mesh.well_indexed(),
        num_brushes > 0,
        forall|corners: Corners| measure.requires((corners,)),
        forall|corners: Corners, frame: Frame|
            measure.ensures((corners,), frame) ==> frame.whole < usize::MAX,
        draw.requires(()),
        forall|corners: Corners, frame: Frame| place.requires((corners, frame)),
    ensures
        is_sampling(points@, *mesh, num_brushes, measure, draw, place),
        expects_nothing(measure) ==> points@.len() == 0,
{
    let triangles = mesh.triangle_count();
    let mut points: Vec<Point> = Vec::new();
    let ghost mut frames: Seq<Frame> = Seq::empty();
    let ghost mut draws: Seq<Scalar> = Seq::empty();
    let ghost mut offsets: Seq<int> = seq![0int];
    let mut t: usize = 0;
    while t < triangles
        invariant
            triangles == mesh.triangles(),
            mesh.well_indexed(),
            num_brushes > 0,
            forall|corners: Corners| measure.requires((corners,)),
            forall|corners: Corners, frame: Frame|
                measure.ensures((corners,), frame) ==> frame.whole < usize::MAX,
            draw.requires(()),
            forall|corners: Corners, frame: Frame| place.requires((corners, frame)),
            t <= triangles,
            sampled_through(
                points@,
                *mesh,
                num_brushes,
                measure,
                draw,
                place,
                frames,
                draws,
                offsets,
                t as int,
            ),
            expects_nothing(measure) ==> points@.len() == 0,
        decreases triangles - t,
    {
        let corners = mesh.corners(t);
        let frame = measure(corners);
        let ghost before = points@;
        let ghost mut drawn = Scalar::positive_zero();
        if !frame.is_blank() {
            let d = draw();
            proof {
                drawn = d;
            }
            let count = stochastic_count(frame.whole, frame.remainder, d);
            sample_triangle(corners, frame, count, num_brushes, &place, &mut points);
        }
        proof {
            let old_frames = frames;
            let old_draws = draws;
            let old_offsets = offsets;
            frames = frames.push(frame);
            draws = draws.push(drawn);
            offsets = offsets.push(points@.len() as int);
            assert(before =~= points@.subrange(0, before.len() as int));
            assert forall|u: int, i: int|
                0 <= u < t + 1 && offsets[u] <= i < offsets[u + 1] implies #[trigger] is_sample_of(
                points@[i],
                mesh.corners_of(u),
                frames[u],
                num_brushes,
                place,
            ) by {
                if u < t {
                    assert(frames[u] == old_frames[u]);
                    assert(offsets[u] == old_offsets[u]);
                    assert(offsets[u + 1] == old_offsets[u + 1]);
                    assert forall|v: int| 0 <= v < old_offsets.len() - 1 implies old_offsets[v]
                        <= #[trigger] old_offsets[v + 1] by {
                        assert(old_offsets[v + 1] == old_offsets[v] + old_frames[v].count(
                            old_draws[v],
                        ));
                    }
                    lemma_offsets_ascend(old_offsets, 0, u);
                    lemma_offsets_ascend(old_offsets, u + 1, t as int);
                    assert(0 <= old_offsets[u]);
                    assert(0 <= i < before.len());
                    assert(before.len() <= points@.len());
                    assert(points@.subrange(0, before.len() as int)[i] == points@[i]);
                    assert(points@[i] == before[i]);
                    assert(is_sample_of(
                        before[i],
                        mesh.corners_of(u),
                        old_frames[u],
                        num_brushes,
                        place,
                    ));
                }
            }
            assert forall|u: int| 0 <= u < t + 1 implies {
                &&& measure.ensures((mesh.corners_of(u),), #[trigger] frames[u])
                &&& !frames[u].blank() ==> draw.ensures((), draws[u])
                &&& offsets[u + 1] == offsets[u] + frames[u].count(draws[u])
            } by {
                if u < t {
                    assert(frames[u] == old_frames[u]);
                    assert(offsets[u] == old_offsets[u]);
                    assert(offsets[u + 1] == old_offsets[u + 1]);
                }
            }
        }
        t += 1;
    }
    points
}

/// Offsets that never step down never decrease.
proof fn lemma_offsets_ascend(offsets: Seq<int>, a: int, b: int)
    requires
        0 <= a <= b < offsets.len(),
        forall|t: int| 0 <= t < offsets.len() - 1 ==> offsets[t] <= #[trigger] offsets[t + 1],
    ensures
        offsets[a] <= offsets[b],
    decreases b - a,
{
    if a < b {
        lemma_offsets_ascend(offsets, a, b - 1);
        assert(offsets[b - 1] <= offsets[b - 1 + 1]);
    }
}

} // verus!
