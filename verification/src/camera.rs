//! An orbit camera and its matrix cache.
//!
//! The camera holds its parameters and, while they stand, the view and
//! projection matrices that were last computed from them. Computing a
//! matrix, like every other arithmetic on the parameters, is the caller's
//! and is handed in as a function; when it is called, and what a change of
//! the parameters does to the cache, is decided here.

use crate::scalar::{Matrix, Scalar, Vector3};
use vstd::prelude::*;

verus! {

/// Bit pattern of 5, the least angle in degrees that an orbit may leave
/// between the camera and world-up.
pub const GUARD_LOW_BITS: u32 = 0x40a0_0000;

/// Bit pattern of 175, the greatest angle in degrees that an orbit may leave
/// between the camera and world-up.
pub const GUARD_HIGH_BITS: u32 = 0x432f_0000;

/// What a camera holds.
pub struct CameraState {
    pub position: Vector3,
    /// The direction in which the camera looks; it need not have unit length.
    pub direction: Vector3,
    /// The field of view, in radians.
    pub fov: Scalar,
    pub aspect_ratio: Scalar,
    pub near: Scalar,
    pub far: Scalar,
    /// The view matrix of `position` and `direction`, if it has been
    /// computed since they last changed.
    pub view: Option<Matrix>,
    /// The projection matrix of the other four, likewise.
    pub perspective: Option<Matrix>,
}

impl CameraState {
    /// The state with both cached matrices dropped.
    pub open spec fn invalidated(self) -> CameraState {
        CameraState { view: None, perspective: None, ..self }
    }

    /// What a read of the view matrix returns when a computation would
    /// return `computed`: the cached matrix if there is one.
    pub open spec fn view_read(self, computed: Matrix) -> Matrix {
        match self.view {
            Some(cached) => cached,
            None => computed,
        }
    }

    /// The state after that read: what was returned is cached.
    pub open spec fn after_view_read(self, computed: Matrix) -> CameraState {
        CameraState { view: Some(self.view_read(computed)), ..self }
    }

    /// What a read of the projection matrix returns when a computation
    /// would return `computed`: the cached matrix if there is one.
    pub open spec fn perspective_read(self, computed: Matrix) -> Matrix {
        match self.perspective {
            Some(cached) => cached,
            None => computed,
        }
    }

    /// The state after that read: what was returned is cached.
    pub open spec fn after_perspective_read(self, computed: Matrix) -> CameraState {
        CameraState { perspective: Some(self.perspective_read(computed)), ..self }
    }
}

/// Whether an orbit by `delta` that would leave the angle `angle_after`
/// (in degrees) between the camera and world-up is turned down: it goes
/// down and ends below the low guard, or goes up and ends above the high
/// one.
pub open spec fn orbit_rejected(angle_after: Scalar, delta: Scalar) -> bool {
    let low = Scalar { bits: GUARD_LOW_BITS };
    let high = Scalar { bits: GUARD_HIGH_BITS };
    let zero = Scalar::positive_zero();
    (angle_after.below(low) && delta.below(zero)) || (high.below(angle_after) && zero.below(delta))
}

/// Whether the guard band lets an orbit through.
pub fn orbit_permitted(angle_after: Scalar, delta: Scalar) -> (permitted: bool)
    ensures
        permitted == !orbit_rejected(angle_after, delta),
{
    let low = Scalar::from_bits(GUARD_LOW_BITS);
    let high = Scalar::from_bits(GUARD_HIGH_BITS);
    let zero = Scalar::positive_zero();
    !((angle_after.less_than(low) && delta.less_than(zero)) || (high.less_than(angle_after)
        && zero.less_than(delta)))
}

/// A camera that orbits the origin.
pub struct Camera {
    position: Vector3,
    direction: Vector3,
    fov: Scalar,
    aspect_ratio: Scalar,
    near: Scalar,
    far: Scalar,
    view: Option<Matrix>,
    perspective: Option<Matrix>,
}

impl Camera {
    /// What the camera holds.
    pub closed spec fn state(&self) -> CameraState {
        CameraState {
            position: self.position,
            direction: self.direction,
            fov: self.fov,
            aspect_ratio: self.aspect_ratio,
            near: self.near,
            far: self.far,
            view: self.view,
            perspective: self.perspective,
        }
    }

    /// A camera with the given parameters and nothing cached.
    pub fn new(
        position: Vector3,
        direction: Vector3,
        fov: Scalar,
        aspect_ratio: Scalar,
        near: Scalar,
        far: Scalar,
    ) -> (camera: Self)
        ensures
            camera.state() == (CameraState {
                position,
                direction,
                fov,
                aspect_ratio,
                near,
                far,
                view: None,
                perspective: None,
            }),
    {
        Camera { position, direction, fov, aspect_ratio, near, far, view: None, perspective: None }
    }

    pub fn position(&self) -> (position: Vector3)
        ensures
            position == self.state().position,
    {
        self.position
    }

    pub fn direction(&self) -> (direction: Vector3)
        ensures
            direction == self.state().direction,
    {
        self.direction
    }

    fn reset_view_perspective(&mut self)
        ensures
            final(self).state() == old(self).state().invalidated(),
    {
        self.view = None;
        self.perspective = None;
    }

    pub fn set_position(&mut self, position: Vector3)
        ensures
            final(self).state() == (CameraState { position, ..old(self).state().invalidated() }),
    {
        self.position = position;
        self.reset_view_perspective();
    }

    pub fn set_direction(&mut self, direction: Vector3)
        ensures
            final(self).state() == (CameraState { direction, ..old(self).state().invalidated() }),
    {
        self.direction = direction;
        self.reset_view_perspective();
    }

    pub fn set_fov(&mut self, fov: Scalar)
        ensures
            final(self).state() == (CameraState { fov, ..old(self).state().invalidated() }),
    {
        self.fov = fov;
        self.reset_view_perspective();
    }

    pub fn set_aspect(&mut self, aspect_ratio: Scalar)
        ensures
            final(self).state() == (CameraState {
                aspect_ratio,
                ..old(self).state().invalidated()
            }),
    {
        self.aspect_ratio = aspect_ratio;
        self.reset_view_perspective();
    }

    /// Moves the camera along its direction. `step` gets the position and
    /// the direction and returns the position that lies the wanted amount
    /// further along the normalized direction. The direction stays.
    pub fn zoom<F: FnOnce(Vector3, Vector3) -> Vector3>(&mut self, step: F)
        requires
            step.requires((old(self).state().position, old(self).state().direction)),
        ensures
            step.ensures(
                (old(self).state().position, old(self).state().direction),
                final(self).state().position,
            ),
            final(self).state() == (CameraState {
                position: final(self).state().position,
                ..old(self).state().invalidated()
            }),
    {
        self.position = step(self.position, self.direction);
        self.reset_view_perspective();
    }

    /// Orbits the camera about the origin, unless the guard band turns the
    /// orbit down, in which case nothing changes. `angle_after` is the angle
    /// in degrees that the orbit would leave between the camera and
    /// world-up, `delta` the angle of the orbit. `rotate` gets the position
    /// and the direction and returns the rotated position, at the same
    /// distance from the origin; it is called only for an orbit that is let
    /// through. The camera then looks at the origin: `face` gets the new
    /// position and returns the new direction.
    pub fn rotate_up<R: FnOnce(Vector3, Vector3) -> Vector3, D: FnOnce(Vector3) -> Vector3>(
        &mut self,
        angle_after: Scalar,
        delta: Scalar,
        rotate: R,
        face: D,
    ) -> (applied: bool)
        requires
            rotate.requires((old(self).state().position, old(self).state().direction)),
            forall|position: Vector3| face.requires((position,)),
        ensures
            applied == !orbit_rejected(angle_after, delta),
            !applied ==> final(self).state() == old(self).state(),
            applied ==> {
                &&& rotate.ensures(
                    (old(self).state().position, old(self).state().direction),
                    final(self).state().position,
                )
                &&& face.ensures((final(self).state().position,), final(self).state().direction)
                &&& final(self).state() == (CameraState {
                    position: final(self).state().position,
                    direction: final(self).state().direction,
                    ..old(self).state().invalidated()
                })
            },
    {
        if !orbit_permitted(angle_after, delta) {
            return false;
        }
        let position = rotate(self.position, self.direction);
        self.position = position;
        self.direction = face(position);
        self.reset_view_perspective();
        true
    }

    /// The view matrix. It is computed, by `compute` from the position and
    /// the direction, only if none is cached; what is returned is cached.
    pub fn view<F: FnOnce(Vector3, Vector3) -> Matrix>(&mut self, compute: F) -> (matrix: Matrix)
        requires
            compute.requires((old(self).state().position, old(self).state().direction)),
        ensures
            old(self).state().view is None ==> compute.ensures(
                (old(self).state().position, old(self).state().direction),
                matrix,
            ),
            matrix == old(self).state().view_read(matrix),
            final(self).state() == old(self).state().after_view_read(matrix),
    {
        match self.view {
            Some(cached) => cached,
            None => {
                let matrix = compute(self.position, self.direction);
                self.view = Some(matrix);
                matrix
            },
        }
    }

    /// The projection matrix. It is computed, by `compute` from the field of
    /// view, the aspect ratio and the near and far planes, only if none is
    /// cached; what is returned is cached.
    pub fn perspective<F: FnOnce(Scalar, Scalar, Scalar, Scalar) -> Matrix>(
        &mut self,
        compute: F,
    ) -> (matrix: Matrix)
        requires
            compute.requires(
                (
                    old(self).state().fov,
                    old(self).state().aspect_ratio,
                    old(self).state().near,
                    old(self).state().far,
                ),
            ),
        ensures
            old(self).state().perspective is None ==> compute.ensures(
                (
                    old(self).state().fov,
                    old(self).state().aspect_ratio,
                    old(self).state().near,
                    old(self).state().far,
                ),
                matrix,
            ),
            matrix == old(self).state().perspective_read(matrix),
            final(self).state() == old(self).state().after_perspective_read(matrix),
    {
        match self.perspective {
            Some(cached) => cached,
            None => {
                let matrix = compute(self.fov, self.aspect_ratio, self.near, self.far);
                self.perspective = Some(matrix);
                matrix
            },
        }
    }
}

/// Cache hits: of two reads with no change between them the second returns
/// what the first returned, whatever a computation would return by then,
/// and leaves the camera as the first left it.
pub proof fn lemma_reads_repeat(state: CameraState, first: Matrix, second: Matrix)
    ensures
        state.after_view_read(first).view_read(second) == state.view_read(first),
        state.after_view_read(first).after_view_read(second) == state.after_view_read(first),
        state.after_perspective_read(first).perspective_read(second) == state.perspective_read(
            first,
        ),
        state.after_perspective_read(first).after_perspective_read(second)
            == state.after_perspective_read(first),
{
}

/// No stale cache: once the cache is invalidated, as every change of a
/// parameter does, a read returns what is computed then, whatever was
/// cached before; and reading one matrix does not bring back the other.
pub proof fn lemma_invalidated_reads_compute(state: CameraState, computed: Matrix)
    ensures
        state.invalidated().view_read(computed) == computed,
        state.invalidated().perspective_read(computed) == computed,
        state.invalidated().after_view_read(computed).perspective is None,
        state.invalidated().after_perspective_read(computed).view is None,
{
}

/// The guard band: an orbit that goes down is turned down exactly when it
/// would end below the low guard, one that goes up exactly when it would
/// end above the high guard, and one of angle zero never. An orbit that
/// ends on a guard is let through.
pub proof fn lemma_guard_band(angle_after: Scalar, delta: Scalar)
    requires
        !angle_after.nan(),
        !delta.nan(),
    ensures
        delta.order() < 0 ==> (orbit_rejected(angle_after, delta) <==> angle_after.order()
            < GUARD_LOW_BITS),
        delta.order() > 0 ==> (orbit_rejected(angle_after, delta) <==> angle_after.order()
            > GUARD_HIGH_BITS),
        delta.order() == 0 ==> !orbit_rejected(angle_after, delta),
        angle_after.bits == GUARD_LOW_BITS || angle_after.bits == GUARD_HIGH_BITS
            ==> !orbit_rejected(angle_after, delta),
{
}

} // verus!
