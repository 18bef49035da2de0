//! Navigation operations on a camera: translate, orbit, pan and zoom.
//!
//! Each operation computes a new camera state from the current one and its
//! inputs, and commits it through the camera's validated setters: a refused
//! update leaves the camera exactly as it was.
use crate::camera::{
    Camera, CameraView, Error, ProjectionType, orthographic_outcome, view_outcome,
};
use crate::math::{
    COORD_LIMIT, SCALE, SUM_LIMIT, V3, Vec3, Wide3, abs, add3, add_wide, bounded, cross_wide,
    distance, dot3, dot_wide, fcross, in_range, in_range_wide, lemma_dot_bound, length, normalize,
    normalize_wide, lemma_cross_bound, lemma_length_bound, lemma_product_bound,
    lemma_tdiv_bound, length_wide, neg3, scale3,
    scale_wide, sub3, sub_wide, tdiv, tdiv_wide, wide, zero3,
};
use vstd::prelude::*;

verus! {

/// `value` raised to at least `minimum`, then lowered to at most `maximum`.
pub open spec fn clamp(value: int, minimum: int, maximum: int) -> int {
    let raised = if value < minimum {
        minimum
    } else {
        value
    };
    if raised > maximum {
        maximum
    } else {
        raised
    }
}

/// The translation that `pan(x, y)` applies: `-right * x + up * y`, where
/// `up` is the right direction crossed with the view direction.
pub open spec fn pan_change(v: CameraView, x: int, y: int) -> V3 {
    let right = normalize(v.right_cross());
    let up = fcross(right, v.view_direction());
    add3(scale3(neg3(right), x, SCALE as int), scale3(up, y, SCALE as int))
}

/// The distance that the perspective branch of `zoom_towards` moves the camera to.
pub open spec fn perspective_zoom(
    v: CameraView,
    point: V3,
    delta: int,
    minimum: int,
    maximum: int,
) -> int {
    clamp(
        tdiv((delta + SCALE) * distance(point, v.position), SCALE as int),
        minimum,
        maximum,
    )
}

/// The orthographic height that `zoom_towards` sets.
pub open spec fn orthographic_zoom(
    v: CameraView,
    point: V3,
    height: int,
    delta: int,
    minimum: int,
    maximum: int,
) -> int {
    clamp(
        height - tdiv(delta * distance(point, v.position), SCALE as int),
        minimum,
        maximum,
    )
}

/// The outcome of `zoom_towards` for each kind of projection.
pub open spec fn zoom_outcome(
    before: CameraView,
    after: CameraView,
    r: Result<(), Error>,
    point: V3,
    delta: int,
    minimum: int,
    maximum: int,
) -> bool {
    match before.projection {
        ProjectionType::Orthographic { width, height, depth } => {
            let h = orthographic_zoom(before, point, height as int, delta, minimum, maximum);
            let w = tdiv(h * width, height as int);
            orthographic_outcome(before, after, r, w, h, depth as int)
        },
        ProjectionType::Perspective { .. } => {
            let zoom = perspective_zoom(before, point, delta, minimum, maximum);
            let position = sub3(point, scale3(before.view_direction(), zoom, SCALE as int));
            view_outcome(before, after, r, position, before.target, before.up)
        },
    }
}

/// The unit direction from the camera to the orbit point.
pub open spec fn orbit_direction(v: CameraView, point: V3) -> V3 {
    normalize(sub3(point, v.position))
}

/// The right direction of an orbit: the direction to the point crossed with up.
pub open spec fn orbit_right(v: CameraView, point: V3) -> V3 {
    fcross(orbit_direction(v, point), v.up)
}

/// The up direction that an orbit recomputes: right crossed with the direction.
pub open spec fn orbit_up(v: CameraView, point: V3) -> V3 {
    fcross(orbit_right(v, point), orbit_direction(v, point))
}

/// The position displaced by `-right * x + up * y`.
pub open spec fn orbit_displaced(v: CameraView, point: V3, x: int, y: int) -> V3 {
    add3(
        sub3(v.position, scale3(orbit_right(v, point), x, SCALE as int)),
        scale3(orbit_up(v, point), y, SCALE as int),
    )
}

/// The unit direction from the displaced position to the point.
pub open spec fn orbit_new_direction(v: CameraView, point: V3, x: int, y: int) -> V3 {
    normalize(sub3(point, orbit_displaced(v, point, x, y)))
}

/// The new position: back from the point along the new direction, at the
/// old distance.
pub open spec fn orbit_position(v: CameraView, point: V3, x: int, y: int) -> V3 {
    sub3(
        point,
        scale3(orbit_new_direction(v, point, x, y), distance(point, v.position), SCALE as int),
    )
}

/// Why an orbit cannot be computed, if it cannot.
pub open spec fn orbit_error(v: CameraView, point: V3, x: int, y: int) -> Option<Error> {
    if point == v.position {
        Some(Error::DegenerateView)
    } else if !in_range(orbit_displaced(v, point, x, y)) {
        Some(Error::OutOfRange)
    } else if orbit_displaced(v, point, x, y) == point {
        Some(Error::DegenerateView)
    } else {
        None
    }
}

/// The guard of the orbit with a fixed up direction: the new direction is
/// further than `acos(0.999)` from parallel to `up`.
pub open spec fn clear_of_up(direction: V3, up: V3) -> bool {
    abs(dot3(direction, up)) * 1000 < 999 * SCALE * length(up)
}

/// A camera with navigation operations.
pub struct CameraControl {
    camera: Camera,
}

impl CameraControl {
    pub closed spec fn view(&self) -> CameraView {
        self.camera@
    }

    pub open spec fn wf(&self) -> bool {
        self@.valid()
    }

    pub fn new(camera: Camera) -> (r: Self)
        ensures
            r@ == camera@,
    {
        Self { camera }
    }

    /// The controlled camera.
    pub fn camera(&self) -> (r: &Camera)
        ensures
            r@ == self@,
    {
        &self.camera
    }

    /// The controlled camera, for its own setters.
    pub fn camera_mut(&mut self) -> (r: &mut Camera)
        ensures
            r@ == old(self)@,
            final(self)@ == final(r)@,
    {
        &mut self.camera
    }

    /// Translates the camera by `change`: position and target move together,
    /// the up direction stays.
    pub fn translate(&mut self, change: &Vec3) -> (r: Result<(), Error>)
        requires
            old(self).wf(),
        ensures
            view_outcome(
                old(self)@,
                final(self)@,
                r,
                add3(old(self)@.position, change@),
                add3(old(self)@.target, change@),
                old(self)@.up,
            ),
            final(self).wf(),
            sub3(final(self)@.target, final(self)@.position) == sub3(
                old(self)@.target,
                old(self)@.position,
            ),
            final(self)@.up == old(self)@.up,
    {
        self.translate_wide(change.widen())
    }

    fn translate_wide(&mut self, change: Wide3) -> (r: Result<(), Error>)
        requires
            old(self).wf(),
            bounded(wide(change), SUM_LIMIT as int / 2),
        ensures
            view_outcome(
                old(self)@,
                final(self)@,
                r,
                add3(old(self)@.position, wide(change)),
                add3(old(self)@.target, wide(change)),
                old(self)@.up,
            ),
            final(self).wf(),
            sub3(final(self)@.target, final(self)@.position) == sub3(
                old(self)@.target,
                old(self)@.position,
            ),
            final(self)@.up == old(self)@.up,
    {
        let position = self.camera.position().widen();
        let target = self.camera.target().widen();
        let up = self.camera.up().widen();
        self.camera.commit_view(add_wide(position, change), add_wide(target, change), up)
    }

    /// Moves the camera in the plane orthogonal to the view direction: `x`
    /// to the left and `y` up, in fixed-point units. The view and up
    /// directions stay.
    pub fn pan(&mut self, x: i64, y: i64) -> (r: Result<(), Error>)
        requires
            old(self).wf(),
        ensures
            if old(self)@.right_cross() == zero3() {
                r == Err::<(), Error>(Error::DegenerateView) && final(self)@ == old(self)@
            } else {
                view_outcome(
                    old(self)@,
                    final(self)@,
                    r,
                    add3(old(self)@.position, pan_change(old(self)@, x as int, y as int)),
                    add3(old(self)@.target, pan_change(old(self)@, x as int, y as int)),
                    old(self)@.up,
                )
            },
            final(self).wf(),
            sub3(final(self)@.target, final(self)@.position) == sub3(
                old(self)@.target,
                old(self)@.position,
            ),
            final(self)@.up == old(self)@.up,
    {
        let right = match self.camera.right_direction() {
            Some(right) => right,
            None => return Err(Error::DegenerateView),
        };
        let direction = self.camera.view_direction();
        let s = SCALE as i128;
        let ghost sc = SCALE as int;
        let ghost xl = 0x8000_0000_0000_0000int;
        proof {
            lemma_cross_bound(right@, direction@, sc, sc);
        }
        let up = scale_wide(cross_wide(right.widen(), direction.widen()), 1, s, Ghost(2 * sc * sc), Ghost(1));
        let left = (-(right.x as i128), -(right.y as i128), -(right.z as i128));
        let a = scale_wide(left, x as i128, s, Ghost(sc), Ghost(xl));
        let b = scale_wide(up, y as i128, s, Ghost(2 * sc * sc), Ghost(xl));
        self.translate_wide(add_wide(a, b))
    }

    /// Moves the camera towards `point` by `delta` times the distance to it,
    /// keeping that distance within `[minimum, maximum]`. With an
    /// orthographic projection the height of the view changes instead, and
    /// the width keeps the aspect ratio.
    pub fn zoom_towards(&mut self, point: &Vec3, delta: i64, minimum: i64, maximum: i64) -> (r:
        Result<(), Error>)
        requires
            old(self).wf(),
            in_range(point@),
        ensures
            zoom_outcome(
                old(self)@,
                final(self)@,
                r,
                point@,
                delta as int,
                minimum as int,
                maximum as int,
            ),
            final(self).wf(),
            minimum <= maximum ==> minimum <= perspective_zoom(
                old(self)@,
                point@,
                delta as int,
                minimum as int,
                maximum as int,
            ) <= maximum,
    {
        let s = SCALE as i128;
        let offset = sub_wide(point.widen(), self.camera.position().widen());
        let dist = length_wide(offset);
        proof {
            lemma_length_bound(wide(offset), 2 * COORD_LIMIT);
        }
        let ghost big = 0x8000_0000_0000_0000int;
        let ghost far = 6 * COORD_LIMIT;
        match self.camera.projection_type() {
            ProjectionType::Orthographic { width, height, depth } => {
                proof {
                    lemma_product_bound(delta as int, dist as int, big, far);
                    lemma_tdiv_bound(delta * dist, SCALE as int, big * far);
                }
                let h = clamp_wide(
                    height as i128 - tdiv_wide(delta as i128 * dist, s),
                    minimum as i128,
                    maximum as i128,
                );
                proof {
                    lemma_product_bound(h as int, width as int, big, COORD_LIMIT as int);
                }
                let w = tdiv_wide(h * width as i128, height as i128);
                self.camera.commit_orthographic(w, h, depth as i128)
            },
            ProjectionType::Perspective { .. } => {
                let target = self.camera.target().widen();
                let up = self.camera.up().widen();
                let direction = self.camera.view_direction();
                proof {
                    lemma_product_bound(delta + SCALE, dist as int, 2 * big, far);
                }
                let zoom = clamp_wide(
                    tdiv_wide((delta as i128 + s) * dist, s),
                    minimum as i128,
                    maximum as i128,
                );
                let along = scale_wide(
                    direction.widen(),
                    zoom,
                    s,
                    Ghost(SCALE as int),
                    Ghost(0x8000_0000_0000_0000int),
                );
                self.camera.commit_view(sub_wide(point.widen(), along), target, up)
            },
        }
    }
    /// Rotates the camera around `point`, keeping its distance to the point:
    /// `x` to the left and `y` up, in fixed-point units. The up direction is
    /// recomputed from the rotated basis.
    pub fn rotate_around(&mut self, point: &Vec3, x: i64, y: i64) -> (r: Result<(), Error>)
        requires
            old(self).wf(),
            in_range(point@),
        ensures
            match orbit_error(old(self)@, point@, x as int, y as int) {
                Some(e) => r == Err::<(), Error>(e) && final(self)@ == old(self)@,
                None => view_outcome(
                    old(self)@,
                    final(self)@,
                    r,
                    orbit_position(old(self)@, point@, x as int, y as int),
                    old(self)@.target,
                    orbit_up(old(self)@, point@),
                ),
            },
            final(self).wf(),
    {
        let (position, _, up) = self.orbit(point, x, y)?;
        let target = self.camera.target().widen();
        self.camera.commit_view(position, target, up)
    }

    /// Rotates the camera around `point` as `rotate_around` does, keeping the
    /// up direction. Where the new view direction would come within
    /// `acos(0.999)` of parallel to up, nothing changes and the call succeeds.
    pub fn rotate_around_with_fixed_up(&mut self, point: &Vec3, x: i64, y: i64) -> (r: Result<
        (),
        Error,
    >)
        requires
            old(self).wf(),
            in_range(point@),
        ensures
            match orbit_error(old(self)@, point@, x as int, y as int) {
                Some(e) => r == Err::<(), Error>(e) && final(self)@ == old(self)@,
                None => if clear_of_up(
                    orbit_new_direction(old(self)@, point@, x as int, y as int),
                    old(self)@.up,
                ) {
                    view_outcome(
                        old(self)@,
                        final(self)@,
                        r,
                        orbit_position(old(self)@, point@, x as int, y as int),
                        old(self)@.target,
                        old(self)@.up,
                    )
                } else {
                    r is Ok && final(self)@ == old(self)@
                },
            },
            final(self).wf(),
    {
        let (position, direction, _) = self.orbit(point, x, y)?;
        let up = self.camera.up();
        let cosine = dot_wide(direction.widen(), up.widen());
        let up_length = length_wide(up.widen());
        proof {
            lemma_dot_bound(direction@, up@, SCALE as int, COORD_LIMIT as int);
            lemma_length_bound(up@, COORD_LIMIT as int);
            lemma_product_bound(
                999 * SCALE,
                up_length as int,
                999 * SCALE,
                3 * COORD_LIMIT,
            );
        }
        let magnitude = if cosine < 0 {
            -cosine
        } else {
            cosine
        };
        if magnitude * 1000 < 999 * (SCALE as i128) * up_length {
            let target = self.camera.target().widen();
            self.camera.commit_view(position, target, up.widen())
        } else {
            Ok(())
        }
    }

    /// The new position, the new direction and the recomputed up direction
    /// of an orbit around `point`.
    fn orbit(&self, point: &Vec3, x: i64, y: i64) -> (r: Result<(Wide3, Vec3, Wide3), Error>)
        requires
            self.wf(),
            in_range(point@),
        ensures
            match orbit_error(self@, point@, x as int, y as int) {
                Some(e) => r == Err::<(Wide3, Vec3, Wide3), Error>(e),
                None => r matches Ok((p, d, u)) && wide(p) == orbit_position(
                    self@,
                    point@,
                    x as int,
                    y as int,
                ) && d@ == orbit_new_direction(self@, point@, x as int, y as int) && wide(u)
                    == orbit_up(self@, point@) && bounded(d@, SCALE as int),
            },
    {
        let s = SCALE as i128;
        let ghost sc = SCALE as int;
        let ghost lim = COORD_LIMIT as int;
        let ghost big = 0x8000_0000_0000_0000int;
        let position = self.camera.position().widen();
        let up = self.camera.up();
        let offset = sub_wide(point.widen(), position);
        let direction = match normalize_wide(offset) {
            Some(d) => d,
            None => return Err(Error::DegenerateView),
        };
        proof {
            lemma_cross_bound(direction@, up@, sc, lim);
        }
        let right = scale_wide(
            cross_wide(direction.widen(), up.widen()),
            1,
            s,
            Ghost(2 * sc * lim),
            Ghost(1),
        );
        assert((2 * sc * lim) / sc == 2 * lim);
        proof {
            lemma_cross_bound(wide(right), direction@, 2 * lim, sc);
        }
        let new_up = scale_wide(
            cross_wide(right, direction.widen()),
            1,
            s,
            Ghost(4 * lim * sc),
            Ghost(1),
        );
        assert((4 * lim * sc) / sc == 4 * lim);
        let a = scale_wide(right, x as i128, s, Ghost(2 * lim), Ghost(big));
        let b = scale_wide(new_up, y as i128, s, Ghost(4 * lim), Ghost(big));
        let displaced = add_wide(sub_wide(position, a), b);
        if !in_range_wide(displaced) {
            return Err(Error::OutOfRange);
        }
        let new_direction = match normalize_wide(sub_wide(point.widen(), displaced)) {
            Some(d) => d,
            None => return Err(Error::DegenerateView),
        };
        let dist = length_wide(offset);
        proof {
            lemma_length_bound(wide(offset), 2 * lim);
        }
        let along = scale_wide(new_direction.widen(), dist, s, Ghost(sc), Ghost(6 * lim));
        Ok((sub_wide(point.widen(), along), new_direction, new_up))
    }
}

fn clamp_wide(value: i128, minimum: i128, maximum: i128) -> (r: i128)
    ensures
        r as int == clamp(value as int, minimum as int, maximum as int),
        r <= maximum,
        r >= minimum || r == maximum,
{
    let raised = if value < minimum {
        minimum
    } else {
        value
    };
    if raised > maximum {
        maximum
    } else {
        raised
    }
}

} // verus!
