//! A camera whose state changes only through validated setters.
use crate::math::{
    COORD_LIMIT, SCALE, V3, Vec3, Wide3, bounded, cross3, cross_wide, in_range, in_range_wide, lemma_cross_bound,
    lemma_cross_zero,
    normalize, normalize_wide, sub3, sub_wide, wide, zero3,
};
use vstd::prelude::*;

verus! {

/// Why a camera refused an update. The camera keeps its prior state.
#[derive(Clone, Copy, Debug, PartialEq, Eq, Structural)]
pub enum Error {
    /// A coordinate lies beyond `COORD_LIMIT`.
    OutOfRange,
    /// The view direction is zero or parallel to the up direction.
    DegenerateView,
    /// A projection parameter is not positive, or not in order.
    InvalidProjection,
}

/// A pixel rectangle.
#[derive(Clone, Copy, Debug, PartialEq, Eq, Structural)]
pub struct Viewport {
    pub x: i32,
    pub y: i32,
    pub width: u32,
    pub height: u32,
}

/// How the camera projects; all values are fixed-point.
#[derive(Clone, Copy, Debug, PartialEq, Eq, Structural)]
pub enum ProjectionType {
    /// `field_of_view` in radians.
    Perspective { field_of_view: i64, z_near: i64, z_far: i64 },
    Orthographic { width: i64, height: i64, depth: i64 },
}

/// The model of a [`Camera`].
pub struct CameraView {
    pub position: V3,
    pub target: V3,
    pub up: V3,
    pub projection: ProjectionType,
    pub viewport: Viewport,
}

/// A view is valid when its points are in range and its basis is not singular.
pub open spec fn valid_view(position: V3, target: V3, up: V3) -> bool {
    &&& in_range(position)
    &&& in_range(target)
    &&& in_range(up)
    &&& cross3(sub3(target, position), up) != zero3()
}

pub open spec fn view_error(position: V3, target: V3, up: V3) -> Error {
    if in_range(position) && in_range(target) && in_range(up) {
        Error::DegenerateView
    } else {
        Error::OutOfRange
    }
}

pub open spec fn valid_orthographic(width: int, height: int, depth: int) -> bool {
    0 < width <= COORD_LIMIT && 0 < height <= COORD_LIMIT && 0 < depth <= COORD_LIMIT
}

pub open spec fn valid_perspective(field_of_view: int, z_near: int, z_far: int) -> bool {
    0 < field_of_view && 0 < z_near < z_far
}

pub open spec fn valid_projection(p: ProjectionType) -> bool {
    match p {
        ProjectionType::Perspective { field_of_view, z_near, z_far } => valid_perspective(
            field_of_view as int,
            z_near as int,
            z_far as int,
        ),
        ProjectionType::Orthographic { width, height, depth } => valid_orthographic(
            width as int,
            height as int,
            depth as int,
        ),
    }
}

impl CameraView {
    pub open spec fn valid(&self) -> bool {
        valid_view(self.position, self.target, self.up) && valid_projection(self.projection)
    }

    /// The view direction as a fixed-point unit vector.
    pub open spec fn view_direction(&self) -> V3 {
        normalize(sub3(self.target, self.position))
    }

    /// The view direction crossed with the up direction, before normalizing.
    pub open spec fn right_cross(&self) -> V3 {
        cross3(self.view_direction(), self.up)
    }

    pub open spec fn with_view(self, position: V3, target: V3, up: V3) -> CameraView {
        CameraView { position, target, up, ..self }
    }

    pub open spec fn with_projection(self, projection: ProjectionType) -> CameraView {
        CameraView { projection, ..self }
    }
}

/// What a call that proposes a new view leaves behind: the view when it is
/// valid, and otherwise the error with the camera unchanged.
pub open spec fn view_outcome(
    before: CameraView,
    after: CameraView,
    r: Result<(), Error>,
    position: V3,
    target: V3,
    up: V3,
) -> bool {
    if valid_view(position, target, up) {
        r is Ok && after == before.with_view(position, target, up)
    } else {
        r == Err::<(), Error>(view_error(position, target, up)) && after == before
    }
}

/// The same for a proposed orthographic projection.
pub open spec fn orthographic_outcome(
    before: CameraView,
    after: CameraView,
    r: Result<(), Error>,
    width: int,
    height: int,
    depth: int,
) -> bool {
    if valid_orthographic(width, height, depth) {
        &&& r is Ok
        &&& after == before.with_projection(
            ProjectionType::Orthographic {
                width: width as i64,
                height: height as i64,
                depth: depth as i64,
            },
        )
    } else {
        r == Err::<(), Error>(Error::InvalidProjection) && after == before
    }
}

/// A virtual camera: position, target, up direction, projection and viewport.
#[derive(Clone, Copy, Debug)]
pub struct Camera {
    viewport: Viewport,
    position: Vec3,
    target: Vec3,
    up: Vec3,
    projection: ProjectionType,
}

impl Camera {
    pub closed spec fn view(&self) -> CameraView {
        CameraView {
            position: self.position@,
            target: self.target@,
            up: self.up@,
            projection: self.projection,
            viewport: self.viewport,
        }
    }

    pub open spec fn wf(&self) -> bool {
        self@.valid()
    }

    /// A camera with a perspective projection.
    pub fn new_perspective(
        viewport: Viewport,
        position: Vec3,
        target: Vec3,
        up: Vec3,
        field_of_view: i64,
        z_near: i64,
        z_far: i64,
    ) -> (r: Result<Camera, Error>)
        ensures
            match r {
                Ok(c) => c@ == (CameraView {
                    position: position@,
                    target: target@,
                    up: up@,
                    projection: ProjectionType::Perspective { field_of_view, z_near, z_far },
                    viewport,
                }) && c.wf(),
                Err(e) => if !valid_view(position@, target@, up@) {
                    e == view_error(position@, target@, up@)
                } else {
                    !valid_perspective(field_of_view as int, z_near as int, z_far as int)
                        && e == Error::InvalidProjection
                },
            },
            r is Ok <==> valid_view(position@, target@, up@) && valid_perspective(
                field_of_view as int,
                z_near as int,
                z_far as int,
            ),
    {
        check_view(position.widen(), target.widen(), up.widen())?;
        if !(0 < field_of_view && 0 < z_near && z_near < z_far) {
            return Err(Error::InvalidProjection);
        }
        let projection = ProjectionType::Perspective { field_of_view, z_near, z_far };
        Ok(Camera { viewport, position, target, up, projection })
    }

    /// A camera with an orthographic projection.
    pub fn new_orthographic(
        viewport: Viewport,
        position: Vec3,
        target: Vec3,
        up: Vec3,
        width: i64,
        height: i64,
        depth: i64,
    ) -> (r: Result<Camera, Error>)
        ensures
            match r {
                Ok(c) => c@ == (CameraView {
                    position: position@,
                    target: target@,
                    up: up@,
                    projection: ProjectionType::Orthographic { width, height, depth },
                    viewport,
                }) && c.wf(),
                Err(e) => if !valid_view(position@, target@, up@) {
                    e == view_error(position@, target@, up@)
                } else {
                    !valid_orthographic(width as int, height as int, depth as int)
                        && e == Error::InvalidProjection
                },
            },
            r is Ok <==> valid_view(position@, target@, up@) && valid_orthographic(
                width as int,
                height as int,
                depth as int,
            ),
    {
        check_view(position.widen(), target.widen(), up.widen())?;
        if !(0 < width && width <= COORD_LIMIT && 0 < height && height <= COORD_LIMIT && 0 < depth
            && depth <= COORD_LIMIT) {
            return Err(Error::InvalidProjection);
        }
        let projection = ProjectionType::Orthographic { width, height, depth };
        Ok(Camera { viewport, position, target, up, projection })
    }

    pub fn position(&self) -> (r: Vec3)
        ensures
            r@ == self@.position,
    {
        self.position
    }

    pub fn target(&self) -> (r: Vec3)
        ensures
            r@ == self@.target,
    {
        self.target
    }

    pub fn up(&self) -> (r: Vec3)
        ensures
            r@ == self@.up,
    {
        self.up
    }

    pub fn projection_type(&self) -> (r: ProjectionType)
        ensures
            r == self@.projection,
    {
        self.projection
    }

    pub fn viewport(&self) -> (r: Viewport)
        ensures
            r == self@.viewport,
    {
        self.viewport
    }

    /// The direction the camera looks in, as a fixed-point unit vector.
    pub fn view_direction(&self) -> (r: Vec3)
        requires
            self.wf(),
        ensures
            r@ == self@.view_direction(),
            bounded(r@, SCALE as int),
    {
        let d = sub_wide(self.target.widen(), self.position.widen());
        proof {
            if sub3(self@.target, self@.position) == zero3() {
                lemma_cross_zero(sub3(self@.target, self@.position), self@.up);
            }
        }
        normalize_wide(d).unwrap()
    }

    /// The direction to the right of the view, as a fixed-point unit vector;
    /// `None` where the rounded view direction is parallel to the up direction.
    pub fn right_direction(&self) -> (r: Option<Vec3>)
        requires
            self.wf(),
        ensures
            r is None <==> self@.right_cross() == zero3(),
            r matches Some(u) ==> u@ == normalize(self@.right_cross()) && bounded(
                u@,
                SCALE as int,
            ),
    {
        let d = self.view_direction();
        proof {
            lemma_cross_bound(d@, self@.up, SCALE as int, COORD_LIMIT as int);
        }
        normalize_wide(cross_wide(d.widen(), self.up.widen()))
    }

    /// Sets the view; an invalid view is refused and leaves the camera as it was.
    pub fn set_view(&mut self, position: Vec3, target: Vec3, up: Vec3) -> (r: Result<(), Error>)
        ensures
            view_outcome(old(self)@, final(self)@, r, position@, target@, up@),
    {
        self.commit_view(position.widen(), target.widen(), up.widen())
    }

    /// `set_view` on wide coordinates.
    pub(crate) fn commit_view(&mut self, position: Wide3, target: Wide3, up: Wide3) -> (r: Result<
        (),
        Error,
    >)
        ensures
            view_outcome(old(self)@, final(self)@, r, wide(position), wide(target), wide(up)),
    {
        check_view(position, target, up)?;
        self.position = Vec3 { x: position.0 as i64, y: position.1 as i64, z: position.2 as i64 };
        self.target = Vec3 { x: target.0 as i64, y: target.1 as i64, z: target.2 as i64 };
        self.up = Vec3 { x: up.0 as i64, y: up.1 as i64, z: up.2 as i64 };
        Ok(())
    }

    /// Sets an orthographic projection; invalid sizes are refused.
    pub fn set_orthographic_projection(&mut self, width: i64, height: i64, depth: i64) -> (r:
        Result<(), Error>)
        ensures
            orthographic_outcome(
                old(self)@,
                final(self)@,
                r,
                width as int,
                height as int,
                depth as int,
            ),
    {
        self.commit_orthographic(width as i128, height as i128, depth as i128)
    }

    /// `set_orthographic_projection` on wide values.
    pub(crate) fn commit_orthographic(&mut self, width: i128, height: i128, depth: i128) -> (r:
        Result<(), Error>)
        ensures
            orthographic_outcome(
                old(self)@,
                final(self)@,
                r,
                width as int,
                height as int,
                depth as int,
            ),
    {
        let limit = COORD_LIMIT as i128;
        if !(0 < width && width <= limit && 0 < height && height <= limit && 0 < depth && depth
            <= limit) {
            return Err(Error::InvalidProjection);
        }
        self.projection = ProjectionType::Orthographic {
            width: width as i64,
            height: height as i64,
            depth: depth as i64,
        };
        Ok(())
    }

    /// Sets a perspective projection; invalid values are refused.
    pub fn set_perspective_projection(&mut self, field_of_view: i64, z_near: i64, z_far: i64) -> (r:
        Result<(), Error>)
        ensures
            if valid_perspective(field_of_view as int, z_near as int, z_far as int) {
                &&& r is Ok
                &&& final(self)@ == old(self)@.with_projection(
                    ProjectionType::Perspective { field_of_view, z_near, z_far },
                )
            } else {
                r == Err::<(), Error>(Error::InvalidProjection) && final(self)@ == old(self)@
            },
    {
        if !(0 < field_of_view && 0 < z_near && z_near < z_far) {
            return Err(Error::InvalidProjection);
        }
        self.projection = ProjectionType::Perspective { field_of_view, z_near, z_far };
        Ok(())
    }

    /// Sets the viewport; returns whether it changed.
    pub fn set_viewport(&mut self, viewport: Viewport) -> (r: bool)
        ensures
            final(self)@ == (CameraView { viewport, ..old(self)@ }),
            r == (viewport != old(self)@.viewport),
    {
        let changed = viewport != self.viewport;
        self.viewport = viewport;
        changed
    }
}

/// Tests a proposed view on wide coordinates.
fn check_view(position: Wide3, target: Wide3, up: Wide3) -> (r: Result<(), Error>)
    ensures
        r is Ok <==> valid_view(wide(position), wide(target), wide(up)),
        r matches Err(e) ==> e == view_error(wide(position), wide(target), wide(up)),
{
    if !(in_range_wide(position) && in_range_wide(target) && in_range_wide(up)) {
        return Err(Error::OutOfRange);
    }
    let c = cross_wide(sub_wide(target, position), up);
    if c.0 == 0 && c.1 == 0 && c.2 == 0 {
        return Err(Error::DegenerateView);
    }
    Ok(())
}

} // verus!
