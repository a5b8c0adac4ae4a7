//! Orbit camera: spherical orbit state, control flags, and the exact
//! parameters from which the per-frame view-projection transform is built.
//!
//! Lengths and angles are held in fixed point: a stored value `v` stands for
//! the real number `v / SCALE`. Every mutation the camera performs — the
//! per-frame control step and its clamps — is exact integer arithmetic, so
//! the whole orbit model is verified; the trigonometric evaluation of the
//! eye position and the 4x4 matrix happens outside the library, from exactly
//! the values `build_view_proj_matrix` returns.

use vstd::prelude::*;

verus! {

/// Fixed-point scale: a stored value `v` stands for `v / SCALE`.
pub const SCALE: i64 = 100_000;

/// Per-frame control increment, 0.01 units or radians.
pub const STEP: i64 = 1_000;

/// Smallest permitted orbit radius, 0.1.
pub const RADIUS_MIN: i64 = 10_000;

/// Largest permitted orbit radius, 50.0.
pub const RADIUS_MAX: i64 = 5_000_000;

/// Initial orbit radius, 4.0.
pub const RADIUS_INIT: i64 = 400_000;

/// Initial azimuth, the fixed-point rendering of pi/4.
pub const AZIMUTH_INIT: i64 = 78_540;

/// Initial polar angle, the fixed-point rendering of pi/4.
pub const POLAR_INIT: i64 = 78_540;

/// Smallest permitted polar angle, the fixed-point rendering of pi/10.
pub const POLAR_MIN: i64 = 31_416;

/// Largest permitted polar angle, the fixed-point rendering of 9*pi/10.
pub const POLAR_MAX: i64 = 282_743;

/// Vertical field of view handed to the projection, 45.0.
pub const FOVY_INIT: i64 = 4_500_000;

/// Near clip plane, 0.1.
pub const ZNEAR_INIT: i64 = 10_000;

/// Far clip plane, 100.0.
pub const ZFAR_INIT: i64 = 10_000_000;

/// The exact parameters the per-frame view-projection transform is a
/// function of: a right-handed look-at from the orbit position toward the
/// origin composed with a right-handed perspective projection, remapped to
/// the presentation API's `[0, 1]` depth convention. The presentation
/// layer evaluates the 4x4 float matrix from these values and nothing else.
#[derive(Clone, Copy, Debug, PartialEq, Eq, Structural)]
pub struct ViewProjection {
    pub radius: i64,
    pub azimuth: i64,
    pub polar: i64,
    pub aspect_ratio: i64,
    pub fovy: i64,
    pub znear: i64,
    pub zfar: i64,
}

/// A fixed-point point or direction in world space.
#[derive(Clone, Copy, Debug, PartialEq, Eq, Structural)]
pub struct Fixed3 {
    pub x: i64,
    pub y: i64,
    pub z: i64,
}

/// The six movement flags, one per control key: each is held down or
/// released by a discrete key event and read, never written, by the
/// per-frame control step.
#[derive(Clone, Copy, Debug, PartialEq, Eq, Structural)]
pub struct CameraController {
    /// Increase the polar angle.
    pub w: bool,
    /// Decrease the azimuth.
    pub a: bool,
    /// Decrease the polar angle.
    pub s: bool,
    /// Increase the azimuth.
    pub d: bool,
    /// Increase the radius.
    pub e: bool,
    /// Decrease the radius.
    pub q: bool,
}

/// The orbit camera: spherical orbit state, the fixed look-at frame, the
/// projection parameters, and the control flags that drive the orbit.
#[derive(Clone, Copy, Debug, PartialEq, Eq, Structural)]
pub struct Camera {
    /// Distance from the look-at target.
    pub radius: i64,
    /// Azimuth angle theta; unbounded, never clamped.
    pub azimuth: i64,
    /// Polar angle phi, kept away from the poles.
    pub polar: i64,
    /// Look-at target, fixed at the world origin.
    pub target: Fixed3,
    /// Up direction, fixed at +Y.
    pub up: Fixed3,
    /// Width over height of the presentation surface.
    pub aspect_ratio: i64,
    /// Vertical field of view of the projection.
    pub fovy: i64,
    /// Near clip plane of the projection.
    pub znear: i64,
    /// Far clip plane of the projection.
    pub zfar: i64,
    /// The movement flags currently asserted.
    pub cam_controller: CameraController,
}

/// The orbit components of a camera as unbounded integers: the values the
/// control step is reasoned about with.
pub ghost struct OrbitModel {
    pub radius: int,
    pub azimuth: int,
    pub polar: int,
}

/// `v` clamped to `[lo, hi]`.
pub open spec fn clamped(v: int, lo: int, hi: int) -> int {
    if v < lo {
        lo
    } else if v > hi {
        hi
    } else {
        v
    }
}

/// One control increment applied to `v`: `+STEP` if `inc` is held,
/// `-STEP` if `dec` is held; both cancel out.
pub open spec fn stepped(v: int, inc: bool, dec: bool) -> int {
    v + (if inc { STEP as int } else { 0 }) - (if dec { STEP as int } else { 0 })
}

/// The fixed-point aspect ratio of a `width` by `height` surface.
pub open spec fn aspect_of(width: int, height: int) -> int
    recommends
        height > 0,
{
    (width * SCALE) / height
}

/// The camera state a freshly constructed viewer starts from: default
/// orbit, target at the origin, up = +Y, the default projection, and no
/// movement flag asserted.
pub open spec fn spec_initial_camera(width: int, height: int) -> Camera {
    Camera {
        radius: RADIUS_INIT,
        azimuth: AZIMUTH_INIT,
        polar: POLAR_INIT,
        target: Fixed3 { x: 0, y: 0, z: 0 },
        up: Fixed3 { x: 0, y: SCALE, z: 0 },
        aspect_ratio: aspect_of(width, height) as i64,
        fovy: FOVY_INIT,
        znear: ZNEAR_INIT,
        zfar: ZFAR_INIT,
        cam_controller: CameraController {
            w: false,
            a: false,
            s: false,
            d: false,
            e: false,
            q: false,
        },
    }
}

/// One control step applied to an orbit: each held flag adds or subtracts
/// `STEP` from its component, then radius and polar angle are clamped to
/// their invariant ranges; the azimuth is left unclamped.
pub open spec fn step_orbit(m: OrbitModel, f: CameraController) -> OrbitModel {
    OrbitModel {
        radius: clamped(stepped(m.radius, f.e, f.q), RADIUS_MIN as int, RADIUS_MAX as int),
        azimuth: stepped(m.azimuth, f.d, f.a),
        polar: clamped(stepped(m.polar, f.w, f.s), POLAR_MIN as int, POLAR_MAX as int),
    }
}

/// The view-projection parameters a camera derives: its orbit state
/// together with its projection parameters, nothing else — in particular
/// the control flags play no part.
pub open spec fn spec_view_projection(c: Camera) -> ViewProjection {
    ViewProjection {
        radius: c.radius,
        azimuth: c.azimuth,
        polar: c.polar,
        aspect_ratio: c.aspect_ratio,
        fovy: c.fovy,
        znear: c.znear,
        zfar: c.zfar,
    }
}

impl Camera {
    /// The orbit invariant: radius and polar angle inside their clamp
    /// ranges, so the derived look-at frame is never degenerate.
    pub open spec fn orbit_wf(self) -> bool {
        &&& RADIUS_MIN <= self.radius <= RADIUS_MAX
        &&& POLAR_MIN <= self.polar <= POLAR_MAX
    }

    /// The orbit components as unbounded integers.
    pub open spec fn orbit(self) -> OrbitModel {
        OrbitModel { radius: self.radius as int, azimuth: self.azimuth as int, polar: self.polar as int }
    }

    /// A camera for a viewport of the given dimensions. The caller must
    /// guarantee a positive height; the aspect ratio is width over height.
    pub fn from_dimensions(width: u32, height: u32) -> (c: Camera)
        requires
            height > 0,
        ensures
            c == spec_initial_camera(width as int, height as int),
            c.orbit_wf(),
    {
        Camera {
            radius: RADIUS_INIT,
            azimuth: AZIMUTH_INIT,
            polar: POLAR_INIT,
            target: Fixed3 { x: 0, y: 0, z: 0 },
            up: Fixed3 { x: 0, y: SCALE, z: 0 },
            aspect_ratio: (width as i64 * SCALE) / (height as i64),
            fovy: FOVY_INIT,
            znear: ZNEAR_INIT,
            zfar: ZFAR_INIT,
            cam_controller: CameraController {
                w: false,
                a: false,
                s: false,
                d: false,
                e: false,
                q: false,
            },
        }
    }

    /// The per-frame control step: a discrete-time integrator with a fixed
    /// step size. For each movement flag held, the corresponding orbit
    /// component moves by `STEP`; radius and polar angle are then clamped
    /// to their invariant ranges, the azimuth accumulates without bound.
    /// The bound required of the azimuth is the machine limit alone.
    pub fn update(&mut self)
        requires
            old(self).orbit_wf(),
            i64::MIN + STEP <= old(self).azimuth <= i64::MAX - STEP,
        ensures
            final(self).orbit() == step_orbit(old(self).orbit(), old(self).cam_controller),
            final(self).orbit_wf(),
            *final(self) == (Camera {
                radius: final(self).radius,
                azimuth: final(self).azimuth,
                polar: final(self).polar,
                ..*old(self)
            }),
    {
        let mut radius: i64 = self.radius;
        let mut azimuth: i64 = self.azimuth;
        let mut polar: i64 = self.polar;

        if self.cam_controller.e {
            radius = radius + STEP;
        }
        if self.cam_controller.q {
            radius = radius - STEP;
        }
        if self.cam_controller.d {
            azimuth = azimuth + STEP;
        }
        if self.cam_controller.a {
            azimuth = azimuth - STEP;
        }
        if self.cam_controller.w {
            polar = polar + STEP;
        }
        if self.cam_controller.s {
            polar = polar - STEP;
        }

        self.radius = clamp_fixed(radius, RADIUS_MIN, RADIUS_MAX);
        self.azimuth = azimuth;
        self.polar = clamp_fixed(polar, POLAR_MIN, POLAR_MAX);
    }

    /// Overwrite the aspect ratio; called from the resize path alone.
    pub fn set_aspect_ratio(&mut self, new_ratio: i64)
        requires
            new_ratio >= 0,
        ensures
            *final(self) == (Camera { aspect_ratio: new_ratio, ..*old(self) }),
    {
        self.aspect_ratio = new_ratio;
    }

    /// The parameters of this frame's view-projection transform. The
    /// transform is a pure function of these seven values; recomputing it
    /// from them every frame, never incrementally, is what keeps it free
    /// of drift.
    pub fn build_view_proj_matrix(&self) -> (vp: ViewProjection)
        ensures
            vp == spec_view_projection(*self),
    {
        ViewProjection {
            radius: self.radius,
            azimuth: self.azimuth,
            polar: self.polar,
            aspect_ratio: self.aspect_ratio,
            fovy: self.fovy,
            znear: self.znear,
            zfar: self.zfar,
        }
    }
}

/// The orbit reached from `m` after the given sequence of control steps,
/// the flags of each step taken as they stood when that frame ran.
pub open spec fn run_orbit(m: OrbitModel, fs: Seq<CameraController>) -> OrbitModel
    decreases fs.len(),
{
    if fs.len() == 0 {
        m
    } else {
        run_orbit(step_orbit(m, fs[0]), fs.drop_first())
    }
}

/// The net azimuth movement one control step asks for.
pub open spec fn azimuth_delta(f: CameraController) -> int {
    (if f.d { STEP as int } else { 0 }) - (if f.a { STEP as int } else { 0 })
}

/// The net azimuth movement a sequence of control steps asks for.
pub open spec fn total_azimuth_delta(fs: Seq<CameraController>) -> int
    decreases fs.len(),
{
    if fs.len() == 0 {
        0
    } else {
        azimuth_delta(fs[0]) + total_azimuth_delta(fs.drop_first())
    }
}

/// However many control steps run, and whatever flags each step finds
/// held, the clamped radius stays within `[RADIUS_MIN, RADIUS_MAX]`.
pub proof fn lemma_radius_stays_clamped(m: OrbitModel, fs: Seq<CameraController>)
    requires
        RADIUS_MIN <= m.radius <= RADIUS_MAX,
    ensures
        RADIUS_MIN <= run_orbit(m, fs).radius <= RADIUS_MAX,
    decreases fs.len(),
{
    if fs.len() > 0 {
        lemma_radius_stays_clamped(step_orbit(m, fs[0]), fs.drop_first());
    }
}

/// However many control steps run, the clamped polar angle stays within
/// `[POLAR_MIN, POLAR_MAX]`: the orbit never reaches a pole.
pub proof fn lemma_polar_stays_clamped(m: OrbitModel, fs: Seq<CameraController>)
    requires
        POLAR_MIN <= m.polar <= POLAR_MAX,
    ensures
        POLAR_MIN <= run_orbit(m, fs).polar <= POLAR_MAX,
    decreases fs.len(),
{
    if fs.len() > 0 {
        lemma_polar_stays_clamped(step_orbit(m, fs[0]), fs.drop_first());
    }
}

/// The azimuth is never clamped: across any sequence of control steps it
/// accumulates exactly the signed sum of the steps asked for.
pub proof fn lemma_azimuth_accumulates(m: OrbitModel, fs: Seq<CameraController>)
    ensures
        run_orbit(m, fs).azimuth == m.azimuth + total_azimuth_delta(fs),
    decreases fs.len(),
{
    if fs.len() > 0 {
        lemma_azimuth_accumulates(step_orbit(m, fs[0]), fs.drop_first());
    }
}

/// The view-projection transform is a pure function of radius, azimuth,
/// polar angle, aspect ratio, field of view and the two clip planes: two
/// cameras that agree on those seven values derive identical parameters,
/// whatever their control flags.
pub proof fn lemma_view_projection_pure(a: Camera, b: Camera)
    requires
        a.radius == b.radius,
        a.azimuth == b.azimuth,
        a.polar == b.polar,
        a.aspect_ratio == b.aspect_ratio,
        a.fovy == b.fovy,
        a.znear == b.znear,
        a.zfar == b.zfar,
    ensures
        spec_view_projection(a) == spec_view_projection(b),
{
}

/// `v` clamped to `[lo, hi]`, as a value.
fn clamp_fixed(v: i64, lo: i64, hi: i64) -> (r: i64)
    requires
        lo <= hi,
    ensures
        r == clamped(v as int, lo as int, hi as int),
{
    if v < lo {
        lo
    } else if v > hi {
        hi
    } else {
        v
    }
}

} // verus!
