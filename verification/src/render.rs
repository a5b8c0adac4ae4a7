//! Per-frame render orchestration: the pipeline toggle, the surface
//! lifecycle that gates rendering until the presentation target is
//! configured, key handling, and the decision taken for each frame.
//!
//! The GPU itself — surface configuration, command encoding, draw
//! submission, presentation — is an outside service. This module decides
//! what that service is asked to do: the application performs each
//! directive and hands surface-acquisition failures back as plain events.

use vstd::prelude::*;

use crate::camera::Camera;
use crate::camera::CameraController;
use crate::camera::STEP;
use crate::camera::ViewProjection;
use crate::camera::aspect_of;
use crate::camera::spec_initial_camera;
use crate::camera::spec_view_projection;
use crate::camera::step_orbit;

verus! {

/// Which precompiled shading pipeline the next draw binds. Exactly two
/// values; flips on a single discrete toggle event.
#[derive(Clone, Copy, Debug, PartialEq, Eq, Structural)]
pub enum PipelineChoice {
    /// The textured shading pipeline the viewer starts with.
    PrimaryShading,
    /// The wireframe-style debug pipeline.
    BarycentricDebug,
}

impl PipelineChoice {
    /// The other pipeline.
    pub open spec fn spec_toggled(self) -> PipelineChoice {
        match self {
            PipelineChoice::PrimaryShading => PipelineChoice::BarycentricDebug,
            PipelineChoice::BarycentricDebug => PipelineChoice::PrimaryShading,
        }
    }

    /// Flip to the other pipeline.
    pub fn toggled(self) -> (r: PipelineChoice)
        ensures
            r == self.spec_toggled(),
    {
        match self {
            PipelineChoice::PrimaryShading => PipelineChoice::BarycentricDebug,
            PipelineChoice::BarycentricDebug => PipelineChoice::PrimaryShading,
        }
    }
}

/// The pipeline after `n` toggle events.
pub open spec fn toggled_times(p: PipelineChoice, n: nat) -> PipelineChoice
    decreases n,
{
    if n == 0 {
        p
    } else {
        toggled_times(p, (n - 1) as nat).spec_toggled()
    }
}

/// Toggling the pipeline an even number of times returns to the original
/// choice.
pub proof fn lemma_even_toggles_restore(p: PipelineChoice, n: nat)
    requires
        n % 2 == 0,
    ensures
        toggled_times(p, n) == p,
    decreases n,
{
    if n >= 2 {
        lemma_even_toggles_restore(p, (n - 2) as nat);
        assert(toggled_times(p, (n - 1) as nat) == toggled_times(p, (n - 2) as nat).spec_toggled());
        assert(toggled_times(p, n) == toggled_times(p, (n - 1) as nat).spec_toggled());
    }
}

/// The dimensions the presentation surface is configured with. Valid only
/// once a resize with two positive dimensions has arrived.
#[derive(Clone, Copy, Debug, PartialEq, Eq, Structural)]
pub struct SurfaceConfig {
    pub width: u32,
    pub height: u32,
}

/// The logical identity of a key event the viewer reacts to.
#[derive(Clone, Copy, Debug, PartialEq, Eq, Structural)]
pub enum Key {
    /// Exit the viewer.
    Escape,
    /// Toggle the shading pipeline.
    Space,
    /// Decrease the radius.
    KeyQ,
    /// Increase the radius.
    KeyE,
    /// Decrease the azimuth.
    KeyA,
    /// Increase the azimuth.
    KeyD,
    /// Increase the polar angle.
    KeyW,
    /// Decrease the polar angle.
    KeyS,
    /// Any key the viewer ignores.
    Other,
}

/// How an attempt to acquire the next presentable image failed: either a
/// recoverable condition (surface lost or outdated), or anything else.
#[derive(Clone, Copy, Debug, PartialEq, Eq, Structural)]
pub enum AcquireError {
    Recoverable,
    Fatal,
}

/// What the application does about a failed acquisition.
#[derive(Clone, Copy, Debug, PartialEq, Eq, Structural)]
pub enum RecoveryAction {
    /// Reconfigure the surface to the current window size and retry on the
    /// next frame.
    ResizeAndRetry,
    /// Report the failure and skip this frame; the viewer keeps running.
    SkipFrameAndReport,
}

/// What this frame's render call does: nothing (while the surface is not
/// yet configured — the redraw loop is still kept alive), or one render
/// pass with the chosen pipeline and one indexed draw over the full index
/// count.
#[derive(Clone, Copy, Debug, PartialEq, Eq, Structural)]
pub enum FrameDirective {
    SkipFrame,
    Draw { pipeline: PipelineChoice, index_count: u32 },
}

/// A recoverable acquisition failure is answered by resizing to the
/// current window size and retrying next frame; any other failure is
/// reported and the frame skipped, never treated as the viewer's end.
pub fn plan_recovery(err: AcquireError) -> (a: RecoveryAction)
    ensures
        a == RecoveryAction::ResizeAndRetry <==> err == AcquireError::Recoverable,
{
    match err {
        AcquireError::Recoverable => RecoveryAction::ResizeAndRetry,
        AcquireError::Fatal => RecoveryAction::SkipFrameAndReport,
    }
}

/// Which of the formats a surface offers the viewer configures it with:
/// the first sRGB-capable one, or the first offered when none is. The
/// formats themselves belong to the presentation layer; the choice is made
/// over their sRGB capabilities and returned as an index into the offer.
pub fn select_surface_format(is_srgb: &Vec<bool>) -> (i: usize)
    requires
        is_srgb.len() > 0,
    ensures
        i < is_srgb.len(),
        (exists|j: int| 0 <= j < is_srgb.len() && is_srgb[j]) ==> {
            &&& is_srgb[i as int]
            &&& forall|j: int| 0 <= j < i ==> !is_srgb[j]
        },
        (forall|j: int| 0 <= j < is_srgb.len() ==> !is_srgb[j]) ==> i == 0,
{
    let mut k: usize = 0;
    while k < is_srgb.len()
        invariant
            k <= is_srgb.len(),
            forall|j: int| 0 <= j < k ==> !is_srgb[j],
        decreases is_srgb.len() - k,
    {
        if is_srgb[k] {
            return k;
        }
        k = k + 1;
    }
    0
}

/// The control-flag settings after one key event: a movement key writes
/// its flag, every other key leaves the flags alone.
pub open spec fn spec_apply_key(c: CameraController, key: Key, pressed: bool) -> CameraController {
    match key {
        Key::KeyQ => CameraController { q: pressed, ..c },
        Key::KeyE => CameraController { e: pressed, ..c },
        Key::KeyA => CameraController { a: pressed, ..c },
        Key::KeyD => CameraController { d: pressed, ..c },
        Key::KeyW => CameraController { w: pressed, ..c },
        Key::KeyS => CameraController { s: pressed, ..c },
        _ => c,
    }
}

/// The render orchestration state: the camera, the pipeline choice, the
/// surface dimensions, whether the surface has been configured, and the
/// fixed index count one draw covers.
pub struct State {
    /// The orbit camera the uniform is derived from each frame.
    pub camera: Camera,
    /// The pipeline the next draw binds.
    pub pipeline: PipelineChoice,
    /// The dimensions the surface was last configured with.
    pub config: SurfaceConfig,
    /// Whether the presentation surface is configured for the current
    /// window size; rendering is gated until it is.
    pub is_surface_configured: bool,
    /// How many indices the one indexed draw covers.
    pub num_indices: u32,
}

impl State {
    /// The state invariant: the camera's orbit inside its clamp ranges.
    pub open spec fn wf(self) -> bool {
        self.camera.orbit_wf()
    }

    /// A fresh orchestrator for a window of the given starting size. The
    /// surface is not yet configured, so frames are skipped until the
    /// first resize with positive dimensions arrives.
    pub fn new(width: u32, height: u32, num_indices: u32) -> (s: State)
        requires
            height > 0,
        ensures
            s.camera == spec_initial_camera(width as int, height as int),
            s.pipeline == PipelineChoice::PrimaryShading,
            s.config == (SurfaceConfig { width, height }),
            !s.is_surface_configured,
            s.num_indices == num_indices,
            s.wf(),
    {
        State {
            camera: Camera::from_dimensions(width, height),
            pipeline: PipelineChoice::PrimaryShading,
            config: SurfaceConfig { width, height },
            is_surface_configured: false,
            num_indices,
        }
    }

    /// A resize event. Two positive dimensions store the new size, mark
    /// the surface configured and give the camera the new aspect ratio; a
    /// zero dimension (a minimized window) changes nothing at all — the
    /// prior configuration and aspect ratio stand.
    pub fn resize(&mut self, width: u32, height: u32)
        ensures
            width > 0 && height > 0 ==> *final(self) == (State {
                camera: Camera {
                    aspect_ratio: aspect_of(width as int, height as int) as i64,
                    ..old(self).camera
                },
                config: SurfaceConfig { width, height },
                is_surface_configured: true,
                ..*old(self)
            }),
            !(width > 0 && height > 0) ==> *final(self) == *old(self),
    {
        if width > 0 && height > 0 {
            self.config.width = width;
            self.config.height = height;
            self.is_surface_configured = true;
            let aspect: i64 = (width as i64 * crate::camera::SCALE) / (height as i64);
            self.camera.set_aspect_ratio(aspect);
        }
    }

    /// One key event. Escape pressed asks the event loop to exit; Space
    /// pressed flips the pipeline; each movement key writes its control
    /// flag from the pressed state; nothing else changes.
    pub fn handle_key(&mut self, key: Key, pressed: bool) -> (exit: bool)
        ensures
            exit <==> (key == Key::Escape && pressed),
            final(self).pipeline == if key == Key::Space && pressed {
                old(self).pipeline.spec_toggled()
            } else {
                old(self).pipeline
            },
            final(self).camera == (Camera {
                cam_controller: spec_apply_key(old(self).camera.cam_controller, key, pressed),
                ..old(self).camera
            }),
            final(self).config == old(self).config,
            final(self).is_surface_configured == old(self).is_surface_configured,
            final(self).num_indices == old(self).num_indices,
    {
        match (key, pressed) {
            (Key::Escape, true) => {
                return true;
            },
            (Key::Space, true) => {
                self.pipeline = self.pipeline.toggled();
            },
            (Key::KeyQ, x) => {
                self.camera.cam_controller.q = x;
            },
            (Key::KeyE, x) => {
                self.camera.cam_controller.e = x;
            },
            (Key::KeyA, x) => {
                self.camera.cam_controller.a = x;
            },
            (Key::KeyD, x) => {
                self.camera.cam_controller.d = x;
            },
            (Key::KeyW, x) => {
                self.camera.cam_controller.w = x;
            },
            (Key::KeyS, x) => {
                self.camera.cam_controller.s = x;
            },
            _ => {},
        }
        false
    }

    /// The per-frame update, run strictly before the frame is rendered:
    /// advance the camera one control step and derive the uniform
    /// parameters the application uploads to the GPU buffer.
    pub fn update(&mut self) -> (vp: ViewProjection)
        requires
            old(self).wf(),
            i64::MIN + STEP <= old(self).camera.azimuth <= i64::MAX - STEP,
        ensures
            final(self).camera.orbit() == step_orbit(
                old(self).camera.orbit(),
                old(self).camera.cam_controller,
            ),
            final(self).camera == (Camera {
                radius: final(self).camera.radius,
                azimuth: final(self).camera.azimuth,
                polar: final(self).camera.polar,
                ..old(self).camera
            }),
            final(self).pipeline == old(self).pipeline,
            final(self).config == old(self).config,
            final(self).is_surface_configured == old(self).is_surface_configured,
            final(self).num_indices == old(self).num_indices,
            vp == spec_view_projection(final(self).camera),
            final(self).wf(),
    {
        self.camera.update();
        self.camera.build_view_proj_matrix()
    }

    /// What this frame's render call does. While the surface is not
    /// configured the frame is skipped (the redraw request is still made);
    /// once configured, one render pass draws the full index count with
    /// the currently selected pipeline.
    pub fn render_directive(&self) -> (d: FrameDirective)
        ensures
            d == if self.is_surface_configured {
                FrameDirective::Draw { pipeline: self.pipeline, index_count: self.num_indices }
            } else {
                FrameDirective::SkipFrame
            },
    {
        if self.is_surface_configured {
            FrameDirective::Draw { pipeline: self.pipeline, index_count: self.num_indices }
        } else {
            FrameDirective::SkipFrame
        }
    }
}

} // verus!
