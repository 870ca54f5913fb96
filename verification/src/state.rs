//! The render state and its event-driven lifecycle.
//!
//! One `State` value aggregates everything the demo decides per event:
//! the stored surface dimensions and whether the surface has been
//! configured, the active shape and pipeline selection, the index counts
//! recorded for the draw calls, and the mouse-derived background tint.
//! Each handler is specified by a spec-level transition function, and the
//! per-frame work is planned here and executed by the unverified shell.

use vstd::prelude::*;

use crate::consts::pentagon_index_seq;
use crate::consts::pentagon_indices;
use crate::consts::star_index_seq;
use crate::consts::star_indices;

verus! {

/// Which of the two built-in shapes is currently shown.
#[derive(Clone, Copy, PartialEq, Eq, Structural, Debug)]
pub enum ShapeType {
    Pentagon,
    Star,
}

/// The shape the space-bar toggle switches to from `s`.
pub open spec fn spec_other_shape(s: ShapeType) -> ShapeType {
    match s {
        ShapeType::Pentagon => ShapeType::Star,
        ShapeType::Star => ShapeType::Pentagon,
    }
}

/// The keys the demo reacts to; every other key is `Other`.
#[derive(Clone, Copy, PartialEq, Eq, Structural, Debug)]
pub enum KeyCode {
    Escape,
    Space,
    Other,
}

/// What the shell must do after a key event.
#[derive(Clone, Copy, PartialEq, Eq, Structural, Debug)]
pub enum KeyAction {
    RequestExit,
    Toggled,
    Ignored,
}

/// A ratio `num / den` confined to the unit interval: `den` is positive and
/// `num` never exceeds it. Carries color components without floating point.
#[derive(Clone, Copy, PartialEq, Eq, Structural, Debug)]
pub struct UnitRatio {
    pub num: u32,
    pub den: u32,
}

/// A valid unit ratio: positive denominator, numerator at most the
/// denominator, so the value lies in [0, 1].
pub open spec fn unit_ratio_wf(r: UnitRatio) -> bool {
    1 <= r.den && r.num <= r.den
}

/// The color a render target is reset to before drawing, as unit ratios.
#[derive(Clone, Copy, PartialEq, Eq, Structural, Debug)]
pub struct ClearColor {
    pub r: UnitRatio,
    pub g: UnitRatio,
    pub b: UnitRatio,
    pub a: UnitRatio,
}

/// One frame's draw: which pipeline to bind, which shape's buffer pair to
/// bind, how many indices the single indexed draw covers, and the clear
/// color.
#[derive(Clone, Copy, PartialEq, Eq, Structural, Debug)]
pub struct DrawPlan {
    pub use_colored_pipeline: bool,
    pub shape: ShapeType,
    pub num_indices: u32,
    pub clear: ClearColor,
}

/// What a frame does: nothing while the surface is not yet configured,
/// else a single clear-and-draw pass.
#[derive(Clone, Copy, PartialEq, Eq, Structural, Debug)]
pub enum FramePlan {
    Skip,
    Draw(DrawPlan),
}

/// How a failed surface-texture acquire is classified by the shell.
#[derive(Clone, Copy, PartialEq, Eq, Structural, Debug)]
pub enum SurfaceErrorKind {
    Timeout,
    Outdated,
    Lost,
    OutOfMemory,
    Other,
}

/// What the shell must do after a failed frame.
#[derive(Clone, Copy, PartialEq, Eq, Structural, Debug)]
pub enum FrameRecovery {
    Reconfigure,
    DropFrame,
}

/// A lost or outdated surface is recovered by re-configuring at the current
/// window dimensions; any other frame error is logged and the frame dropped.
pub open spec fn spec_recovery(e: SurfaceErrorKind) -> FrameRecovery {
    match e {
        SurfaceErrorKind::Lost => FrameRecovery::Reconfigure,
        SurfaceErrorKind::Outdated => FrameRecovery::Reconfigure,
        _ => FrameRecovery::DropFrame,
    }
}

/// Classify a frame error into the action the shell takes.
pub fn recovery_for(e: SurfaceErrorKind) -> (r: FrameRecovery)
    ensures
        r == spec_recovery(e),
{
    match e {
        SurfaceErrorKind::Lost => FrameRecovery::Reconfigure,
        SurfaceErrorKind::Outdated => FrameRecovery::Reconfigure,
        _ => FrameRecovery::DropFrame,
    }
}

/// The render state: stored surface dimensions, the configured flag, the
/// mouse tint, the coupled shape/pipeline selection, and each shape's
/// recorded index count.
pub struct State {
    pub config_width: u32,
    pub config_height: u32,
    pub is_surface_configured: bool,
    pub mouse_x: UnitRatio,
    pub mouse_y: UnitRatio,
    pub use_colored_pipeline: bool,
    pub num_indices: u32,
    pub star_num_indices: u32,
    pub current_shape: ShapeType,
}

/// A well-formed state: both tint components lie in the unit interval, the
/// pipeline selection is coupled one-to-one to the shape selection, and the
/// recorded index counts are those of the static shapes.
pub open spec fn state_wf(s: State) -> bool {
    &&& unit_ratio_wf(s.mouse_x)
    &&& unit_ratio_wf(s.mouse_y)
    &&& (s.use_colored_pipeline <==> s.current_shape == ShapeType::Star)
    &&& s.num_indices == pentagon_index_seq().len()
    &&& s.star_num_indices == star_index_seq().len()
}

/// The state right after construction: the window's initial dimensions, an
/// unconfigured surface, a zero tint, and the pentagon with the solid
/// pipeline.
pub open spec fn spec_initial(width: u32, height: u32) -> State {
    State {
        config_width: width,
        config_height: height,
        is_surface_configured: false,
        mouse_x: UnitRatio { num: 0, den: 1 },
        mouse_y: UnitRatio { num: 0, den: 1 },
        use_colored_pipeline: false,
        num_indices: pentagon_index_seq().len() as u32,
        star_num_indices: star_index_seq().len() as u32,
        current_shape: ShapeType::Pentagon,
    }
}

/// A resize with two positive dimensions stores them and marks the surface
/// configured; a degenerate resize changes nothing.
pub open spec fn spec_resize(s: State, width: u32, height: u32) -> State {
    if width > 0 && height > 0 {
        State { config_width: width, config_height: height, is_surface_configured: true, ..s }
    } else {
        s
    }
}

/// The space-bar toggle: one combined transition that flips the shape and
/// the pipeline together.
pub open spec fn spec_toggle(s: State) -> State {
    State {
        current_shape: spec_other_shape(s.current_shape),
        use_colored_pipeline: !s.use_colored_pipeline,
        ..s
    }
}

/// How a key event changes the state: only a space-bar press does anything,
/// and it applies the combined toggle.
pub open spec fn spec_key_state(s: State, code: KeyCode, is_pressed: bool) -> State {
    if code == KeyCode::Space && is_pressed {
        spec_toggle(s)
    } else {
        s
    }
}

/// What the shell must do after a key event: exit on Escape-down, note the
/// toggle on Space-down, nothing otherwise.
pub open spec fn spec_key_action(code: KeyCode, is_pressed: bool) -> KeyAction {
    if code == KeyCode::Escape && is_pressed {
        KeyAction::RequestExit
    } else if code == KeyCode::Space && is_pressed {
        KeyAction::Toggled
    } else {
        KeyAction::Ignored
    }
}

/// The pointer coordinate normalized by a surface dimension and clamped to
/// the unit interval, as the exact ratio `clamp(x, 0, dim) / dim`. A zero
/// dimension yields zero: no division by zero can arise, because the
/// denominator of the ratio is never zero.
pub open spec fn spec_clamped_ratio(x: int, dim: u32) -> UnitRatio {
    if dim == 0 {
        UnitRatio { num: 0, den: 1 }
    } else if x < 0 {
        UnitRatio { num: 0, den: dim }
    } else if x > dim {
        UnitRatio { num: dim, den: dim }
    } else {
        UnitRatio { num: x as u32, den: dim }
    }
}

/// How a pointer move changes the state: both tint components are replaced
/// by the normalized, clamped coordinates.
pub open spec fn spec_mouse(s: State, x: int, y: int) -> State {
    State {
        mouse_x: spec_clamped_ratio(x, s.config_width),
        mouse_y: spec_clamped_ratio(y, s.config_height),
        ..s
    }
}

/// The clear color of a frame: the mouse tint in the red and green
/// channels, 3/10 blue, full alpha.
pub open spec fn spec_clear_color(s: State) -> ClearColor {
    ClearColor {
        r: s.mouse_x,
        g: s.mouse_y,
        b: UnitRatio { num: 3, den: 10 },
        a: UnitRatio { num: 1, den: 1 },
    }
}

/// What a frame does in state `s`: a deliberate no-op before the first
/// successful resize, else one clear-and-draw pass over the active shape's
/// full index range with the active pipeline.
pub open spec fn spec_frame_plan(s: State) -> FramePlan {
    if !s.is_surface_configured {
        FramePlan::Skip
    } else {
        FramePlan::Draw(DrawPlan {
            use_colored_pipeline: s.use_colored_pipeline,
            shape: s.current_shape,
            num_indices: if s.current_shape == ShapeType::Pentagon {
                s.num_indices
            } else {
                s.star_num_indices
            },
            clear: spec_clear_color(s),
        })
    }
}

/// Compute one clamped, normalized coordinate without floating point and
/// without dividing: the value of the ratio is `clamp(x / dim, 0, 1)`.
fn clamped_ratio(x: i64, dim: u32) -> (r: UnitRatio)
    ensures
        r == spec_clamped_ratio(x as int, dim),
        unit_ratio_wf(r),
{
    if dim == 0 {
        UnitRatio { num: 0, den: 1 }
    } else if x < 0 {
        UnitRatio { num: 0, den: dim }
    } else if x > dim as i64 {
        UnitRatio { num: dim, den: dim }
    } else {
        UnitRatio { num: x as u32, den: dim }
    }
}

impl State {
    /// Construct the initial render state for a window of the given pixel
    /// dimensions. The surface is not yet configured: a render before the
    /// first successful resize is a deliberate no-op. The index count of
    /// each shape is recorded for the draw calls.
    pub fn new(width: u32, height: u32) -> (s: State)
        ensures
            s == spec_initial(width, height),
            state_wf(s),
            !s.is_surface_configured,
    {
        let pentagon: Vec<u16> = pentagon_indices();
        let star: Vec<u16> = star_indices();
        State {
            config_width: width,
            config_height: height,
            is_surface_configured: false,
            mouse_x: UnitRatio { num: 0, den: 1 },
            mouse_y: UnitRatio { num: 0, den: 1 },
            use_colored_pipeline: false,
            num_indices: pentagon.len() as u32,
            star_num_indices: star.len() as u32,
            current_shape: ShapeType::Pentagon,
        }
    }

    /// Handle a window resize. A degenerate size (either dimension zero,
    /// as for a minimized window) changes nothing; otherwise the new
    /// dimensions are stored and the surface is marked configured. Returns
    /// whether the shell must reconfigure the surface against the device.
    pub fn resize(&mut self, width: u32, height: u32) -> (reconfigure: bool)
        ensures
            *final(self) == spec_resize(*old(self), width, height),
            reconfigure == (width > 0 && height > 0),
            state_wf(*old(self)) ==> state_wf(*final(self)),
    {
        if width > 0 && height > 0 {
            self.config_width = width;
            self.config_height = height;
            self.is_surface_configured = true;
            true
        } else {
            false
        }
    }

    /// Handle a key event. Escape-down asks the shell to exit; Space-down
    /// atomically flips shape and pipeline together; everything else is
    /// ignored.
    pub fn handle_key(&mut self, code: KeyCode, is_pressed: bool) -> (action: KeyAction)
        ensures
            *final(self) == spec_key_state(*old(self), code, is_pressed),
            action == spec_key_action(code, is_pressed),
            state_wf(*old(self)) ==> state_wf(*final(self)),
    {
        match (code, is_pressed) {
            (KeyCode::Escape, true) => KeyAction::RequestExit,
            (KeyCode::Space, true) => {
                self.current_shape = match self.current_shape {
                    ShapeType::Pentagon => ShapeType::Star,
                    ShapeType::Star => ShapeType::Pentagon,
                };
                self.use_colored_pipeline = !self.use_colored_pipeline;
                KeyAction::Toggled
            },
            _ => KeyAction::Ignored,
        }
    }

    /// Handle a pointer move: normalize the raw coordinates by the stored
    /// surface dimensions, clamp each to the unit interval, and store them
    /// as the tint components. Tolerates zero dimensions.
    pub fn handle_mouse_moved(&mut self, x: i64, y: i64)
        ensures
            *final(self) == spec_mouse(*old(self), x as int, y as int),
            unit_ratio_wf(final(self).mouse_x),
            unit_ratio_wf(final(self).mouse_y),
            state_wf(*old(self)) ==> state_wf(*final(self)),
    {
        self.mouse_x = clamped_ratio(x, self.config_width);
        self.mouse_y = clamped_ratio(y, self.config_height);
    }

    /// The reserved per-frame update hook: an extension point that
    /// currently changes nothing.
    pub fn update(&mut self)
        ensures
            *final(self) == *old(self),
    {
    }

    /// Plan the next frame: a no-op while the surface is not yet
    /// configured, else one pass that clears to the mouse tint and issues
    /// a single indexed draw over the active shape's full index range with
    /// the active pipeline. The shell executes the plan and re-requests a
    /// redraw for continuous rendering.
    pub fn render(&mut self) -> (plan: FramePlan)
        ensures
            *final(self) == *old(self),
            plan == spec_frame_plan(*old(self)),
    {
        if !self.is_surface_configured {
            return FramePlan::Skip;
        }
        let num_indices: u32 = match self.current_shape {
            ShapeType::Pentagon => self.num_indices,
            ShapeType::Star => self.star_num_indices,
        };
        FramePlan::Draw(DrawPlan {
            use_colored_pipeline: self.use_colored_pipeline,
            shape: self.current_shape,
            num_indices,
            clear: ClearColor {
                r: self.mouse_x,
                g: self.mouse_y,
                b: UnitRatio { num: 3, den: 10 },
                a: UnitRatio { num: 1, den: 1 },
            },
        })
    }
}

/// A degenerate resize — either dimension zero — is a complete no-op: in
/// particular the configured flag is left unchanged and no reconfiguration
/// is attempted, whatever the prior state.
pub proof fn lemma_resize_degenerate(s: State, width: u32, height: u32)
    requires
        width == 0 || height == 0,
    ensures
        spec_resize(s, width, height) == s,
        spec_resize(s, width, height).is_surface_configured == s.is_surface_configured,
{
}

/// After any resize with two positive dimensions the surface is
/// configured, and a subsequent frame proceeds past the early return to a
/// real draw.
pub proof fn lemma_resize_configures(s: State, width: u32, height: u32)
    requires
        width > 0,
        height > 0,
    ensures
        spec_resize(s, width, height).is_surface_configured,
        spec_frame_plan(spec_resize(s, width, height)) matches FramePlan::Draw(_),
{
}

/// For every state and every pointer position — negative and out-of-bounds
/// included, and with zero surface dimensions tolerated — both stored tint
/// components are valid unit ratios, so their values lie in [0, 1].
pub proof fn lemma_mouse_tint_in_unit(s: State, x: int, y: int)
    ensures
        unit_ratio_wf(spec_mouse(s, x, y).mouse_x),
        unit_ratio_wf(spec_mouse(s, x, y).mouse_y),
        spec_mouse(s, x, y).mouse_x.num <= spec_mouse(s, x, y).mouse_x.den,
        spec_mouse(s, x, y).mouse_y.num <= spec_mouse(s, x, y).mouse_y.den,
{
}

/// The space-bar toggle is involutive: applying it twice restores the
/// state exactly. In particular, two presses from the initial
/// pentagon-with-solid-pipeline selection return to it.
pub proof fn lemma_toggle_involutive(s: State)
    ensures
        spec_toggle(spec_toggle(s)) == s,
        spec_key_state(spec_key_state(s, KeyCode::Space, true), KeyCode::Space, true) == s,
{
}

/// Escape-down always asks the shell to exit and never changes the state,
/// regardless of the current shape and pipeline selection.
pub proof fn lemma_escape_always_exits(s: State)
    ensures
        spec_key_action(KeyCode::Escape, true) == KeyAction::RequestExit,
        spec_key_state(s, KeyCode::Escape, true) == s,
{
}

/// The name of a shape, for the toggle log line.
pub fn shape_name(shape: ShapeType) -> (r: &'static str)
    ensures
        shape == ShapeType::Pentagon ==> r@ == "Pentagon"@,
        shape == ShapeType::Star ==> r@ == "Star"@,
{
    match shape {
        ShapeType::Pentagon => "Pentagon",
        ShapeType::Star => "Star",
    }
}

/// The name of a pipeline selection, for the toggle log line.
pub fn pipeline_name(use_colored_pipeline: bool) -> (r: &'static str)
    ensures
        use_colored_pipeline ==> r@ == "Colored"@,
        !use_colored_pipeline ==> r@ == "Solid red"@,
{
    if use_colored_pipeline {
        "Colored"
    } else {
        "Solid red"
    }
}

} // verus!
