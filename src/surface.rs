use vstd::prelude::*;

use crate::error::RenderError;

verus! {

/// A window dimension as the surface may use it: zero becomes one.
pub open spec fn clamp_dim(d: u32) -> u32 {
    if d == 0 {
        1
    } else {
        d
    }
}

/// Width and height of the configured surface.
#[derive(Clone, Copy, Debug, PartialEq, Eq, Structural)]
pub struct SurfaceSize {
    pub width: u32,
    pub height: u32,
}

impl SurfaceSize {
    /// No zero-sized surface is ever configured.
    pub open spec fn wf(self) -> bool {
        self.width >= 1 && self.height >= 1
    }

    pub open spec fn spec_clamped(width: u32, height: u32) -> SurfaceSize {
        SurfaceSize { width: clamp_dim(width), height: clamp_dim(height) }
    }

    /// The size `width` x `height`, each raised to at least one.
    pub fn clamped(width: u32, height: u32) -> (s: SurfaceSize)
        ensures
            s == Self::spec_clamped(width, height),
            s.wf(),
    {
        let w: u32 = if width == 0 { 1 } else { width };
        let h: u32 = if height == 0 { 1 } else { height };
        SurfaceSize { width: w, height: h }
    }
}

/// The camera's aspect ratio, `width / height`, kept as the exact pair.
#[derive(Clone, Copy, Debug, PartialEq, Eq, Structural)]
pub struct AspectRatio {
    pub width: u32,
    pub height: u32,
}

/// The part of the render state that window geometry drives: the surface
/// configuration's size and the camera's aspect ratio.
#[derive(Clone, Copy, Debug, PartialEq, Eq, Structural)]
pub struct ViewState {
    pub surface: SurfaceSize,
    pub aspect: AspectRatio,
}

impl ViewState {
    pub open spec fn spec_for_size(width: u32, height: u32) -> ViewState {
        let s = SurfaceSize::spec_clamped(width, height);
        ViewState { surface: s, aspect: AspectRatio { width: s.width, height: s.height } }
    }

    /// The surface is never zero-sized and the camera's aspect is always the
    /// surface's width over its height.
    pub open spec fn wf(self) -> bool {
        &&& self.surface.wf()
        &&& self.aspect.width == self.surface.width
        &&& self.aspect.height == self.surface.height
    }

    /// State for a window whose physical size is `width` x `height`.
    pub fn new(width: u32, height: u32) -> (v: ViewState)
        ensures
            v == Self::spec_for_size(width, height),
            v.wf(),
    {
        let s = SurfaceSize::clamped(width, height);
        ViewState { surface: s, aspect: AspectRatio { width: s.width, height: s.height } }
    }

    /// Takes a new window size: clamps it, stores it as the surface size and
    /// sets the camera's aspect to match. Returns the size to apply to the
    /// surface.
    pub fn reconfigure(&mut self, width: u32, height: u32) -> (s: SurfaceSize)
        ensures
            *final(self) == Self::spec_for_size(width, height),
            final(self).wf(),
            s == final(self).surface,
    {
        *self = ViewState::new(width, height);
        self.surface
    }
}

/// The first entry of `options`, if there is one.
pub open spec fn spec_first<T>(options: Seq<T>) -> Option<T> {
    if options.len() == 0 {
        None
    } else {
        Some(options[0])
    }
}

/// Picks the surface format and alpha mode: the first of each that the
/// adapter reports. An adapter that reports none cannot present to the
/// surface.
pub fn choose_surface_modes<F: Copy, A: Copy>(formats: &Vec<F>, alpha_modes: &Vec<A>) -> (r:
    Result<(F, A), RenderError>)
    ensures
        match r {
            Ok((f, a)) => spec_first(formats@) == Some(f) && spec_first(alpha_modes@) == Some(a),
            Err(e) => e == RenderError::AdapterUnavailable && (formats@.len() == 0
                || alpha_modes@.len() == 0),
        },
{
    if formats.len() == 0 || alpha_modes.len() == 0 {
        Err(RenderError::AdapterUnavailable)
    } else {
        Ok((formats[0], alpha_modes[0]))
    }
}

} // verus!
