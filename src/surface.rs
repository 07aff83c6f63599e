//! The presentation surface: format negotiation and its size.

use vstd::prelude::*;

verus! {

/// A surface extent is never zero: a zero dimension becomes one.
pub open spec fn clamp_extent(n: u32) -> u32 {
    if n == 0 {
        1
    } else {
        n
    }
}

/// How presented frames are paced.
#[derive(Clone, Copy, Debug, PartialEq, Eq, Structural)]
pub enum PresentMode {
    /// First in, first out: frames wait for the display, so drawing is capped
    /// at the refresh rate.
    Fifo,
}

/// Why a surface cannot be configured.
#[derive(Clone, Copy, Debug, PartialEq, Eq, Structural)]
pub enum CapsError {
    /// The surface reports no pixel format for this adapter.
    NoFormat,
    /// The surface reports no alpha compositing mode for this adapter.
    NoAlphaMode,
}


/// Picks the first supported format and the first supported alpha mode.
pub fn negotiate<F: Copy, A: Copy>(formats: &Vec<F>, alpha_modes: &Vec<A>) -> (r: Result<
    (F, A),
    CapsError,
>)
    ensures
        formats@.len() == 0 ==> r == Err::<(F, A), CapsError>(CapsError::NoFormat),
        formats@.len() > 0 && alpha_modes@.len() == 0 ==> r == Err::<(F, A), CapsError>(
            CapsError::NoAlphaMode,
        ),
        formats@.len() > 0 && alpha_modes@.len() > 0 ==> r == Ok::<(F, A), CapsError>(
            (formats@[0], alpha_modes@[0]),
        ),
{
    if formats.len() == 0 {
        return Err(CapsError::NoFormat);
    }
    if alpha_modes.len() == 0 {
        return Err(CapsError::NoAlphaMode);
    }
    Ok((formats[0], alpha_modes[0]))
}

/// The FIFO-paced configuration for a window of `width` by `height`, each
/// dimension clamped to at least one.
pub open spec fn fifo_config<F, A>(format: F, alpha_mode: A, width: u32, height: u32) -> SurfaceConfig<
    F,
    A,
> {
    SurfaceConfig {
        format,
        alpha_mode,
        present_mode: PresentMode::Fifo,
        width: clamp_extent(width),
        height: clamp_extent(height),
    }
}

/// The configuration applied to the presentation surface.
pub struct SurfaceConfig<F, A> {
    pub format: F,
    pub alpha_mode: A,
    pub present_mode: PresentMode,
    pub width: u32,
    pub height: u32,
}

impl<F, A> SurfaceConfig<F, A> {
    /// Neither dimension is zero.
    pub open spec fn wf(&self) -> bool {
        self.width >= 1 && self.height >= 1
    }

    /// A FIFO-paced configuration for a window of the given size, each
    /// dimension clamped to at least one.
    pub fn new(format: F, alpha_mode: A, width: u32, height: u32) -> (r: Self)
        ensures
            r.wf(),
            r == fifo_config(format, alpha_mode, width, height),
    {
        SurfaceConfig {
            format,
            alpha_mode,
            present_mode: PresentMode::Fifo,
            width: if width == 0 { 1 } else { width },
            height: if height == 0 { 1 } else { height },
        }
    }

    /// Follows the window to a new size, each dimension clamped to at least
    /// one; format, alpha and present modes stay.
    pub fn resize(&mut self, width: u32, height: u32)
        ensures
            final(self).wf(),
            final(self).width == clamp_extent(width),
            final(self).height == clamp_extent(height),
            final(self).format == old(self).format,
            final(self).alpha_mode == old(self).alpha_mode,
            final(self).present_mode == old(self).present_mode,
    {
        self.width = if width == 0 { 1 } else { width };
        self.height = if height == 0 { 1 } else { height };
    }
}

} // verus!
