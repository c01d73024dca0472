use vstd::prelude::*;

verus! {

/// The viewport covering the whole client area, from the top-left corner and
/// over the full depth range.
#[derive(Clone, Copy, Debug, PartialEq, Eq, Structural)]
pub struct Viewport {
    pub width: u32,
    pub height: u32,
}

#[derive(Clone, Copy, Debug, PartialEq, Eq, Structural)]
pub struct ScissorRect {
    pub left: i32,
    pub top: i32,
    pub right: i32,
    pub bottom: i32,
}

/// What a window of a given client size is bound with: the swap chain's
/// buffer count and size, the viewport and the scissor rectangle.
#[derive(Clone, Copy, Debug, PartialEq, Eq, Structural)]
pub struct SurfaceLayout {
    pub width: u32,
    pub height: u32,
    pub buffer_count: u32,
    pub viewport: Viewport,
    pub scissor: ScissorRect,
}

#[derive(Clone, Copy, Debug, PartialEq, Eq, Structural)]
pub enum SurfaceError {
    /// A side of the client area does not fit a scissor coordinate.
    TooLarge,
    NoBackBuffers,
}

/// The layout for a client area of `width` x `height` with `buffer_count`
/// back buffers.
pub fn surface_layout(width: u32, height: u32, buffer_count: u32) -> (r: Result<SurfaceLayout, SurfaceError>)
    ensures
        buffer_count == 0 ==> r == Err::<SurfaceLayout, SurfaceError>(SurfaceError::NoBackBuffers),
        buffer_count > 0 && (width > i32::MAX || height > i32::MAX)
            ==> r == Err::<SurfaceLayout, SurfaceError>(SurfaceError::TooLarge),
        buffer_count > 0 && width <= i32::MAX && height <= i32::MAX
            ==> r == Ok::<SurfaceLayout, SurfaceError>(
            SurfaceLayout {
                width,
                height,
                buffer_count,
                viewport: Viewport { width, height },
                scissor: ScissorRect { left: 0, top: 0, right: width as i32, bottom: height as i32 },
            },
        ),
{
    if buffer_count == 0 {
        return Err(SurfaceError::NoBackBuffers);
    }
    if width > i32::MAX as u32 || height > i32::MAX as u32 {
        return Err(SurfaceError::TooLarge);
    }
    Ok(
        SurfaceLayout {
            width,
            height,
            buffer_count,
            viewport: Viewport { width, height },
            scissor: ScissorRect { left: 0, top: 0, right: width as i32, bottom: height as i32 },
        },
    )
}

/// The CPU address of the render-target view of back buffer `index`, in a
/// descriptor heap that starts at `heap_start` with `increment` bytes between
/// descriptors; `None` where the address does not fit.
pub fn rtv_address(heap_start: usize, increment: usize, index: u32) -> (r: Option<usize>)
    ensures
        heap_start + index * increment <= usize::MAX ==> r == Some(
            (heap_start + index * increment) as usize,
        ),
        heap_start + index * increment > usize::MAX ==> r is None,
{
    let i = index as usize;
    if increment != 0 {
        let q = usize::MAX / increment;
        if i > q {
            proof {
                assert(i * increment > usize::MAX) by (nonlinear_arith)
                    requires
                        increment > 0,
                        i > q,
                        q == usize::MAX / increment,
                ;
            }
            return None;
        }
        proof {
            assert(i * increment <= usize::MAX) by (nonlinear_arith)
                requires
                    increment > 0,
                    i <= q,
                    q == usize::MAX / increment,
            ;
        }
    }
    let offset = i * increment;
    if offset > usize::MAX - heap_start {
        return None;
    }
    Some(heap_start + offset)
}

} // verus!
