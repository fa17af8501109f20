//! The overlay surfaces and their pixel buffers.
//!
//! Every overlay owns one buffer at a time. While the compositor holds the
//! buffer it must not be replaced; the functions here decide when a new one
//! may be allocated, install it, and keep track of whether the current one
//! has been shown.

use vstd::prelude::*;

use crate::state::{
    buffers,
    first_index,
    layers,
    lemma_first_index,
    LayerSurfaceInfo,
    ObjectId,
    SurfacePhase,
    WaysipState,
};

verus! {

/// What has to be allocated for a fresh buffer.
#[derive(Debug, Clone, Copy, PartialEq, Eq, Structural)]
pub struct BufferRequest {
    /// Index of the overlay the buffer is for.
    pub index: usize,
    /// Width of the buffer in pixels.
    pub width: i32,
    /// Height of the buffer in pixels.
    pub height: i32,
    /// Size of the memory pool in bytes: four for every pixel.
    pub pool_size: i32,
}

/// The answer to a new size for an overlay.
#[derive(Debug, Clone, Copy, PartialEq, Eq, Structural)]
pub enum BufferDecision {
    /// No overlay belongs to the layer object.
    Unknown,
    /// The compositor holds the current buffer; it stays.
    Busy,
    /// The size cannot be expressed in the protocol's signed 32-bit sizes.
    Oversized,
    /// A fresh buffer is to be allocated and installed.
    Allocate(BufferRequest),
}

/// Whether a buffer of this size can be described to the compositor.
pub open spec fn representable(width: u32, height: u32) -> bool {
    width <= i32::MAX && height <= i32::MAX && width * height * 4 <= i32::MAX
}

/// The number of bytes behind a buffer of `height` rows of `stride` bytes,
/// where the protocol's signed 32-bit sizes can express it.
pub open spec fn backing(stride: i32, height: i32) -> Option<int> {
    if stride >= 0 && height >= 0 && stride * height <= i32::MAX {
        Some(stride * height)
    } else {
        None
    }
}

/// Computes the length of the file behind a buffer.
pub fn backing_size(stride: i32, height: i32) -> (length: Option<u64>)
    ensures
        match length {
            Some(bytes) => backing(stride, height) == Some(bytes as int),
            None => backing(stride, height) is None,
        },
{
    if stride < 0 || height < 0 {
        return None;
    }
    assert(stride * height <= 0x4000_0000_0000_0000) by (nonlinear_arith)
        requires
            0 <= stride <= 0x8000_0000,
            0 <= height <= 0x8000_0000,
    ;
    assert(0 <= stride * height) by (nonlinear_arith)
        requires
            0 <= stride,
            0 <= height,
    ;
    let bytes: u64 = (stride as u64) * (height as u64);
    if bytes > i32::MAX as u64 {
        None
    } else {
        Some(bytes)
    }
}

/// The overlays after the show-commit of the one with this layer object has
/// been accounted for: where it was still due, the current buffer counts as
/// shown and as not painted on since.
pub open spec fn after_init(surfaces: Seq<LayerSurfaceInfo>, layer: ObjectId) -> Seq<
    LayerSurfaceInfo,
> {
    match first_index(layers(surfaces), layer) {
        Some(i) => if surfaces[i].inited {
            surfaces
        } else {
            surfaces.update(i, LayerSurfaceInfo { inited: true, drawn: false, ..surfaces[i] })
        },
        None => surfaces,
    }
}

/// Whether the overlay with this layer object still has to be shown.
pub open spec fn init_due(surfaces: Seq<LayerSurfaceInfo>, layer: ObjectId) -> bool {
    match first_index(layers(surfaces), layer) {
        Some(i) => !surfaces[i].inited,
        None => false,
    }
}

/// Whether the overlay at `index` can take a fresh buffer: it exists and the
/// compositor does not hold its current one.
pub open spec fn replaceable(surfaces: Seq<LayerSurfaceInfo>, index: int) -> bool {
    0 <= index < surfaces.len() && !surfaces[index].buffer_busy
}

/// The overlays after the one at `index` has taken a fresh buffer: the
/// buffer is handed to the compositor at once, and nothing of it has been
/// shown or painted.
pub open spec fn after_replace(surfaces: Seq<LayerSurfaceInfo>, index: int, buffer: ObjectId)
    -> Seq<LayerSurfaceInfo> {
    if replaceable(surfaces, index) {
        surfaces.update(
            index,
            LayerSurfaceInfo {
                buffer,
                buffer_busy: true,
                inited: false,
                drawn: false,
                ..surfaces[index]
            },
        )
    } else {
        surfaces
    }
}

/// The overlays after the compositor has released a buffer.
pub open spec fn after_release(surfaces: Seq<LayerSurfaceInfo>, buffer: ObjectId) -> Seq<
    LayerSurfaceInfo,
> {
    match first_index(buffers(surfaces), buffer) {
        Some(i) => surfaces.update(i, LayerSurfaceInfo { buffer_busy: false, ..surfaces[i] }),
        None => surfaces,
    }
}

impl WaysipState {
    /// Whether two sessions differ in their overlays at most.
    pub open spec fn same_but_surfaces(self, other: WaysipState) -> bool {
        &&& self.wloutput_infos == other.wloutput_infos
        &&& self.running == other.running
        &&& self.selection_type == other.selection_type
        &&& self.current_pos == other.current_pos
        &&& self.start_pos == other.start_pos
        &&& self.end_pos == other.end_pos
        &&& self.current_screen == other.current_screen
        &&& self.cursor_manager == other.cursor_manager
        &&& self.predefined_boxes == other.predefined_boxes
        &&& self.aspect_ratio == other.aspect_ratio
        &&& self.last_redraw == other.last_redraw
    }

    /// The answer to a new size for the overlay with this layer object.
    pub open spec fn buffer_decision(self, layer: ObjectId, size: (u32, u32)) -> BufferDecision {
        match self.layer_index(layer) {
            None => BufferDecision::Unknown,
            Some(i) => if self.wl_surfaces@[i].buffer_busy {
                BufferDecision::Busy
            } else if !representable(size.0, size.1) {
                BufferDecision::Oversized
            } else {
                BufferDecision::Allocate(
                    BufferRequest {
                        index: i as usize,
                        width: size.0 as i32,
                        height: size.1 as i32,
                        pool_size: (size.0 * size.1 * 4) as i32,
                    },
                )
            },
        }
    }

    /// Decides whether the overlay with this layer object gets a fresh
    /// buffer of the given width and height.
    ///
    /// While the compositor holds the current buffer nothing is allocated
    /// and nothing is swapped: the answer is [`BufferDecision::Busy`] and
    /// the session, which this function cannot change, keeps the buffer it
    /// has. The fresh buffer is installed with
    /// [`WaysipState::replace_buffer`].
    pub fn ensure_buffer(&self, surface: ObjectId, size: (u32, u32)) -> (decision: BufferDecision)
        ensures
            decision == self.buffer_decision(surface, size),
            decision matches BufferDecision::Allocate(request) ==> replaceable(
                self.wl_surfaces@,
                request.index as int,
            ),
    {
        let (width, height) = size;
        match self.find_layer(surface) {
            None => BufferDecision::Unknown,
            Some(index) => {
                if self.wl_surfaces[index].buffer_busy {
                    return BufferDecision::Busy;
                }
                if width > i32::MAX as u32 || height > i32::MAX as u32 {
                    return BufferDecision::Oversized;
                }
                assert(width * height <= 0x4000_0000_0000_0000) by (nonlinear_arith)
                    requires
                        width <= 0x8000_0000,
                        height <= 0x8000_0000,
                ;
                let pixels: u64 = (width as u64) * (height as u64);
                if pixels > (i32::MAX as u64) / 4 {
                    return BufferDecision::Oversized;
                }
                BufferDecision::Allocate(
                    BufferRequest {
                        index,
                        width: width as i32,
                        height: height as i32,
                        pool_size: (pixels * 4) as i32,
                    },
                )
            },
        }
    }

    /// Installs a freshly allocated buffer in the overlay at `index` and
    /// hands back the buffer it replaces, which the caller destroys.
    ///
    /// A buffer that the compositor holds is never replaced: in that case,
    /// and where there is no such overlay, the session stays as it is and
    /// nothing is handed back.
    pub fn replace_buffer(&mut self, index: usize, buffer: ObjectId) -> (replaced: Option<ObjectId>)
        ensures
            final(self).wl_surfaces@ == after_replace(old(self).wl_surfaces@, index as int, buffer),
            final(self).same_but_surfaces(*old(self)),
            replaced == if replaceable(old(self).wl_surfaces@, index as int) {
                Some(old(self).wl_surfaces@[index as int].buffer)
            } else {
                None
            },
            !replaceable(old(self).wl_surfaces@, index as int) ==> *final(self) == *old(self),
            old(self).wf() ==> final(self).wf(),
    {
        if index >= self.wl_surfaces.len() || self.wl_surfaces[index].buffer_busy {
            return None;
        }
        let replaced = self.wl_surfaces[index].buffer;
        self.wl_surfaces[index].buffer = buffer;
        self.wl_surfaces[index].buffer_busy = true;
        self.wl_surfaces[index].inited = false;
        self.wl_surfaces[index].drawn = false;
        assert(self.wl_surfaces@ =~= after_replace(old(self).wl_surfaces@, index as int, buffer));
        Some(replaced)
    }

    /// Accounts for the one-time show-commit of the overlay with this layer
    /// object, and says whether the caller has to perform it now: attach the
    /// buffer and commit. That is the case exactly if the overlay exists and
    /// its current buffer has not been shown.
    pub fn ensure_init(&mut self, surface: ObjectId) -> (show: bool)
        ensures
            show == init_due(old(self).wl_surfaces@, surface),
            final(self).wl_surfaces@ == after_init(old(self).wl_surfaces@, surface),
            final(self).same_but_surfaces(*old(self)),
            !show ==> *final(self) == *old(self),
            old(self).wf() ==> final(self).wf(),
    {
        match self.find_layer(surface) {
            None => false,
            Some(index) => {
                if self.wl_surfaces[index].inited {
                    assert(self.wl_surfaces@ =~= after_init(old(self).wl_surfaces@, surface));
                    return false;
                }
                self.wl_surfaces[index].inited = true;
                self.wl_surfaces[index].drawn = false;
                assert(self.wl_surfaces@ =~= after_init(old(self).wl_surfaces@, surface));
                true
            },
        }
    }

    /// Accounts for the compositor releasing a buffer: the overlay that owns
    /// it may replace it again.
    pub fn buffer_released(&mut self, buffer: ObjectId)
        ensures
            final(self).wl_surfaces@ == after_release(old(self).wl_surfaces@, buffer),
            final(self).same_but_surfaces(*old(self)),
            old(self).wf() ==> final(self).wf(),
    {
        match self.find_buffer(buffer) {
            None => {},
            Some(index) => {
                self.wl_surfaces[index].buffer_busy = false;
                assert(self.wl_surfaces@ =~= after_release(old(self).wl_surfaces@, buffer));
            },
        }
    }

    /// Adds the overlay of the next display.
    pub fn push_surface(&mut self, surface: LayerSurfaceInfo)
        requires
            old(self).wf(),
            old(self).has_geometry(old(self).wl_surfaces@.len() as int),
            old(self).cursor_manager is None ==> surface.cursor_buffer is Some,
        ensures
            final(self).wl_surfaces@ == old(self).wl_surfaces@.push(surface),
            final(self).same_but_surfaces(*old(self)),
            final(self).wf(),
    {
        self.wl_surfaces.push(surface);
    }
}

/// The show-commit happens once: after it has been accounted for, it is not
/// due again for the same overlay.
pub proof fn lemma_init_once(surfaces: Seq<LayerSurfaceInfo>, layer: ObjectId)
    ensures
        !init_due(after_init(surfaces, layer), layer),
        after_init(after_init(surfaces, layer), layer) == after_init(surfaces, layer),
{
    let shown = after_init(surfaces, layer);
    lemma_first_index(layers(surfaces), layer);
    assert(layers(shown) =~= layers(surfaces));
    assert(after_init(shown, layer) =~= shown);
}

/// The first show-commit takes an overlay from uninitialized to committed.
pub proof fn lemma_init_commits(surfaces: Seq<LayerSurfaceInfo>, layer: ObjectId)
    requires
        init_due(surfaces, layer),
    ensures
        first_index(layers(surfaces), layer) matches Some(i) && surfaces[i].phase()
            == SurfacePhase::Uninitialized && after_init(surfaces, layer)[i].phase()
            == SurfacePhase::Committed,
{
    lemma_first_index(layers(surfaces), layer);
}

/// A fresh buffer followed by its show-commit leaves the overlay committed,
/// whatever phase it was in.
pub proof fn lemma_resize_recommits(
    surfaces: Seq<LayerSurfaceInfo>,
    layer: ObjectId,
    buffer: ObjectId,
)
    requires
        first_index(layers(surfaces), layer) matches Some(i) && replaceable(surfaces, i),
    ensures
        ({
            let i = first_index(layers(surfaces), layer)->Some_0;
            let resized = after_replace(surfaces, i, buffer);
            &&& resized[i].phase() == SurfacePhase::Uninitialized
            &&& init_due(resized, layer)
            &&& after_init(resized, layer)[i].phase() == SurfacePhase::Committed
            &&& after_init(resized, layer)[i].buffer == buffer
            &&& after_init(resized, layer)[i].buffer_busy
        }),
{
    let i = first_index(layers(surfaces), layer)->Some_0;
    let resized = after_replace(surfaces, i, buffer);
    lemma_first_index(layers(surfaces), layer);
    assert(layers(resized) =~= layers(surfaces));
}

/// A buffer that the compositor holds stays: neither a new size nor an
/// attempt to install another buffer changes which buffer an overlay owns.
pub proof fn lemma_busy_buffer_stays(state: WaysipState, layer: ObjectId, size: (u32, u32), buffer:
    ObjectId)
    requires
        state.layer_index(layer) matches Some(i) && state.wl_surfaces@[i].buffer_busy,
    ensures
        state.buffer_decision(layer, size) == BufferDecision::Busy,
        after_replace(state.wl_surfaces@, state.layer_index(layer)->Some_0, buffer)
            == state.wl_surfaces@,
{
}

} // verus!
