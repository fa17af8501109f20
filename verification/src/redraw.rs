//! Repainting: which overlays are painted when, and with what.
//!
//! A repaint is asked for by committing every overlay with a frame callback.
//! When the compositor acknowledges the frame of the current display, the
//! overlays are painted. The painting itself is the caller's; this module
//! hands out the jobs.

use vstd::prelude::*;

use crate::state::{LayerSurfaceInfo, ObjectId, SelectionType, SurfacePhase, WaysipState};
use crate::utils::{Position, Size};

verus! {

/// A frame callback to request on a surface before it is committed.
#[derive(Debug, Clone, Copy, PartialEq, Eq, Structural)]
pub struct FrameRequest {
    /// The surface to commit.
    pub surface: ObjectId,
    /// Index of the overlay, handed back with the acknowledgment.
    pub index: usize,
}

/// One overlay to paint.
#[derive(Debug, PartialEq, Eq)]
pub enum PaintJob {
    /// Paint a display for the selection of a whole display: highlighted and
    /// labelled with its name, description and position where it is the
    /// selected one, veiled otherwise.
    Screen {
        /// Index of the overlay.
        index: usize,
        /// Whether the pointer is on this display.
        selected: bool,
        /// Logical size of the display.
        size: Size,
        /// Logical position of the display.
        position: Position,
        name: String,
        description: String,
    },
    /// Paint the selection in progress.
    Selection {
        /// Index of the overlay.
        index: usize,
        /// Start of the selection.
        start: Position<i64>,
        /// End of the selection, where it has one.
        end: Option<Position<i64>>,
        /// Logical position of the display.
        offset: Position,
        /// Logical size of the display.
        size: Size,
        /// Whether the selection is labelled with its position and size.
        draw_text: bool,
        /// Whether the candidate boxes are painted.
        draw_boxes: bool,
    },
}

/// The overlays after those that `painted` picks have been painted on.
pub open spec fn after_paint(
    surfaces: Seq<LayerSurfaceInfo>,
    painted: spec_fn(int, LayerSurfaceInfo) -> bool,
) -> Seq<LayerSurfaceInfo> {
    Seq::new(
        surfaces.len(),
        |i: int|
            if painted(i, surfaces[i]) {
                LayerSurfaceInfo { drawn: true, ..surfaces[i] }
            } else {
                surfaces[i]
            },
    )
}

impl WaysipState {
    /// The frame callbacks of a repaint: one for every overlay, in order.
    pub open spec fn frame_requests(self) -> Seq<FrameRequest> {
        Seq::new(
            self.wl_surfaces@.len(),
            |i: int| FrameRequest { surface: self.wl_surfaces@[i].wl_surface, index: i as usize },
        )
    }

    /// Lists the frame callbacks to request for a repaint; the caller
    /// requests each and commits its surface.
    pub fn commit(&self) -> (requests: Vec<FrameRequest>)
        ensures
            requests@ == self.frame_requests(),
    {
        let mut requests: Vec<FrameRequest> = Vec::new();
        let mut i: usize = 0;
        while i < self.wl_surfaces.len()
            invariant
                i <= self.wl_surfaces@.len(),
                requests@.len() == i,
                forall|j: int| 0 <= j < i ==> requests@[j] == self.frame_requests()[j],
            decreases self.wl_surfaces@.len() - i,
        {
            requests.push(FrameRequest { surface: self.wl_surfaces[i].wl_surface, index: i });
            i = i + 1;
        }
        assert(requests@ =~= self.frame_requests());
        requests
    }

    /// The job that paints the display at `index` for the selection of a
    /// whole display.
    pub open spec fn screen_job(self, index: int) -> PaintJob {
        PaintJob::Screen {
            index: index as usize,
            selected: index == self.current_screen,
            size: self.wloutput_infos@[index].xdg_output_info->Some_0.size,
            position: self.wloutput_infos@[index].xdg_output_info->Some_0.start_position,
            name: self.wloutput_infos@[index].xdg_output_info->Some_0.name,
            description: self.wloutput_infos@[index].xdg_output_info->Some_0.description,
        }
    }

    /// The jobs that paint the first `count` displays for the selection of a
    /// whole display: one for every overlay that has been shown, in order.
    pub open spec fn screen_jobs(self, count: int) -> Seq<PaintJob>
        decreases count,
    {
        if count <= 0 {
            Seq::empty()
        } else if self.wl_surfaces@[count - 1].inited {
            self.screen_jobs(count - 1).push(self.screen_job(count - 1))
        } else {
            self.screen_jobs(count - 1)
        }
    }

    /// The job that paints the selection in progress on the overlay at
    /// `index`.
    pub open spec fn selection_job(self, index: int) -> PaintJob {
        PaintJob::Selection {
            index: index as usize,
            start: self.start_pos->Some_0,
            end: self.end_pos,
            offset: self.wloutput_infos@[index].xdg_output_info->Some_0.start_position,
            size: self.wloutput_infos@[index].xdg_output_info->Some_0.size,
            draw_text: self.selection_type == SelectionType::Area,
            draw_boxes: self.predefined_boxes is Some,
        }
    }

    /// The jobs of a repaint triggered for the overlay with this layer
    /// object.
    ///
    /// Where a whole display is selected, every overlay that has been shown
    /// is painted, so that the highlight follows the pointer from display to
    /// display. Otherwise the overlay itself is painted, once the selection
    /// has a start. An unknown layer object paints nothing.
    pub open spec fn paint_jobs(self, layer: ObjectId) -> Seq<PaintJob> {
        match self.layer_index(layer) {
            None => Seq::empty(),
            Some(k) => if self.selection_type == SelectionType::Screen {
                self.screen_jobs(self.wl_surfaces@.len() as int)
            } else if self.start_pos is None {
                Seq::empty()
            } else {
                seq![self.selection_job(k)]
            },
        }
    }

    /// The overlays after a repaint triggered for the overlay with this
    /// layer object: those that were painted count as painted on.
    pub open spec fn painted_surfaces(self, layer: ObjectId) -> Seq<LayerSurfaceInfo> {
        match self.layer_index(layer) {
            None => self.wl_surfaces@,
            Some(k) => if self.selection_type == SelectionType::Screen {
                after_paint(self.wl_surfaces@, |i: int, s: LayerSurfaceInfo| s.inited)
            } else if self.start_pos is None {
                self.wl_surfaces@
            } else {
                after_paint(self.wl_surfaces@, |i: int, s: LayerSurfaceInfo| i == k)
            },
        }
    }

    /// Builds the job that paints the display at `index` for the selection
    /// of a whole display.
    fn make_screen_job(&self, index: usize) -> (job: PaintJob)
        requires
            self.has_geometry(index as int),
        ensures
            job == self.screen_job(index as int),
    {
        let geometry = self.wloutput_infos[index].xdg_output_info.as_ref().unwrap();
        PaintJob::Screen {
            index,
            selected: index == self.current_screen,
            size: geometry.size,
            position: geometry.start_position,
            name: geometry.name.clone(),
            description: geometry.description.clone(),
        }
    }

    /// Paints for the selection of a whole display.
    fn redraw_screens(&mut self) -> (jobs: Vec<PaintJob>)
        requires
            old(self).wf(),
        ensures
            jobs@ == old(self).screen_jobs(old(self).wl_surfaces@.len() as int),
            final(self).wl_surfaces@ == after_paint(
                old(self).wl_surfaces@,
                |i: int, s: LayerSurfaceInfo| s.inited,
            ),
            final(self).same_but_surfaces(*old(self)),
            final(self).wf(),
    {
        let mut jobs: Vec<PaintJob> = Vec::new();
        let mut i: usize = 0;
        let ghost painted = |i: int, s: LayerSurfaceInfo| s.inited;
        while i < self.wl_surfaces.len()
            invariant
                i <= self.wl_surfaces@.len() == old(self).wl_surfaces@.len(),
                self.wf(),
                self.same_but_surfaces(*old(self)),
                painted == |i: int, s: LayerSurfaceInfo| s.inited,
                jobs@ == old(self).screen_jobs(i as int),
                forall|j: int|
                    0 <= j < i ==> self.wl_surfaces@[j] == after_paint(
                        old(self).wl_surfaces@,
                        painted,
                    )[j],
                forall|j: int|
                    i <= j < self.wl_surfaces@.len()
                        ==> self.wl_surfaces@[j] == old(self).wl_surfaces@[j],
            decreases self.wl_surfaces@.len() - i,
        {
            if self.wl_surfaces[i].inited {
                let job = self.make_screen_job(i);
                assert(job == old(self).screen_job(i as int));
                jobs.push(job);
                self.wl_surfaces[i].drawn = true;
            }
            i = i + 1;
        }
        assert(self.wl_surfaces@ =~= after_paint(old(self).wl_surfaces@, painted));
        jobs
    }

    /// Lists what has to be painted when a repaint is triggered for the
    /// overlay with this layer object, and accounts for the painting. The
    /// caller paints each job into the buffer of its overlay, attaches the
    /// buffer, damages the whole display and commits.
    pub fn redraw(&mut self, surface: ObjectId) -> (jobs: Vec<PaintJob>)
        requires
            old(self).wf(),
        ensures
            jobs@ == old(self).paint_jobs(surface),
            final(self).wl_surfaces@ == old(self).painted_surfaces(surface),
            final(self).same_but_surfaces(*old(self)),
            final(self).wf(),
    {
        match self.find_layer(surface) {
            None => Vec::new(),
            Some(k) => {
                if self.is_screen() {
                    self.redraw_screens()
                } else if self.start_pos.is_none() {
                    Vec::new()
                } else {
                    let geometry = self.wloutput_infos[k].xdg_output_info.as_ref().unwrap();
                    let job = PaintJob::Selection {
                        index: k,
                        start: self.start_pos.unwrap(),
                        end: self.end_pos,
                        offset: geometry.start_position,
                        size: geometry.size,
                        draw_text: self.is_area(),
                        draw_boxes: self.predefined_boxes.is_some(),
                    };
                    self.wl_surfaces[k].drawn = true;
                    assert(self.wl_surfaces@ =~= old(self).painted_surfaces(surface));
                    let mut jobs: Vec<PaintJob> = Vec::new();
                    jobs.push(job);
                    assert(jobs@ =~= old(self).paint_jobs(surface));
                    jobs
                }
            },
        }
    }

    /// Repaints for the display the pointer is on.
    pub fn redraw_current_surface(&mut self) -> (jobs: Vec<PaintJob>)
        requires
            old(self).wf(),
            old(self).shown(),
        ensures
            jobs@ == old(self).paint_jobs(
                old(self).wl_surfaces@[old(self).current_screen as int].layer,
            ),
            final(self).wl_surfaces@ == old(self).painted_surfaces(
                old(self).wl_surfaces@[old(self).current_screen as int].layer,
            ),
            final(self).same_but_surfaces(*old(self)),
            final(self).wf(),
    {
        let layer = self.wl_surfaces[self.current_screen].layer;
        self.redraw(layer)
    }

    /// Whether the acknowledgment of a frame is stale: it is for a display
    /// that the pointer is not on.
    pub open spec fn stale(self, screen_index: usize) -> bool {
        screen_index != self.current_screen
    }

    /// Handles the acknowledgment of the frame that was requested for the
    /// overlay at `screen_index`. A stale acknowledgment is dropped; a
    /// current one repaints for the display the pointer is on.
    pub fn frame_done(&mut self, screen_index: usize) -> (jobs: Vec<PaintJob>)
        requires
            old(self).wf(),
            !old(self).stale(screen_index) ==> old(self).shown(),
        ensures
            old(self).stale(screen_index) ==> jobs@.len() == 0 && *final(self) == *old(self),
            !old(self).stale(screen_index) ==> jobs@ == old(self).paint_jobs(
                old(self).wl_surfaces@[old(self).current_screen as int].layer,
            ) && final(self).wl_surfaces@ == old(self).painted_surfaces(
                old(self).wl_surfaces@[old(self).current_screen as int].layer,
            ),
            final(self).same_but_surfaces(*old(self)),
            final(self).wf(),
    {
        if screen_index != self.current_screen {
            return Vec::new();
        }
        self.redraw_current_surface()
    }
}

/// The first repaint takes a committed overlay to ready: an overlay that
/// has been shown is ready once a repaint has painted it.
pub proof fn lemma_paint_readies(state: WaysipState, layer: ObjectId, index: int)
    requires
        state.layer_index(layer) is Some,
        0 <= index < state.wl_surfaces@.len(),
        state.wl_surfaces@[index].phase() == SurfacePhase::Committed,
        state.selection_type == SelectionType::Screen || (state.start_pos is Some
            && state.layer_index(layer) == Some(index)),
    ensures
        state.painted_surfaces(layer)[index].phase() == SurfacePhase::Ready,
{
}

/// A repaint changes nothing of an overlay but that it has been painted on:
/// its buffer and its flags of being shown and of being held stay.
pub proof fn lemma_paint_keeps_buffers(state: WaysipState, layer: ObjectId, index: int)
    requires
        0 <= index < state.wl_surfaces@.len(),
    ensures
        state.painted_surfaces(layer).len() == state.wl_surfaces@.len(),
        state.painted_surfaces(layer)[index] == (LayerSurfaceInfo {
            drawn: state.painted_surfaces(layer)[index].drawn,
            ..state.wl_surfaces@[index]
        }),
{
}

} // verus!
