//! The drawing state that containers change and restore: the layer widgets
//! are drawn on, the bounds they are laid out in, the clip rects and the
//! history of placed rects.

use vstd::prelude::*;

use super::layout::LayoutDirection;
use super::rect::UiRect;
use super::tree::{advance_bounds, spec_advance_bounds};

verus! {

/// The drawing state of a frame.
pub struct UiFrame {
    pub layer: u16,
    pub bounds: UiRect,
    pub layout_dir: LayoutDirection,
    /// Clip rects; index 0 is the whole window.
    pub scissors: Vec<UiRect>,
    pub scissor_idx: u32,
    /// The rects placed so far, in order.
    pub rect_history: Vec<UiRect>,
}

/// What a container restores when it ends.
#[derive(Clone, Copy, Debug)]
pub struct Saved {
    pub layer: u16,
    pub bounds: UiRect,
    pub scissor_idx: u32,
    pub history_len: usize,
}

impl UiFrame {
    /// Draw on the next layer; returns the layer to go back to.
    pub fn push_layer(&mut self) -> (prev: u16)
        requires
            old(self).layer < u16::MAX,
        ensures
            prev == old(self).layer,
            final(self).layer == old(self).layer + 1,
            final(self).bounds == old(self).bounds,
            final(self).layout_dir == old(self).layout_dir,
            final(self).scissors@ == old(self).scissors@,
            final(self).scissor_idx == old(self).scissor_idx,
            final(self).rect_history@ == old(self).rect_history@,
    {
        let l = self.layer;
        self.layer = self.layer + 1;
        l
    }

    /// Clip to `scissor` from now on; returns the clip index to go back to.
    pub fn push_scissor(&mut self, scissor: UiRect) -> (prev: u32)
        ensures
            prev == old(self).scissor_idx,
            final(self).scissor_idx == old(self).scissors@.len() as u32,
            final(self).scissors@ == old(self).scissors@.push(scissor),
            final(self).layer == old(self).layer,
            final(self).bounds == old(self).bounds,
            final(self).layout_dir == old(self).layout_dir,
            final(self).rect_history@ == old(self).rect_history@,
    {
        let res = self.scissor_idx;
        self.scissor_idx = self.scissors.len() as u32;
        self.scissors.push(scissor);
        res
    }

    /// Record a placed `rect` and move the layout bounds past it, given the
    /// absolute padding (left, right, top, bottom).
    pub fn submit_rect(&mut self, rect: UiRect, padding: [i32; 4])
        requires
            match old(self).layout_dir {
                LayoutDirection::TopDown(_) => super::rect::fits_i32(rect.max_y + padding@[3]),
                LayoutDirection::LeftRight(_) => super::rect::fits_i32(rect.max_x + padding@[1]),
                LayoutDirection::BottomUp(_) => super::rect::fits_i32(rect.min_y - padding@[2]),
                LayoutDirection::RightLeft(_) => super::rect::fits_i32(rect.min_x - padding@[0]),
                LayoutDirection::Center => true,
            },
        ensures
            final(self).bounds == spec_advance_bounds(old(self).bounds, old(self).layout_dir, rect, padding@),
            final(self).rect_history@ == old(self).rect_history@.push(rect),
            final(self).layer == old(self).layer,
            final(self).layout_dir == old(self).layout_dir,
            final(self).scissors@ == old(self).scissors@,
            final(self).scissor_idx == old(self).scissor_idx,
    {
        self.bounds = advance_bounds(self.bounds, self.layout_dir, rect, padding);
        self.rect_history.push(rect);
    }

    /// Begin an overlay, such as a context menu: draw on `layer`, lay out in
    /// `bounds` and clip to `scissor`. Returns what ending it restores.
    pub fn enter_overlay(&mut self, layer: u16, bounds: UiRect, scissor: UiRect) -> (saved: Saved)
        ensures
            saved == spec_saved(*old(self)),
            final(self).layer == layer,
            final(self).bounds == bounds,
            final(self).layout_dir == old(self).layout_dir,
            final(self).scissors@ == old(self).scissors@.push(scissor),
            final(self).scissor_idx == old(self).scissors@.len() as u32,
            final(self).rect_history@ == old(self).rect_history@,
    {
        let saved = Saved {
            layer: self.layer,
            bounds: self.bounds,
            scissor_idx: self.scissor_idx,
            history_len: self.rect_history.len(),
        };
        self.layer = layer;
        self.bounds = bounds;
        self.push_scissor(scissor);
        saved
    }

    /// End an overlay: the rects it placed leave the history, so they do not
    /// count in the bounds of the widgets around it, and the layer, the
    /// bounds and the clip rect are restored.
    pub fn leave_overlay(&mut self, saved: Saved)
        requires
            saved.history_len <= old(self).rect_history@.len(),
        ensures
            final(self).layer == saved.layer,
            final(self).bounds == saved.bounds,
            final(self).scissor_idx == saved.scissor_idx,
            final(self).layout_dir == old(self).layout_dir,
            final(self).scissors@ == old(self).scissors@,
            final(self).rect_history@ == old(self).rect_history@.take(saved.history_len as int),
    {
        self.rect_history.truncate(saved.history_len);
        self.layer = saved.layer;
        self.bounds = saved.bounds;
        self.scissor_idx = saved.scissor_idx;
    }
}

/// What entering a container in `f` saves.
pub open spec fn spec_saved(f: UiFrame) -> Saved {
    Saved {
        layer: f.layer,
        bounds: f.bounds,
        scissor_idx: f.scissor_idx,
        history_len: f.rect_history.len(),
    }
}

/// Whatever an overlay did in between, as long as it only added to the
/// history, leaving it gives back the layer, the bounds, the clip rect and
/// the history it started with.
pub proof fn lemma_overlay_restores(before: UiFrame, during: UiFrame)
    requires
        during.rect_history@.len() >= before.rect_history@.len(),
        during.rect_history@.take(before.rect_history@.len() as int) == before.rect_history@,
    ensures
        ({
            let saved = spec_saved(before);
            &&& saved.layer == before.layer
            &&& saved.bounds == before.bounds
            &&& saved.scissor_idx == before.scissor_idx
            &&& saved.history_len <= during.rect_history@.len()
            &&& during.rect_history@.take(saved.history_len as int) == before.rect_history@
        }),
{
}

} // verus!
