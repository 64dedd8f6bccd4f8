//! The markers placed on the in-game map, in screen pixels, and what the
//! overlay shows of them.
//!
//! Three markers are placed with the mouse: the corner of the grid square
//! (`kv`), the far end of the grid square's side (`cam`), which together give
//! the map scale, and the target. A marker at pixel `(0, 0)` counts as not
//! placed.

use vstd::prelude::*;

verus! {

/// A pixel position counts as a placed marker unless it is `(0, 0)`.
pub open spec fn is_placed(p: (i32, i32)) -> bool {
    !(p.0 == 0 && p.1 == 0)
}

/// Length in metres of the side of a grid square, as used for the scale.
pub const GRID_SIDE_METRES: u32 = 100;

/// The horizontal span in pixels between a marker at `anchor` and a marker
/// being placed at column `x`, when it can calibrate the map scale: the
/// anchor is placed, the columns differ, and they are more than one pixel
/// apart.
pub open spec fn scale_span(anchor: (i32, i32), x: i32) -> Option<int> {
    let d = if anchor.0 >= x { anchor.0 - x } else { x - anchor.0 };
    if is_placed(anchor) && x != anchor.0 && d > 1 {
        Some(d)
    } else {
        None
    }
}

/// Which of the helper marks the overlay draws.
#[derive(Clone, Copy, Debug, PartialEq, Eq, Structural)]
pub struct DrawnMarkers {
    pub kv: bool,
    pub cam: bool,
    pub target: bool,
    /// The line from the grid corner to the target.
    pub link: bool,
}

/// The overlay's display switches and the map markers.
#[derive(Clone, Copy, Debug)]
pub struct OverlayState {
    /// The overlay is drawn at all.
    pub visible: bool,
    /// The map markers are drawn.
    pub show_helpers: bool,
    /// Corner of the grid square.
    pub kv: (i32, i32),
    /// Far end of the grid square's side, for the scale.
    pub cam: (i32, i32),
    /// The target.
    pub target: (i32, i32),
}

/// `s` with the overlay shown if it was hidden and hidden if it was shown.
pub open spec fn toggled(s: OverlayState) -> OverlayState {
    OverlayState { visible: !s.visible, ..s }
}

fn span_between(anchor: (i32, i32), x: i32) -> (r: Option<u32>)
    ensures
        match scale_span(anchor, x) {
            Some(d) => r == Some(d as u32) && 1 < d <= u32::MAX,
            None => r is None,
        },
{
    if (anchor.0 != 0 || anchor.1 != 0) && x != anchor.0 {
        let d: i64 = if anchor.0 >= x {
            anchor.0 as i64 - x as i64
        } else {
            x as i64 - anchor.0 as i64
        };
        if d > 1 {
            Some(d as u32)
        } else {
            None
        }
    } else {
        None
    }
}

impl OverlayState {
    /// The state at start: overlay and markers shown, no marker placed.
    pub fn new() -> (s: Self)
        ensures
            s.visible && s.show_helpers,
            !is_placed(s.kv) && !is_placed(s.cam) && !is_placed(s.target),
    {
        OverlayState { visible: true, show_helpers: true, kv: (0, 0), cam: (0, 0), target: (0, 0) }
    }

    /// Shows a hidden overlay, hides a shown one.
    pub fn toggle_visible(&mut self)
        ensures
            *final(self) == toggled(*old(self)),
    {
        self.visible = !self.visible;
    }

    /// Removes all three markers.
    pub fn clear_markers(&mut self)
        ensures
            final(self).visible == old(self).visible,
            final(self).show_helpers == old(self).show_helpers,
            final(self).kv == (0i32, 0i32),
            final(self).cam == (0i32, 0i32),
            final(self).target == (0i32, 0i32),
    {
        self.kv = (0, 0);
        self.cam = (0, 0);
        self.target = (0, 0);
    }

    /// Places the grid corner at `pt` and shows the markers. Returns the
    /// pixel span to the scale marker when it calibrates the map scale (the
    /// scale is then 100 m over that span).
    pub fn place_kv(&mut self, pt: (i32, i32)) -> (span: Option<u32>)
        ensures
            final(self).kv == pt,
            final(self).show_helpers,
            final(self).visible == old(self).visible,
            final(self).cam == old(self).cam,
            final(self).target == old(self).target,
            match scale_span(old(self).cam, pt.0) {
                Some(d) => span == Some(d as u32) && 1 < d,
                None => span is None,
            },
    {
        self.kv = pt;
        self.show_helpers = true;
        span_between(self.cam, pt.0)
    }

    /// Places the scale marker at `pt` and shows the markers. Returns the
    /// pixel span to the grid corner when it calibrates the map scale.
    pub fn place_cam(&mut self, pt: (i32, i32)) -> (span: Option<u32>)
        ensures
            final(self).cam == pt,
            final(self).show_helpers,
            final(self).visible == old(self).visible,
            final(self).kv == old(self).kv,
            final(self).target == old(self).target,
            match scale_span(old(self).kv, pt.0) {
                Some(d) => span == Some(d as u32) && 1 < d,
                None => span is None,
            },
    {
        self.cam = pt;
        self.show_helpers = true;
        span_between(self.kv, pt.0)
    }

    /// Places the target at `pt` and shows the markers.
    pub fn place_target(&mut self, pt: (i32, i32))
        ensures
            final(self).target == pt,
            final(self).show_helpers,
            final(self).visible == old(self).visible,
            final(self).kv == old(self).kv,
            final(self).cam == old(self).cam,
    {
        self.target = pt;
        self.show_helpers = true;
    }

    /// The grid corner is placed, so a target can be placed relative to it.
    pub fn kv_placed(&self) -> (r: bool)
        ensures
            r == is_placed(self.kv),
    {
        self.kv.0 != 0 || self.kv.1 != 0
    }

    /// Both the grid corner and the target are placed, so the target's map
    /// position can be worked out from them.
    pub fn can_locate_target(&self) -> (r: bool)
        ensures
            r == (is_placed(self.kv) && is_placed(self.target)),
    {
        (self.kv.0 != 0 || self.kv.1 != 0) && (self.target.0 != 0 || self.target.1 != 0)
    }

    /// The target's offset from the grid corner in pixels, east and north
    /// (screen rows grow downwards, map north grows upwards).
    pub fn target_offset(&self) -> (d: (i64, i64))
        ensures
            d.0 == self.target.0 - self.kv.0,
            d.1 == self.kv.1 - self.target.1,
    {
        (self.target.0 as i64 - self.kv.0 as i64, self.kv.1 as i64 - self.target.1 as i64)
    }

    /// Which helper marks are drawn: each placed marker when the markers are
    /// shown, and the line from the grid corner to the target when both are.
    pub fn markers_to_draw(&self) -> (m: DrawnMarkers)
        ensures
            m.kv == (self.show_helpers && is_placed(self.kv)),
            m.cam == (self.show_helpers && is_placed(self.cam)),
            m.target == (self.show_helpers && is_placed(self.target)),
            m.link == (self.show_helpers && is_placed(self.target) && is_placed(self.kv)),
    {
        let kv = self.kv.0 != 0 || self.kv.1 != 0;
        let cam = self.cam.0 != 0 || self.cam.1 != 0;
        let target = self.target.0 != 0 || self.target.1 != 0;
        DrawnMarkers {
            kv: self.show_helpers && kv,
            cam: self.show_helpers && cam,
            target: self.show_helpers && target,
            link: self.show_helpers && target && kv,
        }
    }
}

/// The calibrating span is the horizontal pixel distance between the two
/// scale markers: with the anchor placed and the columns more than one pixel
/// apart, it is exactly that distance; otherwise there is none.
pub proof fn lemma_scale_span_is_distance(anchor: (i32, i32), x: i32)
    ensures
        (anchor.0 != 0 || anchor.1 != 0) && x - anchor.0 > 1 ==> scale_span(anchor, x) == Some(
            x - anchor.0,
        ),
        (anchor.0 != 0 || anchor.1 != 0) && anchor.0 - x > 1 ==> scale_span(anchor, x) == Some(
            anchor.0 - x,
        ),
        (anchor.0 == 0 && anchor.1 == 0) ==> scale_span(anchor, x) is None,
        -1 <= x - anchor.0 <= 1 ==> scale_span(anchor, x) is None,
{
}

/// The scale does not depend on which of the two scale markers is placed
/// last: with both markers placed, placing the grid corner at `p` while the
/// scale marker stands at `c` gives the same span as placing the scale
/// marker at `c` while the grid corner stands at `p`.
pub proof fn lemma_scale_span_symmetric(p: (i32, i32), c: (i32, i32))
    requires
        is_placed(p),
        is_placed(c),
    ensures
        scale_span(c, p.0) == scale_span(p, c.0),
{
}

/// Toggling the overlay twice gives back the state it started from.
pub proof fn lemma_toggle_twice(s: OverlayState)
    ensures
        toggled(toggled(s)) == s,
{
}

} // verus!
