use vstd::prelude::*;

verus! {

/// The direction of one discrete zoom tick.
#[derive(Clone, Copy, Debug, PartialEq, Eq, Structural)]
pub enum ZoomDirection {
    In,
    Out,
}

impl ZoomDirection {
    /// Only the sign of a scroll delta matters: a strictly positive delta zooms in, any
    /// other delta (zero included) zooms out.
    pub fn from_scroll(delta_is_positive: bool) -> (r: ZoomDirection)
        ensures
            r == (if delta_is_positive {
                ZoomDirection::In
            } else {
                ZoomDirection::Out
            }),
    {
        if delta_is_positive {
            ZoomDirection::In
        } else {
            ZoomDirection::Out
        }
    }
}

/// A pointer location in window pixels, each coordinate held as the bit pattern of an
/// IEEE-754 binary64 value.
#[derive(Clone, Copy, Debug, PartialEq, Eq, Structural)]
pub struct CursorPosition {
    pub x_bits: u64,
    pub y_bits: u64,
}

/// The zoom is `factor ^ level` for the fixed per-tick factor; a level stops at the
/// bounds of `i32`.
pub open spec fn next_level(level: i32, dir: ZoomDirection) -> i32 {
    match dir {
        ZoomDirection::In => if level == i32::MAX {
            level
        } else {
            (level + 1) as i32
        },
        ZoomDirection::Out => if level == i32::MIN {
            level
        } else {
            (level - 1) as i32
        },
    }
}

/// One zoom tick, as handed to the code that moves the view: the zoom goes from
/// `factor ^ from_level` to `factor ^ to_level`, and, when an anchor is given, the
/// center moves so that the point under that cursor position stays in place.
#[derive(Clone, Copy, Debug, PartialEq, Eq, Structural)]
pub struct ZoomStep {
    pub from_level: i32,
    pub to_level: i32,
    pub anchor: Option<CursorPosition>,
}

/// The pointer and zoom state driven by input events.
#[derive(Clone, Copy, Debug, PartialEq, Eq, Structural)]
pub struct ViewportController {
    /// The last reported pointer location, if any was reported.
    pub cursor: Option<CursorPosition>,
    /// The zoom level: the zoom is `factor ^ zoom_level`, so level 0 is zoom 1.
    pub zoom_level: i32,
}

impl ViewportController {
    /// The state after one scroll tick in direction `dir`.
    pub open spec fn scrolled(self, dir: ZoomDirection) -> ViewportController {
        ViewportController { zoom_level: next_level(self.zoom_level, dir), ..self }
    }

    /// The step that one scroll tick in direction `dir` asks for.
    pub open spec fn scroll_step(self, dir: ZoomDirection) -> ZoomStep {
        ZoomStep {
            from_level: self.zoom_level,
            to_level: next_level(self.zoom_level, dir),
            anchor: self.cursor,
        }
    }

    /// The state after `n` scroll ticks in direction `dir`.
    pub open spec fn scrolled_times(self, dir: ZoomDirection, n: nat) -> ViewportController
        decreases n,
    {
        if n == 0 {
            self
        } else {
            self.scrolled_times(dir, (n - 1) as nat).scrolled(dir)
        }
    }

    /// No pointer position known yet, zoom 1.
    pub fn new() -> (r: ViewportController)
        ensures
            r.cursor.is_none(),
            r.zoom_level == 0,
    {
        ViewportController { cursor: None, zoom_level: 0 }
    }

    /// Records the pointer location; nothing else changes.
    pub fn on_pointer_move(&mut self, position: CursorPosition)
        ensures
            *final(self) == (ViewportController { cursor: Some(position), ..*old(self) }),
    {
        self.cursor = Some(position);
    }

    /// Applies one scroll tick and returns the step that moves the view. The step is
    /// anchored at the cursor when a cursor position is known; without one only the
    /// zoom changes.
    pub fn on_scroll(&mut self, dir: ZoomDirection) -> (step: ZoomStep)
        ensures
            *final(self) == old(self).scrolled(dir),
            step == old(self).scroll_step(dir),
    {
        let from_level = self.zoom_level;
        let to_level: i32 = match dir {
            ZoomDirection::In => if from_level == i32::MAX {
                from_level
            } else {
                from_level + 1
            },
            ZoomDirection::Out => if from_level == i32::MIN {
                from_level
            } else {
                from_level - 1
            },
        };
        self.zoom_level = to_level;
        ZoomStep { from_level, to_level, anchor: self.cursor }
    }
}

proof fn lemma_scrolled_times_in(c: ViewportController, n: nat)
    requires
        c.zoom_level + n <= i32::MAX,
    ensures
        c.scrolled_times(ZoomDirection::In, n).zoom_level == c.zoom_level + n,
        c.scrolled_times(ZoomDirection::In, n).cursor == c.cursor,
    decreases n,
{
    if n > 0 {
        lemma_scrolled_times_in(c, (n - 1) as nat);
    }
}

proof fn lemma_scrolled_times_out(c: ViewportController, n: nat)
    requires
        c.zoom_level - n >= i32::MIN,
    ensures
        c.scrolled_times(ZoomDirection::Out, n).zoom_level == c.zoom_level - n,
        c.scrolled_times(ZoomDirection::Out, n).cursor == c.cursor,
    decreases n,
{
    if n > 0 {
        lemma_scrolled_times_out(c, (n - 1) as nat);
    }
}

/// `n` zoom-in ticks followed by `n` zoom-out ticks, or `n` zoom-out ticks followed by
/// `n` zoom-in ticks, give back the original state exactly, as long as the level stays
/// within the bounds of `i32` on the way.
pub proof fn lemma_zoom_round_trip(c: ViewportController, n: nat)
    ensures
        c.zoom_level + n <= i32::MAX ==> c.scrolled_times(ZoomDirection::In, n).scrolled_times(
            ZoomDirection::Out,
            n,
        ) == c,
        c.zoom_level - n >= i32::MIN ==> c.scrolled_times(ZoomDirection::Out, n).scrolled_times(
            ZoomDirection::In,
            n,
        ) == c,
{
    if c.zoom_level + n <= i32::MAX {
        lemma_scrolled_times_in(c, n);
        lemma_scrolled_times_out(c.scrolled_times(ZoomDirection::In, n), n);
    }
    if c.zoom_level - n >= i32::MIN {
        lemma_scrolled_times_out(c, n);
        lemma_scrolled_times_in(c.scrolled_times(ZoomDirection::Out, n), n);
    }
}

/// Without a recorded pointer position a scroll tick carries no anchor, so the view
/// center is left as it is; only the zoom level moves (unless it is at a bound).
pub proof fn lemma_scroll_without_cursor_keeps_center(c: ViewportController, dir: ZoomDirection)
    requires
        c.cursor.is_none(),
    ensures
        c.scroll_step(dir).anchor.is_none(),
        c.scrolled(dir).cursor.is_none(),
        dir == ZoomDirection::In && c.zoom_level < i32::MAX ==> c.scrolled(dir).zoom_level
            == c.zoom_level + 1,
        dir == ZoomDirection::Out && c.zoom_level > i32::MIN ==> c.scrolled(dir).zoom_level
            == c.zoom_level - 1,
{
}

} // verus!
