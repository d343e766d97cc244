//! Pointer containment: is the cursor over the overlay, and did it just leave?

use vstd::prelude::*;

verus! {

/// The pause between two samples of the cursor, in milliseconds.
pub const SAMPLE_INTERVAL_MS: u64 = 50;

/// A point on the virtual screen, in physical pixels.
#[derive(Clone, Copy, Debug, PartialEq, Eq, Structural)]
pub struct Point {
    pub x: i32,
    pub y: i32,
}

/// A window rectangle on the virtual screen, in physical pixels.
#[derive(Clone, Copy, Debug, PartialEq, Eq, Structural)]
pub struct Rect {
    pub left: i32,
    pub top: i32,
    pub right: i32,
    pub bottom: i32,
}

impl Rect {
    /// A point lies inside when it is within the four edges, the edges included.
    pub open spec fn spec_contains(self, p: Point) -> bool {
        self.left <= p.x <= self.right && self.top <= p.y <= self.bottom
    }

    #[verifier::when_used_as_spec(spec_contains)]
    pub fn contains(self, p: Point) -> (inside: bool)
        ensures
            inside == self.spec_contains(p),
    {
        p.x >= self.left && p.x <= self.right && p.y >= self.top && p.y <= self.bottom
    }
}

/// One sample of the tracking loop: where the cursor is and where the window
/// is, each as far as the system could tell.
#[derive(Clone, Copy, Debug, PartialEq, Eq, Structural)]
pub struct Sample {
    pub cursor: Option<Point>,
    pub window: Option<Rect>,
}

impl Sample {
    /// Whether the sample shows the cursor inside the window; a sample that
    /// lacks either position shows nothing.
    pub open spec fn inside(self) -> Option<bool> {
        match (self.cursor, self.window) {
            (Some(p), Some(r)) => Some(r.spec_contains(p)),
            _ => None,
        }
    }
}

/// The tracker's memory: whether the cursor was inside the window at the last
/// complete sample. It starts outside.
#[derive(Clone, Copy, Debug, PartialEq, Eq, Structural)]
pub struct PointerTracker {
    pub was_inside: bool,
}

impl PointerTracker {
    /// The tracker after a sample: a complete sample is remembered, an
    /// incomplete one changes nothing.
    pub open spec fn after(self, sample: Sample) -> PointerTracker {
        match sample.inside() {
            Some(inside) => PointerTracker { was_inside: inside },
            None => self,
        }
    }

    /// Whether a sample makes the tracker say "the pointer left": the cursor
    /// was inside and the sample shows it outside.
    pub open spec fn leaves_on(self, sample: Sample) -> bool {
        self.was_inside && sample.inside() == Some(false)
    }

    /// How often the tracker says "the pointer left" over a run of samples.
    pub open spec fn departures(self, samples: Seq<Sample>) -> nat
        decreases samples.len(),
    {
        if samples.len() == 0 {
            0
        } else {
            (if self.leaves_on(samples[0]) {
                1nat
            } else {
                0nat
            }) + self.after(samples[0]).departures(samples.skip(1))
        }
    }

    pub fn new() -> (t: PointerTracker)
        ensures
            !t.was_inside,
    {
        PointerTracker { was_inside: false }
    }

    /// Takes one sample. The result says whether to announce that the pointer
    /// left the window: exactly when the cursor was inside before and is
    /// outside now. Entering the window, staying in, staying out, and a sample
    /// without a cursor or window position announce nothing.
    pub fn observe(&mut self, cursor: Option<Point>, window: Option<Rect>) -> (left: bool)
        ensures
            *final(self) == old(self).after(Sample { cursor, window }),
            left == old(self).leaves_on(Sample { cursor, window }),
    {
        match (cursor, window) {
            (Some(p), Some(r)) => {
                let is_inside: bool = r.contains(p);
                if is_inside != self.was_inside {
                    self.was_inside = is_inside;
                    !is_inside
                } else {
                    false
                }
            },
            _ => false,
        }
    }
}

/// A run of samples that never shows the cursor on the other side of the
/// window's edge than the tracker remembers announces nothing.
pub proof fn lemma_steady_pointer_is_silent(t: PointerTracker, samples: Seq<Sample>)
    requires
        forall|i: int|
            0 <= i < samples.len() ==> (#[trigger] samples[i]).inside() != Some(!t.was_inside),
    ensures
        t.departures(samples) == 0,
    decreases samples.len(),
{
    if samples.len() > 0 {
        let rest = samples.skip(1);
        assert(samples[0].inside() != Some(!t.was_inside));
        assert(t.after(samples[0]) == t);
        assert forall|i: int| 0 <= i < rest.len() implies (#[trigger] rest[i]).inside() != Some(
            !t.was_inside,
        ) by {
            assert(rest[i] == samples[i + 1]);
        }
        lemma_steady_pointer_is_silent(t, rest);
    }
}

/// Between two announcements the cursor must have come back in: a run that
/// announces twice holds, after the first announcement, a sample that shows
/// the cursor inside. Stated the other way round: while no sample shows the
/// cursor inside, a tracker announces at most once.
pub proof fn lemma_one_departure_per_visit(t: PointerTracker, samples: Seq<Sample>)
    requires
        forall|i: int| 0 <= i < samples.len() ==> (#[trigger] samples[i]).inside() != Some(true),
    ensures
        t.departures(samples) <= (if t.was_inside {
            1nat
        } else {
            0nat
        }),
    decreases samples.len(),
{
    if samples.len() > 0 {
        let rest = samples.skip(1);
        assert(samples[0].inside() != Some(true));
        assert forall|i: int| 0 <= i < rest.len() implies (#[trigger] rest[i]).inside() != Some(
            true,
        ) by {
            assert(rest[i] == samples[i + 1]);
        }
        lemma_one_departure_per_visit(t.after(samples[0]), rest);
    }
}

} // verus!
