//! The pulsing background colour.

use vstd::prelude::*;

verus! {

/// The highest value of a colour channel: full intensity.
pub const CHANNEL_MAX: i64 = 1000;

/// A colour by its red, green and blue channels, each from 0 to
/// [`CHANNEL_MAX`].
#[derive(Clone, Copy, Debug, PartialEq, Eq, Structural)]
pub struct Color {
    pub r: i64,
    pub g: i64,
    pub b: i64,
}

/// A background whose blue channel climbs to full intensity and falls back
/// to none, one step per frame.
#[derive(Clone, Copy, Debug, PartialEq, Eq, Structural)]
pub struct Background {
    blue: i64,
    color_direction: bool,
}

/// What a [`Background`] stands for: the blue channel and whether it is
/// climbing.
pub struct BackgroundView {
    pub blue: int,
    pub rising: bool,
}

impl BackgroundView {
    /// The background of the first frame: no blue, climbing.
    pub open spec fn start() -> BackgroundView {
        BackgroundView { blue: 0, rising: true }
    }

    /// The background one frame later. The channel moves one step in its
    /// direction; a step that would leave the range stays at the bound and
    /// turns the direction round.
    pub open spec fn pulse(self) -> BackgroundView {
        if self.rising {
            if self.blue + 1 > CHANNEL_MAX {
                BackgroundView { blue: CHANNEL_MAX as int, rising: false }
            } else {
                BackgroundView { blue: self.blue + 1, rising: true }
            }
        } else {
            if self.blue - 1 < 0 {
                BackgroundView { blue: 0, rising: true }
            } else {
                BackgroundView { blue: self.blue - 1, rising: false }
            }
        }
    }

    /// Whether the channel is in its range.
    pub open spec fn wf(self) -> bool {
        0 <= self.blue <= CHANNEL_MAX
    }
}

impl View for Background {
    type V = BackgroundView;

    closed spec fn view(&self) -> BackgroundView {
        BackgroundView { blue: self.blue as int, rising: self.color_direction }
    }
}

impl Background {
    /// The blue channel of every background is in its range.
    #[verifier::type_invariant]
    spec fn in_range(self) -> bool {
        0 <= self.blue <= CHANNEL_MAX
    }

    /// The background of the first frame.
    pub fn new() -> (r: Background)
        ensures
            r@ == BackgroundView::start(),
    {
        Background { blue: 0, color_direction: true }
    }

    /// The colour to clear the screen with.
    pub fn color(&self) -> (r: Color)
        ensures
            r.r == 200,
            r.g == 700,
            r.b == self@.blue,
            self@.wf(),
    {
        proof {
            use_type_invariant(self);
        }
        Color { r: 200, g: 700, b: self.blue }
    }

    /// Moves the blue channel one step and returns its new value.
    pub fn update(&mut self) -> (r: i64)
        ensures
            final(self)@ == old(self)@.pulse(),
            r == final(self)@.blue,
            0 <= r <= CHANNEL_MAX,
    {
        proof {
            use_type_invariant(&*self);
        }
        let mut b: i64;
        if self.color_direction {
            b = self.blue + 1;
            if b > CHANNEL_MAX {
                self.color_direction = !self.color_direction;
                b = CHANNEL_MAX
            }
        } else {
            b = self.blue - 1;
            if b < 0 {
                self.color_direction = !self.color_direction;
                b = 0
            }
        }
        self.blue = b;
        b
    }
}

} // verus!
