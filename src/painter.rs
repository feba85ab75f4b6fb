//! A painter's scan over its area: which pixel command comes next.
//!
//! The scan is a state machine. Its caller polls for a new frame before each
//! step, sends what a step hands out, and flushes at the end of each pass.
use vstd::prelude::*;

use crate::color::Color;
use crate::frame::Frame;
use crate::rect::Rect;

verus! {

/// What a painter does next.
#[derive(Clone, Copy, Debug, PartialEq, Eq, Structural)]
pub enum Step {
    /// No frame was received yet: wait for one.
    Wait,
    /// Send the command that sets pixel `(x, y)` to `color`.
    Paint { x: u16, y: u16, color: Color },
    /// Nothing is sent for this coordinate.
    Skip,
    /// The pass is complete: flush the connection.
    Flush,
}

/// The canvas coordinate of local coordinate `local` of an area whose
/// corner is at `origin`, moved by `offset`, if it lies on the canvas.
pub open spec fn absolute(local: int, origin: int, offset: int) -> Option<u16> {
    let v = local + origin + offset;
    if 0 <= v <= 65535 {
        Some(v as u16)
    } else {
        None
    }
}

/// What the coordinate `(col, row)` of `area` takes, when `frame` is shown:
/// the pixel command for a pixel of the frame that is not fully
/// transparent and whose canvas coordinate exists, nothing else.
pub open spec fn command_at(frame: Frame, area: Rect, offset: (i16, i16), col: int, row: int) -> Step {
    if !frame.in_bounds(col, row) {
        Step::Skip
    } else {
        let c = frame.pixel_spec(col, row);
        match (absolute(col, area.x as int, offset.0 as int), absolute(row, area.y as int, offset.1 as int)) {
            (Some(x), Some(y)) => if c.a == 0 {
                Step::Skip
            } else {
                Step::Paint { x, y, color: c }
            },
            _ => Step::Skip,
        }
    }
}

/// A painter: its area, the offset of the draw area on the canvas, the
/// frame it shows, if any, and the coordinate its scan is at.
///
/// A pass visits the area's coordinates column by column, each column from
/// top to bottom.
pub struct Painter {
    area: Rect,
    offset: (i16, i16),
    image: Option<Frame>,
    col: u16,
    row: u16,
}

impl Painter {
    #[verifier::type_invariant]
    closed spec fn well_formed(self) -> bool {
        &&& self.col <= self.area.w
        &&& self.row == 0 || self.row < self.area.h && self.col < self.area.w
    }

    /// The area.
    pub closed spec fn area_spec(self) -> Rect {
        self.area
    }

    /// The offset of the draw area on the canvas.
    pub closed spec fn offset_spec(self) -> (i16, i16) {
        self.offset
    }

    /// The frame shown, if any.
    pub closed spec fn image_spec(self) -> Option<Frame> {
        self.image
    }

    /// The local coordinate of the scan: `(column, row)`.
    pub closed spec fn cursor(self) -> (nat, nat) {
        (self.col as nat, self.row as nat)
    }

    /// The same painter with its scan at the start of a pass.
    pub closed spec fn restarted(self) -> Painter {
        Painter { col: 0, row: 0, ..self }
    }

    /// Whether the scan stands at the start of a pass.
    pub open spec fn at_start(self) -> bool {
        self.cursor() == (0nat, 0nat)
    }

    /// Restarting keeps all but the cursor, which goes to the start.
    pub proof fn lemma_restarted(self)
        ensures
            self.restarted().at_start(),
            self.restarted().image_spec() == self.image_spec(),
            self.restarted().area_spec() == self.area_spec(),
            self.restarted().offset_spec() == self.offset_spec(),
            self.restarted().restarted() == self.restarted(),
    {
    }

    /// Whether the pass has no coordinate left: the scan went past the last
    /// column, or the area has no rows.
    pub open spec fn pass_done(self) -> bool {
        self.cursor().0 >= self.area_spec().w || self.area_spec().h == 0
    }

    /// The coordinate after the cursor: down the column, then the top of
    /// the next column, past the last one after the last coordinate.
    pub open spec fn next_cursor(self) -> (nat, nat) {
        let (c, r) = self.cursor();
        if r + 1 < self.area_spec().h {
            (c, r + 1)
        } else {
            (c + 1, 0nat)
        }
    }

    /// A painter of `area` that has not started, showing `image` if given.
    pub fn new(area: Rect, offset: (i16, i16), image: Option<Frame>) -> (p: Painter)
        ensures
            p.area_spec() == area,
            p.offset_spec() == offset,
            p.image_spec() == image,
            p.at_start(),
    {
        Painter { area, offset, image, col: 0, row: 0 }
    }

    /// The area.
    pub fn area(&self) -> (r: Rect)
        ensures
            r == self.area_spec(),
    {
        self.area
    }

    /// Whether a frame was received.
    pub fn has_image(&self) -> (r: bool)
        ensures
            r == self.image_spec() is Some,
    {
        self.image.is_some()
    }

    /// Replaces the frame shown; the scan goes on where it stands.
    pub fn set_image(&mut self, image: Frame)
        ensures
            final(self).image_spec() == Some(image),
            final(self).area_spec() == old(self).area_spec(),
            final(self).offset_spec() == old(self).offset_spec(),
            final(self).cursor() == old(self).cursor(),
    {
        proof {
            use_type_invariant(&*self);
        }
        self.image = Some(image);
    }

    /// Moves the scan back to the start of a pass.
    pub fn restart(&mut self)
        ensures
            *final(self) == old(self).restarted(),
            final(self).image_spec() == old(self).image_spec(),
            final(self).area_spec() == old(self).area_spec(),
            final(self).offset_spec() == old(self).offset_spec(),
            final(self).at_start(),
    {
        proof {
            use_type_invariant(&*self);
        }
        self.row = 0;
        self.col = 0;
    }

    /// Takes one step of the scan.
    ///
    /// Without a frame the painter waits and the scan stays where it is.
    /// With one, the step handles the coordinate under the cursor and moves
    /// the cursor on; once the pass has no coordinate left, the step asks
    /// for a flush and the scan starts a new pass.
    pub fn step(&mut self) -> (s: Step)
        ensures
            final(self).image_spec() == old(self).image_spec(),
            final(self).area_spec() == old(self).area_spec(),
            final(self).offset_spec() == old(self).offset_spec(),
            old(self).image_spec() is None ==> s == Step::Wait && final(self).cursor() == old(self).cursor(),
            old(self).image_spec() matches Some(f) ==> if old(self).pass_done() {
                s == Step::Flush && final(self).at_start()
            } else {
                &&& s == command_at(f, old(self).area_spec(), old(self).offset_spec(), old(self).cursor().0 as int, old(self).cursor().1 as int)
                &&& final(self).cursor() == old(self).next_cursor()
            },
    {
        proof {
            use_type_invariant(&*self);
        }
        let frame = match &self.image {
            None => {
                return Step::Wait;
            },
            Some(f) => f,
        };
        if self.col >= self.area.w || self.area.h == 0 {
            self.row = 0;
            self.col = 0;
            return Step::Flush;
        }
        let col = self.col;
        let row = self.row;
        let step = match frame.get(col, row) {
            None => Step::Skip,
            Some(c) => {
                let ax = col as i32 + self.area.x as i32 + self.offset.0 as i32;
                let ay = row as i32 + self.area.y as i32 + self.offset.1 as i32;
                if c.a == 0 || ax < 0 || ax > 65535 || ay < 0 || ay > 65535 {
                    Step::Skip
                } else {
                    Step::Paint { x: ax as u16, y: ay as u16, color: c }
                }
            },
        };
        if row + 1 < self.area.h {
            self.row = row + 1;
        } else {
            self.row = 0;
            self.col = col + 1;
        }
        step
    }
}

} // verus!
