//! A sprite sheet cut into a grid of equal frames, with an optional table that
//! reorders the frames.

use crate::common::{Blit, Rect, Size};
use vstd::prelude::*;

verus! {

/// What an animated sprite is: the frame grid, the size of one frame, the
/// reorder table if one is installed, and whether a sheet is loaded.
pub ghost struct AnimatedSpriteView {
    pub loaded: bool,
    pub frame_width: usize,
    pub frame_height: usize,
    pub num_frames: (usize, usize),
    pub sequence: Option<Seq<(usize, usize)>>,
    pub sequence_length: usize,
}

impl AnimatedSpriteView {
    /// A frame index can be looked up: with a table installed its first part
    /// is an index into the table.
    pub open spec fn frame_in_range(self, frame: (usize, usize)) -> bool {
        match self.sequence {
            Some(s) => frame.0 < s.len(),
            None => true,
        }
    }

    /// The column and row that `frame` stands for: entry `frame.0` of the table
    /// where one is installed, whatever `frame.1` is; else `frame` itself.
    pub open spec fn cell_of(self, frame: (usize, usize)) -> (usize, usize) {
        match self.sequence {
            Some(s) => s[frame.0 as int],
            None => frame,
        }
    }

    /// The part of the sheet that holds the frame at column `cell.0`, row `cell.1`.
    pub open spec fn frame_clip(self, cell: (usize, usize)) -> Rect {
        Rect {
            x: (cell.0 * self.frame_width) as i32,
            y: (cell.1 * self.frame_height) as i32,
            w: self.frame_width as u32,
            h: self.frame_height as u32,
        }
    }

    /// The pixel offsets of the frame at `cell` fit the rectangle's coordinates.
    pub open spec fn cell_fits(self, cell: (usize, usize)) -> bool {
        &&& cell.0 * self.frame_width <= i32::MAX
        &&& cell.1 * self.frame_height <= i32::MAX
    }

    /// The copy that draws `frame` at `(x, y)`: from the frame's part of the
    /// sheet into a rectangle of the frame's size, or of `size` where given.
    pub open spec fn blit(self, x: i32, y: i32, size: Option<Size>, frame: (usize, usize)) -> Option<
        Blit,
    > {
        if self.loaded {
            let clip = self.frame_clip(self.cell_of(frame));
            let extent = match size {
                Some(s) => s,
                None => Size { w: clip.w, h: clip.h },
            };
            Some(Blit { clip: Some(clip), dest: Rect { x, y, w: extent.w, h: extent.h } })
        } else {
            None
        }
    }

    /// The sprite after a load that ended in `decoded`: the frame size is the
    /// sheet's size divided by the frame counts, rounding down.
    pub open spec fn after_load(self, decoded: Result<Size, String>) -> AnimatedSpriteView {
        match decoded {
            Ok(size) => AnimatedSpriteView {
                loaded: true,
                frame_width: (size.w as int / self.num_frames.0 as int) as usize,
                frame_height: (size.h as int / self.num_frames.1 as int) as usize,
                ..self
            },
            Err(_) => AnimatedSpriteView { loaded: false, ..self },
        }
    }
}

/// With a table installed the second part of a frame index is ignored: two
/// indices with the same first part, which lies in the table, draw the same
/// copy, and its source is the frame that the table's entry names.
pub proof fn lemma_second_index_ignored(
    v: AnimatedSpriteView,
    x: i32,
    y: i32,
    size: Option<Size>,
    a: usize,
    b1: usize,
    b2: usize,
)
    requires
        v.sequence is Some,
        a < v.sequence->Some_0.len(),
    ensures
        v.cell_of((a, b1)) == v.sequence->Some_0[a as int],
        v.cell_of((a, b1)) == v.cell_of((a, b2)),
        v.blit(x, y, size, (a, b1)) == v.blit(x, y, size, (a, b2)),
        v.loaded ==> v.blit(x, y, size, (a, b1))->Some_0.clip == Some(
            v.frame_clip(v.sequence->Some_0[a as int]),
        ),
{
}

/// Whether `n * size` is a coordinate that a rectangle can hold.
fn product_fits(n: usize, size: usize) -> (b: bool)
    ensures
        b == (n * size <= i32::MAX),
{
    if size == 0 {
        assert(n * size == 0) by (nonlinear_arith)
            requires
                size == 0,
        ;
        true
    } else {
        let limit: usize = 2147483647usize / size;
        assert((n <= 2147483647int / (size as int)) <==> (n * size <= 2147483647)) by (nonlinear_arith)
            requires
                size > 0,
                n >= 0,
        ;
        n <= limit
    }
}

/// A sheet of frames: how it is cut, and whether its texture is loaded.
pub struct AnimatedSprite {
    loaded: bool,
    frame_width: usize,
    frame_height: usize,
    num_frames: (usize, usize),
    custom_frame_sequence: Option<Vec<(usize, usize)>>,
    frame_sequence_length: usize,
}

impl View for AnimatedSprite {
    type V = AnimatedSpriteView;

    closed spec fn view(&self) -> AnimatedSpriteView {
        AnimatedSpriteView {
            loaded: self.loaded,
            frame_width: self.frame_width,
            frame_height: self.frame_height,
            num_frames: self.num_frames,
            sequence: match self.custom_frame_sequence {
                Some(s) => Some(s@),
                None => None,
            },
            sequence_length: self.frame_sequence_length,
        }
    }
}

impl AnimatedSprite {
    /// A frame is never larger than a sheet can be.
    #[verifier::type_invariant]
    spec fn inv(self) -> bool {
        &&& self.frame_width <= u32::MAX
        &&& self.frame_height <= u32::MAX
    }

    /// No sheet, no frames, no table.
    pub fn new() -> (s: AnimatedSprite)
        ensures
            s@ == (AnimatedSpriteView {
                loaded: false,
                frame_width: 0,
                frame_height: 0,
                num_frames: (0usize, 0usize),
                sequence: None,
                sequence_length: 0,
            }),
    {
        AnimatedSprite {
            loaded: false,
            frame_width: 0,
            frame_height: 0,
            num_frames: (0, 0),
            custom_frame_sequence: None,
            frame_sequence_length: 0,
        }
    }

    /// Sets the number of columns and rows of the sheet.
    pub fn set_num_frames(&mut self, n: (usize, usize))
        ensures
            final(self)@ == (AnimatedSpriteView { num_frames: n, ..old(self)@ }),
    {
        proof {
            use_type_invariant(&*self);
        }
        self.num_frames = n;
    }

    /// Installs the reorder table `seq`, or removes the one installed.
    pub fn set_custom_frame_sequence(&mut self, seq: Option<Vec<(usize, usize)>>)
        ensures
            final(self)@ == (AnimatedSpriteView {
                sequence: match seq {
                    Some(s) => Some(s@),
                    None => None,
                },
                sequence_length: match seq {
                    Some(s) => s@.len() as usize,
                    None => 0,
                },
                ..old(self)@
            }),
    {
        proof {
            use_type_invariant(&*self);
        }
        let length = match &seq {
            Some(s) => s.len(),
            None => 0,
        };
        self.frame_sequence_length = length;
        self.custom_frame_sequence = seq;
    }

    /// The number of entries of the table as it was installed; 0 without one.
    pub fn frame_sequence_length(&self) -> (n: usize)
        ensures
            n == self@.sequence_length,
    {
        self.frame_sequence_length
    }

    /// The width of one frame in pixels.
    pub fn frame_width(&self) -> (w: usize)
        ensures
            w == self@.frame_width,
    {
        self.frame_width
    }

    /// The height of one frame in pixels.
    pub fn frame_height(&self) -> (h: usize)
        ensures
            h == self@.frame_height,
    {
        self.frame_height
    }

    /// The number of columns and rows of the sheet.
    pub fn num_frames(&self) -> (n: (usize, usize))
        ensures
            n == self@.num_frames,
    {
        self.num_frames
    }

    /// Whether a sheet is loaded.
    pub fn is_loaded(&self) -> (b: bool)
        ensures
            b == self@.loaded,
    {
        self.loaded
    }

    /// Records how setting up the decoded sheet ended. `decoded` is the pixel
    /// size of the sheet, or the message of the failure, which is handed back.
    /// The frame counts must have been set to nonzero values before.
    pub fn load_from_file(&mut self, decoded: Result<Size, String>) -> (r: Result<(), String>)
        requires
            old(self)@.num_frames.0 != 0,
            old(self)@.num_frames.1 != 0,
        ensures
            final(self)@ == old(self)@.after_load(decoded),
            r is Ok <==> decoded is Ok,
            r matches Err(msg) ==> decoded is Err && msg@ == decoded->Err_0@,
    {
        proof {
            use_type_invariant(&*self);
        }
        self.loaded = false;
        match decoded {
            Ok(size) => {
                self.frame_width = size.w as usize / self.num_frames.0;
                self.frame_height = size.h as usize / self.num_frames.1;
                self.loaded = true;
                Ok(())
            },
            Err(msg) => Err(msg),
        }
    }

    /// The column and row that `frame` stands for, or `None` where `frame`
    /// cannot be drawn: its index lies beyond the installed table, or the
    /// frame's pixel offset is more than a rectangle can hold.
    pub fn cell_for(&self, frame: (usize, usize)) -> (r: Option<(usize, usize)>)
        ensures
            r is Some <==> self@.frame_in_range(frame) && self@.cell_fits(self@.cell_of(frame)),
            r matches Some(cell) ==> cell == self@.cell_of(frame),
    {
        let cell: (usize, usize) = match &self.custom_frame_sequence {
            Some(cfs) => {
                if frame.0 >= cfs.len() {
                    return None;
                }
                cfs[frame.0]
            },
            None => frame,
        };
        if product_fits(cell.0, self.frame_width) && product_fits(cell.1, self.frame_height) {
            Some(cell)
        } else {
            None
        }
    }

    /// The copy that draws `frame` at `(x, y)`; none while no sheet is loaded.
    pub fn render(&self, x: i32, y: i32, size: Option<Size>, frame: (usize, usize)) -> (r: Option<
        Blit,
    >)
        requires
            self@.frame_in_range(frame),
            self@.cell_fits(self@.cell_of(frame)),
        ensures
            r == self@.blit(x, y, size, frame),
            !self@.loaded ==> r is None,
    {
        proof {
            use_type_invariant(self);
        }
        let mut render_quad = Rect::new(x, y, self.frame_width as u32, self.frame_height as u32);
        if let Some(s) = size {
            render_quad = render_quad.with_size(s);
        }
        let cell: (usize, usize) = match &self.custom_frame_sequence {
            Some(cfs) => cfs[frame.0],
            None => frame,
        };
        let frame_clip = Rect::new(
            (cell.0 * self.frame_width) as i32,
            (cell.1 * self.frame_height) as i32,
            self.frame_width as u32,
            self.frame_height as u32,
        );
        if self.loaded {
            Some(Blit { clip: Some(frame_clip), dest: render_quad })
        } else {
            None
        }
    }
}

} // verus!
