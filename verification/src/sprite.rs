//! A single image: its pixel size, whether its texture is loaded, and the
//! rectangles of the copy that draws it.

use crate::common::{Blit, Rect, Size};
use vstd::prelude::*;

verus! {

/// What a sprite is: the size of its image and whether a texture stands behind it.
pub ghost struct SpriteView {
    pub loaded: bool,
    pub width: u32,
    pub height: u32,
}

/// The extent of the drawn rectangle: `size` where given, else the extent of
/// `clip` where given, else `whole`.
pub open spec fn drawn_size(whole: Size, size: Option<Size>, clip: Option<Rect>) -> Size {
    match size {
        Some(s) => s,
        None => match clip {
            Some(c) => Size { w: c.w, h: c.h },
            None => whole,
        },
    }
}

impl SpriteView {
    /// The sprite without a texture, of size zero.
    pub open spec fn empty() -> SpriteView {
        SpriteView { loaded: false, width: 0, height: 0 }
    }

    /// The size of the image.
    pub open spec fn size(self) -> Size {
        Size { w: self.width, h: self.height }
    }

    /// The copy that draws the sprite at `(x, y)`; none while no texture is loaded.
    pub open spec fn blit(self, x: i32, y: i32, size: Option<Size>, clip: Option<Rect>) -> Option<
        Blit,
    > {
        if self.loaded {
            let extent = drawn_size(self.size(), size, clip);
            Some(Blit { clip, dest: Rect { x, y, w: extent.w, h: extent.h } })
        } else {
            None
        }
    }

    /// The sprite after a load that ended in `decoded`: a decoded image of some
    /// size replaces texture and size; a failure leaves the size and no texture.
    pub open spec fn after_load(self, decoded: Result<Size, String>) -> SpriteView {
        match decoded {
            Ok(size) => SpriteView { loaded: true, width: size.w, height: size.h },
            Err(_) => SpriteView { loaded: false, ..self },
        }
    }
}

/// A render target to create and the copy, if any, that fills it.
#[derive(Clone, Copy, Debug, PartialEq, Eq)]
pub struct TextureDraw {
    pub width: u32,
    pub height: u32,
    pub blit: Option<Blit>,
}

/// What drawing into a new render target ends in: the result for the caller
/// and the line to log, if there is one.
#[derive(Debug, PartialEq, Eq)]
pub struct TextureReport {
    pub result: Result<(), String>,
    pub log: Option<String>,
}

/// The line that reports a failed copy into the render target.
pub open spec fn copy_failure_text(msg: Seq<char>) -> Seq<char> {
    "ERROR: Could not copy texture: "@ + msg
}

/// The error for a render target that could not be bound or cleared.
pub open spec fn draw_failure_text(msg: Seq<char>) -> Seq<char> {
    "ERROR: Could not draw to new texture: "@ + msg
}

/// Calls `format!` of std to write `prefix` and then `msg` into one text.
/// Not proved: that `format!` with `{}{}` writes the two strings one after
/// the other, each as it is, as std's `Display` for `str` does.
#[verifier::external_body]
fn joined(prefix: &str, msg: &str) -> (text: String)
    ensures
        text@ == prefix@ + msg@,
{
    format!("{}{}", prefix, msg)
}

/// What `render_to_texture` reports once the backend has answered. `copied`
/// is how the copy into the target ended, `bound` how binding and clearing
/// the target did. A failed copy is logged and fails nothing: the caller
/// still gets its texture, possibly blank. A failed binding is the error,
/// under its heading.
pub fn texture_outcome(copied: Result<(), String>, bound: Result<(), String>) -> (r: TextureReport)
    ensures
        r.result is Ok <==> bound is Ok,
        bound matches Err(msg) ==> r.result matches Err(text) && text@ == draw_failure_text(msg@),
        r.log is Some <==> copied is Err,
        copied matches Err(msg) ==> r.log matches Some(line) && line@ == copy_failure_text(msg@),
{
    let log = match copied {
        Ok(()) => None,
        Err(msg) => Some(joined("ERROR: Could not copy texture: ", msg.as_str())),
    };
    let result = match bound {
        Ok(()) => Ok(()),
        Err(msg) => Err(joined("ERROR: Could not draw to new texture: ", msg.as_str())),
    };
    TextureReport { result, log }
}

/// A loaded image, or the empty sprite of size zero that draws nothing.
#[derive(Clone, Copy, Debug)]
pub struct Sprite {
    loaded: bool,
    width: u32,
    height: u32,
}

impl View for Sprite {
    type V = SpriteView;

    closed spec fn view(&self) -> SpriteView {
        SpriteView { loaded: self.loaded, width: self.width, height: self.height }
    }
}

impl Default for Sprite {
    /// The empty sprite.
    fn default() -> (s: Sprite)
        ensures
            s@ == SpriteView::empty(),
    {
        Sprite { loaded: false, width: 0, height: 0 }
    }
}

impl Sprite {
    /// The empty sprite: no texture, size zero.
    pub fn new() -> (s: Sprite)
        ensures
            s@ == SpriteView::empty(),
    {
        Sprite { loaded: false, width: 0, height: 0 }
    }

    /// The width of the image in pixels; 0 for the empty sprite.
    pub fn width(&self) -> (w: u32)
        ensures
            w == self@.width,
    {
        self.width
    }

    /// The height of the image in pixels; 0 for the empty sprite.
    pub fn height(&self) -> (h: u32)
        ensures
            h == self@.height,
    {
        self.height
    }

    /// Whether a texture stands behind the sprite.
    pub fn is_loaded(&self) -> (b: bool)
        ensures
            b == self@.loaded,
    {
        self.loaded
    }

    /// Records how decoding the image file ended. `decoded` is the size of the
    /// decoded image, or the message of the failure, which is handed back.
    pub fn load_from_file(&mut self, decoded: Result<Size, String>) -> (r: Result<(), String>)
        ensures
            final(self)@ == old(self)@.after_load(decoded),
            r is Ok <==> decoded is Ok,
            r matches Err(msg) ==> decoded is Err && msg@ == decoded->Err_0@,
    {
        self.loaded = false;
        match decoded {
            Ok(size) => {
                self.width = size.w;
                self.height = size.h;
                self.loaded = true;
                Ok(())
            },
            Err(msg) => Err(msg),
        }
    }

    /// The copy that draws this sprite at `(x, y)`. The destination has the
    /// sprite's size, or that of `clip` where given, or `size` where given.
    /// An empty sprite draws nothing.
    pub fn render(&self, x: i32, y: i32, size: Option<Size>, clip: Option<Rect>) -> (r: Option<Blit>)
        ensures
            r == self@.blit(x, y, size, clip),
            !self@.loaded ==> r is None,
    {
        let mut render_quad = Rect::new(x, y, self.width, self.height);
        if let Some(c) = clip {
            render_quad = render_quad.with_size(c.size());
        }
        if let Some(s) = size {
            render_quad = render_quad.with_size(s);
        }
        if self.loaded {
            Some(Blit { clip, dest: render_quad })
        } else {
            None
        }
    }

    /// The render target for this sprite and the copy that fills all of it.
    /// The target has the extent of `size`, or of `clip`, or of the sprite.
    pub fn render_to_texture(&self, size: Option<Rect>, clip: Option<Rect>) -> (r: TextureDraw)
        ensures
            r.width == drawn_size(self@.size(), texture_size(size), clip).w,
            r.height == drawn_size(self@.size(), texture_size(size), clip).h,
            r.blit == self@.blit(0, 0, Some(Size { w: r.width, h: r.height }), clip),
    {
        let mut render_quad = Rect::new(0, 0, self.width, self.height);
        if let Some(c) = clip {
            render_quad = render_quad.with_size(c.size());
        }
        let extent = match size {
            Some(s) => s.size(),
            None => render_quad.size(),
        };
        let blit = if self.loaded {
            Some(Blit { clip, dest: Rect::new(0, 0, extent.w, extent.h) })
        } else {
            None
        };
        TextureDraw { width: extent.w, height: extent.h, blit }
    }
}

/// The extent of the rectangle that asks for a render target, if one is given.
pub open spec fn texture_size(size: Option<Rect>) -> Option<Size> {
    match size {
        Some(s) => Some(Size { w: s.w, h: s.h }),
        None => None,
    }
}

} // verus!
