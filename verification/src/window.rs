//! What a host window needs from the machine: a frame buffer that turns the
//! display's changes into coloured rectangles, and the map from host keys to
//! the hexadecimal keypad.

use vstd::prelude::*;
use vstd::arithmetic::div_mod::{lemma_fundamental_div_mod, lemma_fundamental_div_mod_converse};
use vstd::arithmetic::mul::lemma_mul_inequality;
use crate::display::{in_grid, PixelEvent};

verus! {

/// Colour of a pixel that is off.
pub const BG_COLOR: u32 = 0x1df6;

/// Colour of a pixel that is on.
pub const FG_COLOR: u32 = 0xffff;

/// Height of one display pixel in the frame, in frame pixels.
pub const PIX_HEIGHT: usize = 14;

/// Width of one display pixel in the frame, in frame pixels.
pub const PIX_WIDTH: usize = 16;

/// A frame as a value: `height` rows of `width` colours, rows first. The
/// colour at column `c` of row `r` is `colors[r * width + c]`; the other way
/// round, index `j` lies in column `j % width` of row `j / width`.
#[verifier::ext_equal]
pub struct FrameView {
    pub width: nat,
    pub height: nat,
    pub colors: Seq<u32>,
}

impl FrameView {
    /// There is one colour for each cell.
    pub open spec fn wf(self) -> bool {
        self.colors.len() == self.width * self.height
    }

    /// The colour at column `cx` of row `cy`.
    pub open spec fn color_at(self, cx: int, cy: int) -> u32 {
        self.colors[cy * self.width + cx]
    }

    /// The frame with the rectangle of `w` columns from `x` on and `h` rows
    /// from `y` on in `color`, and every other cell as it was.
    pub open spec fn painted(self, x: int, y: int, w: int, h: int, color: u32) -> FrameView {
        FrameView {
            colors: Seq::new(
                self.colors.len(),
                |j: int|
                    if x <= j % (self.width as int) < x + w && y <= j / (self.width as int) < y
                        + h {
                        color
                    } else {
                        self.colors[j]
                    },
            ),
            ..self
        }
    }

    /// The frame with every cell in the background colour.
    pub open spec fn blank(self) -> FrameView {
        FrameView { colors: Seq::new(self.colors.len(), |j: int| BG_COLOR), ..self }
    }

    /// The frame after a change of the display is shown: a clear blanks the
    /// frame; a pixel paints its rectangle in the colour of its new state.
    pub open spec fn shown(self, p: PixelEvent) -> FrameView {
        if p.clear_all {
            self.blank()
        } else {
            self.painted(
                p.x * PIX_WIDTH,
                p.y * PIX_HEIGHT,
                PIX_WIDTH as int,
                PIX_HEIGHT as int,
                if p.on {
                    FG_COLOR
                } else {
                    BG_COLOR
                },
            )
        }
    }

    /// The change names a rectangle that lies in the frame.
    pub open spec fn can_show(self, p: PixelEvent) -> bool {
        p.clear_all || ((p.x + 1) * PIX_WIDTH <= self.width && (p.y + 1) * PIX_HEIGHT
            <= self.height)
    }
}

/// The index `cy * width + cx` lies in row `cy` and column `cx`, and within
/// the frame.
pub proof fn lemma_cell(width: int, height: int, cx: int, cy: int)
    requires
        0 <= cx < width,
        0 <= cy < height,
    ensures
        0 <= cy * width + cx < width * height,
        (cy * width + cx) % width == cx,
        (cy * width + cx) / width == cy,
{
    lemma_fundamental_div_mod_converse(cy * width + cx, width, cy, cx);
    lemma_mul_inequality(cy + 1, height, width);
    assert((cy + 1) * width == cy * width + width) by (nonlinear_arith);
    assert(0 <= cy * width) by (nonlinear_arith)
        requires
            0 <= cy,
            0 <= width,
    ;
    assert(height * width == width * height) by (nonlinear_arith);
}

/// Painting a rectangle colours exactly the cells of the rectangle: a cell of
/// the frame takes the colour if its column and row lie in the rectangle, and
/// keeps its own colour otherwise.
pub proof fn lemma_painted_cell(
    frame: FrameView,
    x: int,
    y: int,
    w: int,
    h: int,
    color: u32,
    cx: int,
    cy: int,
)
    requires
        frame.wf(),
        0 <= cx < frame.width,
        0 <= cy < frame.height,
    ensures
        frame.painted(x, y, w, h, color).color_at(cx, cy) == if x <= cx < x + w && y <= cy < y
            + h {
            color
        } else {
            frame.color_at(cx, cy)
        },
{
    lemma_cell(frame.width as int, frame.height as int, cx, cy);
}

/// A frame made for the 64x32 display can show every change that the display
/// reports.
pub proof fn lemma_grid_event_can_be_shown(frame: FrameView, p: PixelEvent)
    requires
        frame.width == 64 * PIX_WIDTH,
        frame.height == 32 * PIX_HEIGHT,
        in_grid(p),
    ensures
        frame.can_show(p),
{
}

/// The pixels that a host window shows.
pub struct FrameBuffer {
    pixels: Vec<u32>,
    width: usize,
    height: usize,
}

impl View for FrameBuffer {
    type V = FrameView;

    closed spec fn view(&self) -> FrameView {
        FrameView { width: self.width as nat, height: self.height as nat, colors: self.pixels@ }
    }
}

impl FrameBuffer {
    /// The buffer holds one colour for each cell of the frame.
    pub open spec fn wf(&self) -> bool {
        self@.wf()
    }

    /// A blank frame for a display of `width_px` by `height_px` pixels, each
    /// shown as a rectangle of 16 by 14 frame pixels.
    pub fn new(width_px: usize, height_px: usize) -> (frame: Self)
        requires
            width_px * PIX_WIDTH <= usize::MAX,
            height_px * PIX_HEIGHT <= usize::MAX,
            (width_px * PIX_WIDTH) * (height_px * PIX_HEIGHT) <= usize::MAX,
        ensures
            frame.wf(),
            frame@.width == width_px * PIX_WIDTH,
            frame@.height == height_px * PIX_HEIGHT,
            frame@ == frame@.blank(),
    {
        let width = width_px * PIX_WIDTH;
        let height = height_px * PIX_HEIGHT;
        let frame = Self { pixels: vec![BG_COLOR; width * height], width, height };
        assert(frame@.colors =~= frame@.blank().colors);
        frame
    }

    /// Number of columns of the frame.
    pub fn width(&self) -> (width: usize)
        ensures
            width == self@.width,
    {
        self.width
    }

    /// Number of rows of the frame.
    pub fn height(&self) -> (height: usize)
        ensures
            height == self@.height,
    {
        self.height
    }

    /// The colours of the frame, rows first.
    pub fn pixels(&self) -> (pixels: &Vec<u32>)
        ensures
            pixels@ == self@.colors,
    {
        &self.pixels
    }

    /// Index of column `x` of row `y` in the buffer.
    pub fn get_idx(&self, x: usize, y: usize) -> (idx: usize)
        requires
            self.wf(),
            x < self@.width,
            y < self@.height,
        ensures
            idx == y * self@.width + x,
            idx < self@.colors.len(),
    {
        proof {
            lemma_cell(self.width as int, self.height as int, x as int, y as int);
            assert(self.pixels.len() == self.pixels@.len());
            assert(0 <= y * self.width) by (nonlinear_arith);
        }
        x + y * self.width
    }

    /// Paints the rectangle of `w` columns from `x` on and `h` rows from `y` on.
    pub fn draw_rectangle(&mut self, x: usize, y: usize, w: usize, h: usize, color: u32)
        requires
            old(self).wf(),
            x + w <= old(self)@.width,
            y + h <= old(self)@.height,
        ensures
            final(self).wf(),
            final(self)@ == old(self)@.painted(x as int, y as int, w as int, h as int, color),
    {
        let ghost before = self@;
        let mut l: usize = y;
        while l < y + h
            invariant
                self.wf(),
                x + w <= self@.width,
                y + h <= self@.height,
                y <= l <= y + h,
                self@ == before.painted(x as int, y as int, w as int, l - y, color),
            decreases y + h - l,
        {
            let ghost row_start = self@;
            let mut c: usize = 0;
            while c < w
                invariant
                    self.wf(),
                    x + w <= self@.width,
                    y <= l < y + h <= self@.height,
                    c <= w,
                    row_start == before.painted(x as int, y as int, w as int, l - y, color),
                    self@ == row_start.painted(x as int, l as int, c as int, 1, color),
                decreases w - c,
            {
                let ghost now = self@;
                let idx = self.get_idx(x + c, l);
                self.pixels[idx] = color;
                proof {
                    let width = self.width as int;
                    lemma_cell(width, self.height as int, x + c, l as int);
                    let goal = row_start.painted(x as int, l as int, c + 1, 1, color);
                    assert forall|j: int| 0 <= j < self@.colors.len() implies self@.colors[j]
                        == goal.colors[j] by {
                        lemma_fundamental_div_mod(j, width);
                        if j != idx {
                            assert(self@.colors[j] == now.colors[j]);
                            if j / width == l && j % width == x + c {
                                assert(width * (j / width) == l * width) by (nonlinear_arith)
                                    requires
                                        j / width == l,
                                ;
                            }
                        }
                    }
                    assert(self@.colors =~= goal.colors);
                }
                c += 1;
            }
            l += 1;
            proof {
                let goal = before.painted(x as int, y as int, w as int, l - y, color);
                assert(self@.colors =~= goal.colors);
            }
        }
    }

    /// Tells whether the change names a rectangle that lies in the frame.
    pub fn can_show(&self, p: &PixelEvent) -> (ok: bool)
        ensures
            ok == self@.can_show(*p),
    {
        p.clear_all || ((p.x as usize + 1) * PIX_WIDTH <= self.width && (p.y as usize + 1)
            * PIX_HEIGHT <= self.height)
    }

    /// Shows one change of the display: a clear blanks the frame, a pixel
    /// paints its rectangle, bright if the pixel went on and dark if it went
    /// off.
    pub fn draw_pixel(&mut self, p: &PixelEvent)
        requires
            old(self).wf(),
            old(self)@.can_show(*p),
        ensures
            final(self).wf(),
            final(self)@ == old(self)@.shown(*p),
    {
        if p.clear_all {
            self.clear()
        } else {
            self.draw_rectangle(
                (p.x as usize) * PIX_WIDTH,
                (p.y as usize) * PIX_HEIGHT,
                PIX_WIDTH,
                PIX_HEIGHT,
                if p.on {
                    FG_COLOR
                } else {
                    BG_COLOR
                },
            )
        }
    }

    /// Blanks the frame.
    pub fn clear(&mut self)
        requires
            old(self).wf(),
        ensures
            final(self).wf(),
            final(self)@ == old(self)@.blank(),
    {
        let n = self.pixels.len();
        let mut j: usize = 0;
        while j < n
            invariant
                self.wf(),
                n == self.pixels.len(),
                j <= n,
                self@.width == old(self)@.width,
                self@.height == old(self)@.height,
                forall|k: int| 0 <= k < j ==> self@.colors[k] == BG_COLOR,
            decreases n - j,
        {
            self.pixels[j] = BG_COLOR;
            j += 1;
        }
        assert(self@.colors =~= old(self)@.blank().colors);
    }
}

/// A key of the host keyboard, as far as the keypad cares: the fifteen keys
/// that stand for a hexadecimal key, and every other key.
#[derive(Clone, Copy, Debug, PartialEq, Eq, Structural)]
pub enum HostKey {
    X,
    C,
    V,
    A,
    S,
    D,
    F,
    Q,
    W,
    E,
    R,
    Key1,
    Key2,
    Key3,
    Key4,
    Other,
}

/// The keypad code of a host key, and 0 for a key that stands for none.
pub open spec fn spec_key_code(key: HostKey) -> u8 {
    match key {
        HostKey::X => 0x1,
        HostKey::C => 0x2,
        HostKey::V => 0x3,
        HostKey::A => 0x4,
        HostKey::S => 0x5,
        HostKey::D => 0x6,
        HostKey::F => 0x7,
        HostKey::Q => 0x8,
        HostKey::W => 0x9,
        HostKey::E => 0xa,
        HostKey::R => 0xb,
        HostKey::Key1 => 0xc,
        HostKey::Key2 => 0xd,
        HostKey::Key3 => 0xe,
        HostKey::Key4 => 0xf,
        HostKey::Other => 0,
    }
}

/// The key that a set of pressed host keys stands for: the code of the last
/// one, unless there is none or the last one stands for no key.
pub open spec fn pressed(keys: Seq<HostKey>) -> Option<u8> {
    if keys.len() == 0 || spec_key_code(keys.last()) == 0 {
        None
    } else {
        Some(spec_key_code(keys.last()))
    }
}

/// The keypad code of a host key, and 0 for a key that stands for none.
#[verifier::when_used_as_spec(spec_key_code)]
pub fn key_code(key: HostKey) -> (code: u8)
    ensures
        code == spec_key_code(key),
        code <= 15,
{
    match key {
        HostKey::X => 0x1,
        HostKey::C => 0x2,
        HostKey::V => 0x3,
        HostKey::A => 0x4,
        HostKey::S => 0x5,
        HostKey::D => 0x6,
        HostKey::F => 0x7,
        HostKey::Q => 0x8,
        HostKey::W => 0x9,
        HostKey::E => 0xa,
        HostKey::R => 0xb,
        HostKey::Key1 => 0xc,
        HostKey::Key2 => 0xd,
        HostKey::Key3 => 0xe,
        HostKey::Key4 => 0xf,
        HostKey::Other => 0,
    }
}

/// The key to latch for the host keys that are down: only the last one
/// counts. What comes back is a key of the keypad, from 1 to 15.
pub fn check_keypress(keys: &[HostKey]) -> (key: Option<u8>)
    ensures
        key == pressed(keys@),
        key matches Some(k) ==> 1 <= k <= 15,
{
    let mut okey = 0u8;
    let mut n: usize = 0;
    while n < keys.len()
        invariant
            n <= keys.len(),
            okey == if n == 0 {
                0
            } else {
                spec_key_code(keys@[n - 1])
            },
        decreases keys.len() - n,
    {
        okey = key_code(keys[n]);
        n += 1;
    }
    if okey == 0u8 {
        None
    } else {
        Some(okey)
    }
}

} // verus!
