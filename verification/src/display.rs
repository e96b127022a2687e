//! The display buffer: a 64x32 grid of pixels, sprites composed by XOR, and
//! the queue of changes that a renderer drains.

use vstd::prelude::*;
use std::collections::VecDeque;

verus! {

/// Number of pixels of the grid.
pub const PIXELS: usize = 2048;

/// A pixel coordinate. Coordinates beyond the grid wrap around.
#[derive(Clone, Copy, Debug, PartialEq, Eq, Structural)]
pub struct Position {
    pub x: u8,
    pub y: u8,
}

/// One change of the display: either pixel (`x`, `y`) took the state `on`, or,
/// with `clear_all` set, every pixel went off.
#[derive(Clone, Copy, Debug, PartialEq, Eq, Structural)]
pub struct PixelEvent {
    pub x: u8,
    pub y: u8,
    pub on: bool,
    pub clear_all: bool,
}

/// An event that a 64x32 surface can show: a clear, or a pixel of the grid.
pub open spec fn in_grid(e: PixelEvent) -> bool {
    e.clear_all || (e.x < 64 && e.y < 32)
}

/// Every event of the queue can be shown on a 64x32 surface.
pub open spec fn all_in_grid(events: Seq<PixelEvent>) -> bool {
    forall|k: int| 0 <= k < events.len() ==> in_grid(#[trigger] events[k])
}

/// A queue of showable events stays one when a showable event joins it.
pub proof fn lemma_push_in_grid(events: Seq<PixelEvent>, e: PixelEvent)
    requires
        all_in_grid(events),
        in_grid(e),
    ensures
        all_in_grid(events.push(e)),
{
    assert forall|k: int| 0 <= k < events.push(e).len() implies in_grid(
        #[trigger] events.push(e)[k],
    ) by {
        if k < events.len() {
            assert(events.push(e)[k] == events[k]);
        }
    }
}

/// The event that reports a cleared display.
pub open spec fn clear_event() -> PixelEvent {
    PixelEvent { x: 0, y: 0, on: false, clear_all: true }
}

/// Where pixel (`x`, `y`) lives in the grid, rows first. Both coordinates wrap.
pub open spec fn pixel_index(x: int, y: int) -> int {
    (y % 32) * 64 + x % 64
}

/// Bit `q` of a sprite row, bit 0 being the lowest.
pub open spec fn sprite_bit(row: u8, q: u8) -> bool {
    (row >> q) & 0x01 == 0x01
}

/// Column of the grid that bit `q` of a sprite row lands on: bit 7 is the
/// leftmost pixel, at `x0`, and bit 0 the rightmost, seven columns further.
pub open spec fn target_x(x0: u8, q: int) -> int {
    (x0 + 7 - q) % 64
}

/// Row of the grid that sprite row `p` lands on.
pub open spec fn target_y(y0: u8, p: int) -> int {
    (y0 + p) % 32
}

/// Whether a sprite drawn at (`x0`, `y0`) has a set bit on the pixel at index
/// `idx` of the grid: the pixel lies less than 8 columns right of `x0` and less
/// than the sprite's height below `y0`, both with wraparound, and the bit of
/// that row and column is set.
pub open spec fn lit(sprite: Seq<u8>, x0: u8, y0: u8, idx: int) -> bool {
    let dx = (idx % 64 - x0) % 64;
    let dy = (idx / 64 - y0) % 32;
    &&& dx < 8
    &&& dy < sprite.len()
    &&& sprite_bit(sprite[dy], (7 - dx) as u8)
}

/// The changes that drawing the first `steps` bits of a sprite reports, in
/// drawing order: one event for each set bit, with the state that the pixel
/// takes, the opposite of what `pixels` holds there.
pub open spec fn draw_events(pixels: Seq<bool>, x0: u8, y0: u8, sprite: Seq<u8>, steps: nat) -> Seq<
    PixelEvent,
>
    decreases steps,
{
    if steps == 0 {
        Seq::empty()
    } else {
        let k = (steps - 1) as nat;
        let earlier = draw_events(pixels, x0, y0, sprite, k);
        let x = target_x(x0, k as int % 8);
        let y = target_y(y0, k as int / 8);
        if sprite_bit(sprite[k as int / 8], (k % 8) as u8) {
            earlier.push(
                PixelEvent { x: x as u8, y: y as u8, on: !pixels[y * 64 + x], clear_all: false },
            )
        } else {
            earlier
        }
    }
}

/// Every change that drawing a sprite reports names a pixel of the grid.
pub proof fn lemma_draw_events_in_grid(
    pixels: Seq<bool>,
    x0: u8,
    y0: u8,
    sprite: Seq<u8>,
    steps: nat,
)
    ensures
        all_in_grid(draw_events(pixels, x0, y0, sprite, steps)),
    decreases steps,
{
    if steps > 0 {
        let k = (steps - 1) as nat;
        lemma_draw_events_in_grid(pixels, x0, y0, sprite, k);
        let x = target_x(x0, k as int % 8);
        let y = target_y(y0, k as int / 8);
        let e = PixelEvent { x: x as u8, y: y as u8, on: !pixels[y * 64 + x], clear_all: false };
        lemma_push_in_grid(draw_events(pixels, x0, y0, sprite, k), e);
    }
}

/// Drawing on a well-formed display gives a well-formed display.
pub proof fn lemma_drawn_wf(display: DisplayView, x0: u8, y0: u8, sprite: Seq<u8>)
    requires
        display.wf(),
    ensures
        display.drawn(x0, y0, sprite).wf(),
{
    let fresh = draw_events(display.pixels, x0, y0, sprite, 8 * sprite.len());
    lemma_draw_events_in_grid(display.pixels, x0, y0, sprite, 8 * sprite.len());
    assert forall|k: int| 0 <= k < (display.events + fresh).len() implies in_grid(
        #[trigger] (display.events + fresh)[k],
    ) by {
        if k < display.events.len() {
            assert((display.events + fresh)[k] == display.events[k]);
        } else {
            assert((display.events + fresh)[k] == fresh[k - display.events.len()]);
        }
    }
}

/// The two characters that show a pixel in a terminal.
pub open spec fn cell_text(on: bool) -> Seq<char> {
    if on {
        "██"@
    } else {
        "  "@
    }
}

/// The first `cols` pixels of row `y` as text.
pub open spec fn row_text(pixels: Seq<bool>, y: int, cols: nat) -> Seq<char>
    decreases cols,
{
    if cols == 0 {
        Seq::empty()
    } else {
        row_text(pixels, y, (cols - 1) as nat) + cell_text(pixels[y * 64 + cols - 1])
    }
}

/// The first `rows` rows as text, each one closed by a line feed.
pub open spec fn rows_text(pixels: Seq<bool>, rows: nat) -> Seq<char>
    decreases rows,
{
    if rows == 0 {
        Seq::empty()
    } else {
        rows_text(pixels, (rows - 1) as nat) + row_text(pixels, rows - 1, 64) + "\n"@
    }
}

/// The grid as text: its 32 rows and an empty line.
pub open spec fn screen_text(pixels: Seq<bool>) -> Seq<char> {
    rows_text(pixels, 32) + "\n"@
}

/// The display as a value: the grid, rows first, and the changes not yet
/// drained, oldest first.
#[verifier::ext_equal]
pub struct DisplayView {
    pub pixels: Seq<bool>,
    pub events: Seq<PixelEvent>,
}

impl DisplayView {
    /// The grid is complete, and every change that waits names a pixel of it.
    pub open spec fn wf(self) -> bool {
        &&& self.pixels.len() == PIXELS
        &&& all_in_grid(self.events)
    }

    /// State of pixel (`x`, `y`), with wraparound.
    pub open spec fn pixel(self, x: int, y: int) -> bool {
        self.pixels[pixel_index(x, y)]
    }

    /// Every pixel off, and one event that says so.
    pub open spec fn cleared(self) -> DisplayView {
        DisplayView {
            pixels: Seq::new(PIXELS as nat, |idx: int| false),
            events: self.events.push(clear_event()),
        }
    }

    /// The display after a sprite is drawn at (`x0`, `y0`): each pixel under a
    /// set bit of the sprite is flipped, every other pixel stays, and the
    /// flips are reported in drawing order.
    pub open spec fn drawn(self, x0: u8, y0: u8, sprite: Seq<u8>) -> DisplayView {
        DisplayView {
            pixels: Seq::new(
                PIXELS as nat,
                |idx: int| self.pixels[idx] != lit(sprite, x0, y0, idx),
            ),
            events: self.events + draw_events(
                self.pixels,
                x0,
                y0,
                sprite,
                8 * sprite.len(),
            ),
        }
    }

    /// Whether drawing the sprite at (`x0`, `y0`) turns off a pixel that is on.
    pub open spec fn collides(self, x0: u8, y0: u8, sprite: Seq<u8>) -> bool {
        exists|idx: int|
            0 <= idx < PIXELS && #[trigger] self.pixels[idx] && lit(
                sprite,
                x0,
                y0,
                idx,
            )
    }
}

pub struct TermDisplay {
    /// The pixels, rows first.
    pub display: [bool; 2048],
    /// The changes since the last drain, oldest first.
    pub flips: VecDeque<PixelEvent>,
}

impl View for TermDisplay {
    type V = DisplayView;

    open spec fn view(&self) -> DisplayView {
        DisplayView { pixels: self.display@, events: self.flips@ }
    }
}

impl TermDisplay {
    pub const WIDTH_PX: u8 = 64;

    pub const HEIGHT_PX: u8 = 32;

    /// Every change that waits names a pixel of the grid.
    pub open spec fn wf(&self) -> bool {
        self@.wf()
    }

    /// A dark display with nothing to report.
    pub fn new() -> (display: Self)
        ensures
            display.wf(),
            display@.pixels == Seq::new(PIXELS as nat, |idx: int| false),
            display@.events == Seq::<PixelEvent>::empty(),
    {
        Self { display: [false;2048], flips: VecDeque::new() }
    }

    /// Turns every pixel off and reports it with one event.
    pub fn clear(&mut self)
        ensures
            final(self)@ == old(self)@.cleared(),
            old(self).wf() ==> final(self).wf(),
    {
        self.display = [false;2048];
        self.flips.push_back(PixelEvent { x: 0, y: 0, on: false, clear_all: true });
        proof {
            if old(self).wf() {
                lemma_push_in_grid(old(self)@.events, clear_event());
            }
        }
    }

    /// Index of a position in the grid. Both coordinates wrap around.
    pub fn get_idx(p: Position) -> (idx: usize)
        ensures
            idx == pixel_index(p.x as int, p.y as int),
            idx < PIXELS,
    {
        let x = p.x;
        let y = p.y;
        let y_rollaround = (y & 0x1f) as usize;
        let x_rollaround = (x & 0x3f) as usize;
        assert(y & 0x1f == y % 32) by (bit_vector);
        assert(x & 0x3f == x % 64) by (bit_vector);
        y_rollaround * 64 + x_rollaround
    }

    /// State of the pixel at a position.
    pub fn get_pixel(&self, p: Position) -> (on: bool)
        ensures
            on == self@.pixel(p.x as int, p.y as int),
    {
        let idx = Self::get_idx(p);
        self.display[idx]
    }

    /// The two characters that show the pixel at a position in a terminal.
    pub fn get_character(&self, p: Position) -> (s: &str)
        ensures
            s@ == cell_text(self@.pixel(p.x as int, p.y as int)),
    {
        if self.get_pixel(p) {
            "██"
        } else {
            "  "
        }
    }

    /// The grid as text for a terminal: row by row, two characters for each
    /// pixel, a line feed after each row, and an empty line at the end.
    pub fn to_string(&self) -> (s: String)
        ensures
            s@ == screen_text(self@.pixels),
    {
        let mut s = String::new();
        let mut y: u8 = 0;
        while y < Self::HEIGHT_PX
            invariant
                y <= 32,
                s@ == rows_text(self@.pixels, y as nat),
            decreases 32 - y,
        {
            let ghost done = s@;
            let mut x: u8 = 0;
            while x < Self::WIDTH_PX
                invariant
                    y < 32,
                    x <= 64,
                    s@ == done + row_text(self@.pixels, y as int, x as nat),
                decreases 64 - x,
            {
                s.append(self.get_character(Position { x, y }));
                x += 1;
                assert(s@ =~= done + row_text(self@.pixels, y as int, x as nat));
            }
            s.append("\n");
            y += 1;
            assert(s@ =~= rows_text(self@.pixels, y as nat));
        }
        s.append("\n");
        s
    }

    /// Sets the pixel at a position. Nothing is reported.
    pub fn set_pixel(&mut self, p: Position, tf: bool)
        ensures
            final(self)@.pixels == old(self)@.pixels.update(
                pixel_index(p.x as int, p.y as int),
                tf,
            ),
            final(self)@.events == old(self)@.events,
    {
        let idx = Self::get_idx(p);
        self.display[idx] = tf;
    }

    /// Takes the oldest change that is not yet drained.
    pub fn pop_event(&mut self) -> (event: Option<PixelEvent>)
        ensures
            final(self)@.pixels == old(self)@.pixels,
            old(self).wf() ==> final(self).wf() && (event matches Some(e) ==> in_grid(e)),
            match event {
                Some(e) => old(self)@.events.len() > 0 && e == old(self)@.events[0]
                    && final(self)@.events == old(self)@.events.subrange(
                    1,
                    old(self)@.events.len() as int,
                ),
                None => old(self)@.events.len() == 0 && final(self)@.events == old(self)@.events,
            },
    {
        self.flips.pop_front()
    }

    /// Flips the pixel at a position and reports its new state under the
    /// wrapped coordinates. Returns the state that the pixel had before.
    pub fn flip_pixel(&mut self, p: Position) -> (was_on: bool)
        ensures
            was_on == old(self)@.pixel(p.x as int, p.y as int),
            final(self)@.pixels == old(self)@.pixels.update(
                pixel_index(p.x as int, p.y as int),
                !was_on,
            ),
            final(self)@.events == old(self)@.events.push(
                PixelEvent { x: p.x % 64, y: p.y % 32, on: !was_on, clear_all: false },
            ),
            old(self).wf() ==> final(self).wf(),
    {
        let oldstate = self.get_pixel(p);
        let event = PixelEvent { x: p.x % 64, y: p.y % 32, on: !oldstate, clear_all: false };
        self.flips.push_back(event);
        self.set_pixel(p, !oldstate);
        proof {
            if old(self).wf() {
                lemma_push_in_grid(old(self)@.events, event);
            }
        }
        oldstate
    }

    /// Draws a sprite at (`x0`, `y0`) by XOR: row by row from the top, and within
    /// a row from bit 0, the rightmost pixel, to bit 7, the leftmost. Each set
    /// bit flips its pixel and reports the new state. Returns whether a pixel
    /// that was on went off. The sprite has at most 32 rows, so that no two of
    /// its bits reach the same pixel.
    pub fn draw_sprite(&mut self, x0: u8, y0: u8, sprite: &[u8]) -> (collision: bool)
        requires
            sprite@.len() <= 32,
        ensures
            final(self)@ == old(self)@.drawn(x0, y0, sprite@),
            collision == old(self)@.collides(x0, y0, sprite@),
            old(self).wf() ==> final(self).wf(),
    {
        let ghost before = self@;
        let h = sprite.len();
        let mut any_flipped_off = false;
        let mut p: usize = 0;
        proof {
            reveal(drawing);
        }
        while p < h
            invariant
                h == sprite@.len(),
                h <= 32,
                p <= h,
                drawing(before, self@, any_flipped_off, x0, y0, sprite@, 8 * p),
            decreases h - p,
        {
            let bitti = sprite[p];
            let mut q: u8 = 0;
            while q < 8
                invariant
                    h == sprite@.len(),
                    h <= 32,
                    p < h,
                    q <= 8,
                    bitti == sprite@[p as int],
                    drawing(before, self@, any_flipped_off, x0, y0, sprite@, 8 * p + q),
                decreases 8 - q,
            {
                let ghost now = self@;
                let ghost any = any_flipped_off;
                let flip = (bitti >> q) & 0x01 == 0x01;
                if flip {
                    let x = ((x0 as u16 + 7 - q as u16) % 64) as u8;
                    let y = ((y0 as usize + p) % 32) as u8;
                    let oldstate = self.flip_pixel(Position { x, y });
                    if oldstate {
                        any_flipped_off = true;
                    }
                }
                proof {
                    lemma_drawing_step(
                        before,
                        now,
                        any,
                        self@,
                        any_flipped_off,
                        x0,
                        y0,
                        sprite@,
                        p as int,
                        q as int,
                    );
                }
                q += 1;
            }
            p += 1;
        }
        proof {
            reveal(drawing);
            assert(self@.pixels =~= old(self)@.drawn(x0, y0, sprite@).pixels);
            if old(self).wf() {
                lemma_drawn_wf(old(self)@, x0, y0, sprite@);
            }
        }
        any_flipped_off
    }
}

/// Whether the sprite has a set bit on the pixel at `idx`, and that bit is
/// among the first `steps` bits in drawing order.
spec fn lit_within(sprite: Seq<u8>, x0: u8, y0: u8, idx: int, steps: int) -> bool {
    let dx = (idx % 64 - x0) % 64;
    let dy = (idx / 64 - y0) % 32;
    lit(sprite, x0, y0, idx) && dy * 8 + (7 - dx) < steps
}

/// What holds after the first `steps` bits of a sprite are drawn on `before`:
/// exactly the pixels under the set bits among them are flipped, their flips
/// are reported, and `collided` tells whether one of them was on.
#[verifier::opaque]
spec fn drawing(
    before: DisplayView,
    now: DisplayView,
    collided: bool,
    x0: u8,
    y0: u8,
    sprite: Seq<u8>,
    steps: int,
) -> bool {
    &&& before.pixels.len() == PIXELS
    &&& now.pixels.len() == PIXELS
    &&& steps >= 0
    &&& now.events == before.events + draw_events(before.pixels, x0, y0, sprite, steps as nat)
    &&& forall|idx: int|
        0 <= idx < PIXELS ==> #[trigger] now.pixels[idx] == (before.pixels[idx] != lit_within(
            sprite,
            x0,
            y0,
            idx,
            steps,
        ))
    &&& collided == exists|idx: int|
        0 <= idx < PIXELS && #[trigger] before.pixels[idx] && lit_within(
            sprite,
            x0,
            y0,
            idx,
            steps,
        )
}

/// A column `d` to the right of `x0`, with wraparound, lies `d` to the right
/// of `x0`, and no other column does.
pub proof fn lemma_column_offset(x0: u8, d: int, cx: int)
    requires
        0 <= d < 64,
        0 <= cx < 64,
    ensures
        ((x0 + d) % 64 - x0) % 64 == d,
        (cx - x0) % 64 == d ==> cx == (x0 + d) % 64,
{
}

/// A row `d` below `y0`, with wraparound, lies `d` below `y0`, and no other
/// row does.
pub proof fn lemma_row_offset(y0: u8, d: int, cy: int)
    requires
        0 <= d < 32,
        0 <= cy < 32,
    ensures
        ((y0 + d) % 32 - y0) % 32 == d,
        (cy - y0) % 32 == d ==> cy == (y0 + d) % 32,
{
}

/// Bit `q` of row `p` lands on a pixel that no earlier bit of the sprite
/// reached, and on no pixel that another bit reaches.
proof fn lemma_target(sprite: Seq<u8>, x0: u8, y0: u8, p: int, q: int)
    requires
        0 <= p < sprite.len() <= 32,
        0 <= q < 8,
    ensures
        ({
            let t = target_y(y0, p) * 64 + target_x(x0, q);
            &&& 0 <= t < PIXELS
            &&& t % 64 == target_x(x0, q)
            &&& t / 64 == target_y(y0, p)
            &&& !lit_within(sprite, x0, y0, t, 8 * p + q)
            &&& lit_within(sprite, x0, y0, t, 8 * p + q + 1) == sprite_bit(sprite[p], q as u8)
            &&& forall|idx: int|
                0 <= idx < PIXELS && idx != t ==> #[trigger] lit_within(
                    sprite,
                    x0,
                    y0,
                    idx,
                    8 * p + q + 1,
                ) == lit_within(sprite, x0, y0, idx, 8 * p + q)
        }),
{
    let x = target_x(x0, q);
    let y = target_y(y0, p);
    let t = y * 64 + x;
    lemma_column_offset(x0, 7 - q, x);
    lemma_row_offset(y0, p, y);
    assert(t % 64 == x && t / 64 == y);
    assert forall|idx: int| 0 <= idx < PIXELS && idx != t implies #[trigger] lit_within(
        sprite,
        x0,
        y0,
        idx,
        8 * p + q + 1,
    ) == lit_within(sprite, x0, y0, idx, 8 * p + q) by {
        let cx = idx % 64;
        let cy = idx / 64;
        lemma_column_offset(x0, 7 - q, cx);
        lemma_row_offset(y0, p, cy);
    }
}

/// One step of drawing keeps `drawing`: when bit `q` of row `p` is set, its
/// pixel is flipped and reported, and a collision is noted if it was on.
proof fn lemma_drawing_step(
    before: DisplayView,
    now: DisplayView,
    collided: bool,
    next: DisplayView,
    next_collided: bool,
    x0: u8,
    y0: u8,
    sprite: Seq<u8>,
    p: int,
    q: int,
)
    requires
        0 <= p < sprite.len() <= 32,
        0 <= q < 8,
        drawing(before, now, collided, x0, y0, sprite, 8 * p + q),
        ({
            let x = target_x(x0, q);
            let y = target_y(y0, p);
            let was_on = now.pixels[y * 64 + x];
            if sprite_bit(sprite[p], q as u8) {
                &&& next.pixels == now.pixels.update(y * 64 + x, !was_on)
                &&& next.events == now.events.push(
                    PixelEvent { x: x as u8, y: y as u8, on: !was_on, clear_all: false },
                )
                &&& next_collided == (collided || was_on)
            } else {
                next == now && next_collided == collided
            }
        }),
    ensures
        drawing(before, next, next_collided, x0, y0, sprite, 8 * p + q + 1),
{
    reveal(drawing);
    let k = 8 * p + q;
    let t = target_y(y0, p) * 64 + target_x(x0, q);
    let flip = sprite_bit(sprite[p], q as u8);
    lemma_target(sprite, x0, y0, p, q);
    assert(k / 8 == p && k % 8 == q);
    assert(now.pixels[t] == before.pixels[t]);
    assert(next.events == before.events + draw_events(
        before.pixels,
        x0,
        y0,
        sprite,
        (k + 1) as nat,
    ));
    assert forall|idx: int| 0 <= idx < PIXELS implies #[trigger] next.pixels[idx] == (
    before.pixels[idx] != lit_within(sprite, x0, y0, idx, k + 1)) by {
        if idx != t {
            assert(lit_within(sprite, x0, y0, idx, k + 1) == lit_within(sprite, x0, y0, idx, k));
            assert(now.pixels[idx] == (before.pixels[idx] != lit_within(sprite, x0, y0, idx, k)));
        }
    }
    let goal = exists|idx: int|
        0 <= idx < PIXELS && #[trigger] before.pixels[idx] && lit_within(
            sprite,
            x0,
            y0,
            idx,
            k + 1,
        );
    if collided {
        let w = choose|idx: int|
            0 <= idx < PIXELS && #[trigger] before.pixels[idx] && lit_within(
                sprite,
                x0,
                y0,
                idx,
                k,
            );
        assert(before.pixels[w] && lit_within(sprite, x0, y0, w, k + 1));
    }
    if flip && before.pixels[t] {
        assert(before.pixels[t] && lit_within(sprite, x0, y0, t, k + 1));
    }
    if goal {
        let w = choose|idx: int|
            0 <= idx < PIXELS && #[trigger] before.pixels[idx] && lit_within(
                sprite,
                x0,
                y0,
                idx,
                k + 1,
            );
        if w != t {
            assert(lit_within(sprite, x0, y0, w, k + 1) == lit_within(sprite, x0, y0, w, k));
            assert(before.pixels[w] && lit_within(sprite, x0, y0, w, k));
        }
    }
}

} // verus!
