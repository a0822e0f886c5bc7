//! A bouncy box: a square that moves across a double-buffered framebuffer,
//! bounces off the window's edges and is steered by the arrow keys.
use crate::grid::{lemma_grid_bounds, lemma_grid_index, lemma_grid_split};
use vstd::prelude::*;

verus! {

/// Side of the box, in pixels.
pub const CUBE_SIZE: u32 = 50;

/// The box's color for a surface that reads words as 0xAARRGGBB.
pub const BOX_COLOR_ARGB: u32 = 0xFFAD_F542;

/// The box's color for a surface that reads words as 0xAABBGGRR.
pub const BOX_COLOR_ABGR: u32 = 0xFF42_F5AD;

/// The arrow keys held down in one frame.
#[derive(Clone, Copy, Debug, PartialEq, Eq, Structural)]
pub struct Steering {
    pub up: bool,
    pub down: bool,
    pub left: bool,
    pub right: bool,
}

/// Largest position at which a box of side `cube` still fits in `size` pixels
/// (0 when it does not fit at all).
pub open spec fn limit(size: int, cube: int) -> int {
    if size >= cube {
        size - cube
    } else {
        0
    }
}

/// A position after one step, held between 0 and `lim`.
pub open spec fn moved(pos: int, step: int, lim: int) -> int {
    if pos + step < 0 {
        0
    } else if pos + step > lim {
        lim
    } else {
        pos + step
    }
}

/// The box turns round when it touches either edge.
pub open spec fn bounced(pos: int, step: int, size: int, cube: int) -> int {
    if pos == 0 || pos + cube >= size {
        -step
    } else {
        step
    }
}

/// Horizontal step after the arrow keys: left wins over right.
pub open spec fn steered_x(step: int, keys: Steering) -> int {
    if keys.left {
        -1
    } else if keys.right {
        1
    } else {
        step
    }
}

/// Vertical step after the arrow keys: up wins over down.
pub open spec fn steered_y(step: int, keys: Steering) -> int {
    if keys.up {
        -2
    } else if keys.down {
        2
    } else {
        step
    }
}

/// Pixel `(col, row)` lies in the box of side `cube` whose top-left corner is
/// at `(px, py)`.
pub open spec fn in_box(px: int, py: int, cube: int, col: int, row: int) -> bool {
    px <= col < px + cube && py <= row < py + cube
}

/// The abstract state of a bouncy box.
pub struct BoxView {
    pub window_width: usize,
    pub window_height: usize,
    pub buffer: Seq<u32>,
    pub buffer_n: usize,
    pub pos_x: u32,
    pub pos_y: u32,
    pub step_x: i32,
    pub step_y: i32,
    pub cube_size: u32,
    pub area_size: usize,
}

impl BoxView {
    /// Two screen areas (and room to spare) in the buffer, one of them in use,
    /// unit steps, and the box inside the window wherever it fits.
    pub open spec fn wf(self) -> bool {
        &&& self.area_size == self.window_width * self.window_height
        &&& self.buffer.len() == self.area_size * 8
        &&& self.area_size * 8 <= usize::MAX
        &&& self.buffer_n <= 1
        &&& self.window_width <= u32::MAX
        &&& self.window_height <= u32::MAX
        &&& self.cube_size == CUBE_SIZE
        &&& self.step_x == 1 || self.step_x == -1
        &&& self.step_y == 2 || self.step_y == -2
        &&& self.pos_x <= limit(self.window_width as int, self.cube_size as int)
        &&& self.pos_y <= limit(self.window_height as int, self.cube_size as int)
    }

    /// The screen area in use.
    pub open spec fn shown(self) -> Seq<u32> {
        self.buffer.subrange(
            self.buffer_n * self.area_size,
            self.buffer_n * self.area_size + self.area_size,
        )
    }

    /// Word `k` of a screen area that shows the box at its current position.
    pub open spec fn box_pixel(self, k: int, color: u32) -> u32 {
        if in_box(
            self.pos_x as int,
            self.pos_y as int,
            self.cube_size as int,
            k % self.window_width as int,
            k / self.window_width as int,
        ) {
            color
        } else {
            0
        }
    }
}

/// Pixel `k` of a screen area lies in the part of `s`'s box drawn so far by a
/// scan column after column, when `i` columns are done and `j` pixels of the next.
spec fn drawn(s: BoxView, k: int, i: int, j: int) -> bool {
    let col = k % s.window_width as int;
    let row = k / s.window_width as int;
    let dx = col - s.pos_x;
    let dy = row - s.pos_y;
    in_box(s.pos_x as int, s.pos_y as int, s.cube_size as int, col, row) && (dx < i || (dx == i
        && dy < j))
}

/// Sets the `area` words of `buffer` from `offset` on to 0.
fn clear_area(buffer: &mut Vec<u32>, offset: usize, area: usize)
    requires
        offset + area <= old(buffer)@.len(),
    ensures
        final(buffer)@.len() == old(buffer)@.len(),
        forall|q: int|
            0 <= q < old(buffer)@.len() && !(offset <= q < offset + area)
                ==> #[trigger] final(buffer)@[q] == old(buffer)@[q],
        forall|q: int| 0 <= q < area ==> #[trigger] final(buffer)@[offset + q] == 0u32,
{
    let ghost b0 = buffer@;
    let len = buffer.len();
    let mut k: usize = 0;
    while k < area
        invariant
            offset + area <= b0.len(),
            b0.len() == len,
            k <= area,
            buffer@.len() == b0.len(),
            forall|q: int|
                0 <= q < b0.len() && !(offset <= q < offset + area) ==> #[trigger] buffer@[q]
                    == b0[q],
            forall|q: int| 0 <= q < k ==> #[trigger] buffer@[offset + q] == 0u32,
        decreases area - k,
    {
        buffer[offset + k] = 0;
        k = k + 1;
    }
}

/// A square of side `CUBE_SIZE` bouncing inside a window. The buffer holds
/// screen areas of `window_width * window_height` words back to back; frames
/// are drawn alternately into the first and the second.
pub struct BouncyBox {
    pub window_width: usize,
    pub window_height: usize,
    pub buffer: Vec<u32>,
    buffer_n: usize,
    pos_x: u32,
    pos_y: u32,
    step_x: i32,
    step_y: i32,
    cube_size: u32,
    area_size: usize,
}

impl View for BouncyBox {
    type V = BoxView;

    closed spec fn view(&self) -> BoxView {
        BoxView {
            window_width: self.window_width,
            window_height: self.window_height,
            buffer: self.buffer@,
            buffer_n: self.buffer_n,
            pos_x: self.pos_x,
            pos_y: self.pos_y,
            step_x: self.step_x,
            step_y: self.step_y,
            cube_size: self.cube_size,
            area_size: self.area_size,
        }
    }
}

impl BouncyBox {
    /// A box in the top-left corner heading right and down, over a cleared
    /// buffer with the first screen area in use.
    pub fn new(window_width: usize, window_height: usize) -> (b: BouncyBox)
        requires
            window_width <= u32::MAX,
            window_height <= u32::MAX,
            window_width * window_height * 8 <= usize::MAX,
        ensures
            b@.wf(),
            b@.window_width == window_width,
            b@.window_height == window_height,
            b@.buffer == Seq::new(b@.buffer.len(), |k: int| 0u32),
            b@.buffer_n == 0,
            b@.pos_x == 0 && b@.pos_y == 0,
            b@.step_x == 1 && b@.step_y == 2,
    {
        let area_size = window_width * window_height;
        let buffer_len: usize = area_size * 4 * 2;
        let buffer: Vec<u32> = vec![0; buffer_len];
        assert(buffer@ =~= Seq::new(buffer_len as nat, |k: int| 0u32));
        BouncyBox {
            window_width,
            window_height,
            buffer,
            buffer_n: 0,
            pos_x: 0,
            pos_y: 0,
            step_x: 1,
            step_y: 2,
            cube_size: CUBE_SIZE,
            area_size,
        }
    }

    /// Switches to the other screen area.
    pub fn flip_buffer_in_use(&mut self)
        requires
            old(self)@.wf(),
        ensures
            final(self)@ == (BoxView { buffer_n: (1 - old(self)@.buffer_n) as usize, ..old(self)@ }),
    {
        if self.buffer_n == 0 {
            self.buffer_n = 1;
        } else {
            self.buffer_n = 0;
        }
    }

    /// The screen area that was drawn last.
    pub fn get_buffer_to_print(&mut self) -> (r: &[u32])
        requires
            old(self)@.wf(),
        ensures
            r@ == old(self)@.shown(),
            final(self)@ == old(self)@,
    {
        let start_offset = if self.buffer_n == 0 {
            0
        } else {
            self.area_size
        };
        &self.buffer[start_offset..start_offset + self.area_size]
    }

    /// One frame: the other screen area is cleared and the box drawn there in
    /// `color` at its current position (clipped to the window); then the box
    /// moves one step, held inside the window, the arrow keys set its
    /// direction, and it turns round where it touches an edge.
    #[verifier::rlimit(30)]
    pub fn game_step(&mut self, keys: &Steering, color: u32)
        requires
            old(self)@.wf(),
        ensures
            final(self)@.wf(),
            final(self)@.window_width == old(self)@.window_width,
            final(self)@.window_height == old(self)@.window_height,
            final(self)@.buffer_n == 1 - old(self)@.buffer_n,
            forall|k: int|
                0 <= k < old(self)@.area_size ==> #[trigger] final(self)@.shown()[k] == old(
                    self,
                )@.box_pixel(k, color),
            forall|k: int|
                0 <= k < old(self)@.buffer.len() && !(final(self)@.buffer_n * old(self)@.area_size
                    <= k < final(self)@.buffer_n * old(self)@.area_size + old(self)@.area_size)
                    ==> #[trigger] final(self)@.buffer[k] == old(self)@.buffer[k],
            final(self)@.pos_x == moved(
                old(self)@.pos_x as int,
                old(self)@.step_x as int,
                limit(old(self)@.window_width as int, CUBE_SIZE as int),
            ),
            final(self)@.pos_y == moved(
                old(self)@.pos_y as int,
                old(self)@.step_y as int,
                limit(old(self)@.window_height as int, CUBE_SIZE as int),
            ),
            final(self)@.step_x == bounced(
                final(self)@.pos_x as int,
                steered_x(old(self)@.step_x as int, *keys),
                old(self)@.window_width as int,
                CUBE_SIZE as int,
            ),
            final(self)@.step_y == bounced(
                final(self)@.pos_y as int,
                steered_y(old(self)@.step_y as int, *keys),
                old(self)@.window_height as int,
                CUBE_SIZE as int,
            ),
    {
        let ghost s_old = self@;
        self.flip_buffer_in_use();
        let ghost s0 = self@;
        let area = self.area_size;
        let w = self.window_width;
        let h = self.window_height;
        let offset: usize = if self.buffer_n == 0 {
            0
        } else {
            area
        };
        assert(offset == s0.buffer_n * area && offset + area <= s0.buffer.len()) by (nonlinear_arith)
            requires
                s0.buffer_n <= 1,
                offset == if s0.buffer_n == 0 {
                    0
                } else {
                    area as int
                },
                s0.buffer.len() == area * 8,
        ;
        clear_area(&mut self.buffer, offset, area);
        let cube = self.cube_size;
        let px = self.pos_x as usize;
        let py = self.pos_y as usize;
        let mut i: u32 = 0;
        while i < cube
            invariant
                s0.wf(),
                area == s0.area_size,
                w == s0.window_width,
                h == s0.window_height,
                cube == CUBE_SIZE,
                px == s0.pos_x,
                py == s0.pos_y,
                offset == s0.buffer_n * area,
                offset + area <= s0.buffer.len(),
                i <= cube,
                self@ == (BoxView { buffer: self@.buffer, ..s0 }),
                self@.buffer.len() == s0.buffer.len(),
                forall|q: int|
                    0 <= q < s0.buffer.len() && !(offset <= q < offset + area) ==> #[trigger] self@.buffer[q]
                        == s0.buffer[q],
                forall|q: int|
                    0 <= q < area ==> #[trigger] self@.buffer[offset + q] == if drawn(
                        s0,
                        q,
                        i as int,
                        0,
                    ) {
                        color
                    } else {
                        0u32
                    },
            decreases cube - i,
        {
            let mut j: u32 = 0;
            while j < cube
                invariant
                    s0.wf(),
                    area == s0.area_size,
                    w == s0.window_width,
                    h == s0.window_height,
                    cube == CUBE_SIZE,
                    px == s0.pos_x,
                    py == s0.pos_y,
                    offset == s0.buffer_n * area,
                    offset + area <= s0.buffer.len(),
                    i < cube,
                    j <= cube,
                    self@ == (BoxView { buffer: self@.buffer, ..s0 }),
                    self@.buffer.len() == s0.buffer.len(),
                    forall|q: int|
                        0 <= q < s0.buffer.len() && !(offset <= q < offset + area)
                            ==> #[trigger] self@.buffer[q] == s0.buffer[q],
                    forall|q: int|
                        0 <= q < area ==> #[trigger] self@.buffer[offset + q] == if drawn(
                            s0,
                            q,
                            i as int,
                            j as int,
                        ) {
                            color
                        } else {
                            0u32
                        },
                decreases cube - j,
            {
                let col = px + i as usize;
                let row = py + j as usize;
                if col < w && row < h {
                    proof {
                        lemma_grid_index(w as int, h as int, col as int, row as int);
                    }
                    let q = row * w + col;
                    self.buffer[offset + q] = color;
                    proof {
                        assert forall|k: int| 0 <= k < area implies #[trigger] self@.buffer[offset
                            + k] == if drawn(s0, k, i as int, j + 1) {
                            color
                        } else {
                            0u32
                        } by {
                            lemma_grid_split(w as int, k);
                        }
                    }
                } else {
                    proof {
                        assert forall|k: int| 0 <= k < area implies #[trigger] self@.buffer[offset
                            + k] == if drawn(s0, k, i as int, j + 1) {
                            color
                        } else {
                            0u32
                        } by {
                            lemma_grid_bounds(w as int, h as int, k);
                        }
                    }
                }
                j = j + 1;
            }
            i = i + 1;
        }
        let lim_x: u32 = if w >= cube as usize {
            (w - cube as usize) as u32
        } else {
            0
        };
        let lim_y: u32 = if h >= cube as usize {
            (h - cube as usize) as u32
        } else {
            0
        };
        let next_x: i64 = self.pos_x as i64 + self.step_x as i64;
        self.pos_x = if next_x < 0 {
            0
        } else if next_x > lim_x as i64 {
            lim_x
        } else {
            next_x as u32
        };
        let next_y: i64 = self.pos_y as i64 + self.step_y as i64;
        self.pos_y = if next_y < 0 {
            0
        } else if next_y > lim_y as i64 {
            lim_y
        } else {
            next_y as u32
        };
        if keys.up {
            self.step_y = -2;
        } else if keys.down {
            self.step_y = 2;
        }
        if keys.left {
            self.step_x = -1;
        } else if keys.right {
            self.step_x = 1;
        }
        if self.pos_x == 0 || self.pos_x as u64 + cube as u64 >= w as u64 {
            self.step_x = -self.step_x;
        }
        if self.pos_y == 0 || self.pos_y as u64 + cube as u64 >= h as u64 {
            self.step_y = -self.step_y;
        }
        assert forall|k: int| 0 <= k < area implies #[trigger] self@.shown()[k] == s_old.box_pixel(
            k,
            color,
        ) by {
            assert(self@.shown()[k] == self@.buffer[offset + k]);
            assert(drawn(s0, k, cube as int, 0) == in_box(
                px as int,
                py as int,
                cube as int,
                k % w as int,
                k / w as int,
            ));
        }
    }
}

} // verus!
