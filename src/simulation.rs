//! The interactive session: view parameters edited by input events, and the
//! decision of which buffer a frame shows and whether it must be rendered anew.
use vstd::prelude::*;

verus! {

/// Iteration limit of a fresh session, and the value that a reset restores.
pub const MAX_ITERATION_DEFAULT: u32 = 60;

/// Step by which one input event raises or lowers the iteration limit.
pub const MAX_ITERATION_JUMP: u32 = 3;

/// The iteration limit is never lowered below this.
pub const MAX_ITERATION_LOWER_BOUND: u32 = 12;

/// Iteration limit of the reference Mandelbrot field.
pub const MANDELBROT_MAX_ITERATION: u32 = 100;

/// View parameters of the Julia field. The constant `c` is held as the IEEE-754
/// bit patterns of its two coordinates, so that two records are equal exactly
/// when they are the same bit for bit.
#[derive(Clone, Copy, Debug, PartialEq, Eq, Structural)]
pub struct JuliaParams {
    pub c_re_bits: u64,
    pub c_im_bits: u64,
    pub max_iterations: u32,
}

/// What the input devices said in one frame.
#[derive(Clone, Copy, Debug, PartialEq, Eq)]
pub struct FrameInput {
    /// The Julia constant under the cursor, as bit patterns (real part first);
    /// `None` when the cursor is outside the window.
    pub cursor_c: Option<(u64, u64)>,
    pub more_iterations: bool,
    pub fewer_iterations: bool,
    pub reset_iterations: bool,
    /// The reference Mandelbrot field is shown instead of the Julia field.
    pub show_reference: bool,
}

/// The iteration limit one step up, saturating at `u32::MAX`.
pub open spec fn raised(m: u32) -> u32 {
    if m + MAX_ITERATION_JUMP > u32::MAX {
        u32::MAX
    } else {
        (m + MAX_ITERATION_JUMP) as u32
    }
}

/// The iteration limit one step down, never below the lower bound.
pub open spec fn lowered(m: u32) -> u32 {
    if m - MAX_ITERATION_JUMP < MAX_ITERATION_LOWER_BOUND {
        MAX_ITERATION_LOWER_BOUND
    } else {
        (m - MAX_ITERATION_JUMP) as u32
    }
}

impl JuliaParams {
    /// The parameters after one frame's input: `c` follows the cursor, then the
    /// iteration limit is raised, lowered and reset, in that order, as asked.
    pub open spec fn updated(self, input: FrameInput) -> JuliaParams {
        let (re, im) = match input.cursor_c {
            Some(c) => c,
            None => (self.c_re_bits, self.c_im_bits),
        };
        let m1 = if input.more_iterations {
            raised(self.max_iterations)
        } else {
            self.max_iterations
        };
        let m2 = if input.fewer_iterations {
            lowered(m1)
        } else {
            m1
        };
        let m3 = if input.reset_iterations {
            MAX_ITERATION_DEFAULT
        } else {
            m2
        };
        JuliaParams { c_re_bits: re, c_im_bits: im, max_iterations: m3 }
    }

    /// `c` at the origin, default iteration limit.
    pub open spec fn new_spec() -> JuliaParams {
        JuliaParams { c_re_bits: 0, c_im_bits: 0, max_iterations: MAX_ITERATION_DEFAULT }
    }

    /// `c` at the origin, default iteration limit.
    pub fn new() -> (p: JuliaParams)
        ensures
            p == JuliaParams::new_spec(),
    {
        JuliaParams { c_re_bits: 0, c_im_bits: 0, max_iterations: MAX_ITERATION_DEFAULT }
    }

    /// Applies one frame's input.
    pub fn update(&mut self, input: &FrameInput)
        ensures
            *final(self) == old(self).updated(*input),
            old(self).max_iterations >= MAX_ITERATION_LOWER_BOUND
                ==> final(self).max_iterations >= MAX_ITERATION_LOWER_BOUND,
    {
        if let Some((re, im)) = input.cursor_c {
            self.c_re_bits = re;
            self.c_im_bits = im;
        }
        if input.more_iterations {
            self.max_iterations = self.max_iterations.saturating_add(MAX_ITERATION_JUMP);
        }
        if input.fewer_iterations {
            if self.max_iterations < MAX_ITERATION_LOWER_BOUND + MAX_ITERATION_JUMP {
                self.max_iterations = MAX_ITERATION_LOWER_BOUND;
            } else {
                self.max_iterations = self.max_iterations - MAX_ITERATION_JUMP;
            }
        }
        if input.reset_iterations {
            self.max_iterations = MAX_ITERATION_DEFAULT;
        }
    }
}

/// What a frame does with the buffers of a session.
#[derive(Clone, Copy, Debug, PartialEq, Eq, Structural)]
pub enum Action {
    /// Show the Julia buffer as it is.
    ShowJulia,
    /// Render the Julia field for the current parameters, store it, show it.
    RenderJulia,
    /// Show the reference Mandelbrot buffer as it is.
    ShowReference,
    /// Render the reference Mandelbrot field, store it, show it.
    RenderReference,
}

impl Action {
    pub open spec fn renders(self) -> bool {
        self is RenderJulia || self is RenderReference
    }
}

/// The abstract state of a session: its parameters, its two buffers, and the
/// grid size for which each buffer was last rendered.
pub struct StateView {
    pub params: JuliaParams,
    pub pixels: Seq<u32>,
    pub pixels_size: (usize, usize),
    pub ref_pixels: Seq<u32>,
    pub ref_size: (usize, usize),
}

impl StateView {
    /// What a frame with `input` on a `width` x `height` grid does: the
    /// reference buffer is rendered anew exactly when it was last rendered for
    /// other grid dimensions; the Julia buffer exactly when the input changes
    /// the parameters or it was last rendered for other grid dimensions.
    pub open spec fn decide(self, input: FrameInput, width: usize, height: usize) -> Action {
        if input.show_reference {
            if self.ref_size == (width, height) {
                Action::ShowReference
            } else {
                Action::RenderReference
            }
        } else if self.params.updated(input) == self.params && self.pixels_size == (
            width,
            height,
        ) {
            Action::ShowJulia
        } else {
            Action::RenderJulia
        }
    }

    /// The state after one frame's input on a `width` x `height` grid: the
    /// parameters are edited unless the reference field is shown, and the
    /// buffer that the frame renders is marked as rendered for this grid.
    pub open spec fn next(self, input: FrameInput, width: usize, height: usize) -> StateView {
        let a = self.decide(input, width, height);
        StateView {
            params: if input.show_reference {
                self.params
            } else {
                self.params.updated(input)
            },
            pixels_size: if a is RenderJulia {
                (width, height)
            } else {
                self.pixels_size
            },
            ref_size: if a is RenderReference {
                (width, height)
            } else {
                self.ref_size
            },
            ..self
        }
    }

    /// The state after a whole frame: the input is applied, and the buffer
    /// that the frame renders, if any, is replaced by `rendered`.
    pub open spec fn after_frame(
        self,
        input: FrameInput,
        width: usize,
        height: usize,
        rendered: Seq<u32>,
    ) -> StateView {
        let s = self.next(input, width, height);
        match self.decide(input, width, height) {
            Action::RenderJulia => StateView { pixels: rendered, ..s },
            Action::RenderReference => StateView { ref_pixels: rendered, ..s },
            _ => s,
        }
    }
}

/// An interactive session: the current parameters, the last Julia buffer and
/// the reference Mandelbrot buffer, each with the grid size it was rendered for.
pub struct State {
    params: JuliaParams,
    pixels: Vec<u32>,
    pixels_size: (usize, usize),
    ref_pixels: Vec<u32>,
    ref_size: (usize, usize),
}

impl View for State {
    type V = StateView;

    closed spec fn view(&self) -> StateView {
        StateView {
            params: self.params,
            pixels: self.pixels@,
            pixels_size: self.pixels_size,
            ref_pixels: self.ref_pixels@,
            ref_size: self.ref_size,
        }
    }
}

impl State {
    /// A fresh session: default parameters, both buffers empty, as rendered
    /// for an empty grid.
    pub fn new() -> (s: State)
        ensures
            s@ == (StateView {
                params: JuliaParams::new_spec(),
                pixels: seq![],
                pixels_size: (0, 0),
                ref_pixels: seq![],
                ref_size: (0, 0),
            }),
    {
        State {
            params: JuliaParams::new(),
            pixels: Vec::new(),
            pixels_size: (0, 0),
            ref_pixels: Vec::new(),
            ref_size: (0, 0),
        }
    }

    /// Applies one frame's input on a `width` x `height` grid and says what
    /// the frame must do with the buffers. A buffer that is to be rendered is
    /// marked as rendered for this grid; the caller stores it with
    /// `set_pixels` or `set_ref_pixels`.
    pub fn update(&mut self, input: &FrameInput, width: usize, height: usize) -> (a: Action)
        ensures
            final(self)@ == old(self)@.next(*input, width, height),
            a == old(self)@.decide(*input, width, height),
    {
        if input.show_reference {
            if self.ref_size.0 == width && self.ref_size.1 == height {
                Action::ShowReference
            } else {
                self.ref_size = (width, height);
                Action::RenderReference
            }
        } else {
            let old_params = self.params;
            self.params.update(input);
            if self.params == old_params && self.pixels_size.0 == width && self.pixels_size.1
                == height {
                Action::ShowJulia
            } else {
                self.pixels_size = (width, height);
                Action::RenderJulia
            }
        }
    }

    /// The current parameters.
    pub fn params(&self) -> (p: JuliaParams)
        ensures
            p == self@.params,
    {
        self.params
    }

    /// Stores a freshly rendered Julia buffer.
    pub fn set_pixels(&mut self, pixels: Vec<u32>)
        ensures
            final(self)@ == (StateView { pixels: pixels@, ..old(self)@ }),
    {
        self.pixels = pixels;
    }

    /// Stores a freshly rendered reference buffer.
    pub fn set_ref_pixels(&mut self, pixels: Vec<u32>)
        ensures
            final(self)@ == (StateView { ref_pixels: pixels@, ..old(self)@ }),
    {
        self.ref_pixels = pixels;
    }

    /// The Julia buffer.
    pub fn pixels(&self) -> (r: &[u32])
        ensures
            r@ == self@.pixels,
    {
        self.pixels.as_slice()
    }

    /// The reference buffer.
    pub fn ref_pixels(&self) -> (r: &[u32])
        ensures
            r@ == self@.ref_pixels,
    {
        self.ref_pixels.as_slice()
    }
}

/// Re-rendering is gated on change: after one frame, a second frame with the
/// same input on the same grid renders nothing and leaves the parameters as
/// they are, provided the input shows the reference field or does not step the
/// iteration limit (each step changes the parameters again).
pub proof fn lemma_same_input_renders_once(
    s: StateView,
    input: FrameInput,
    width: usize,
    height: usize,
    rendered: Seq<u32>,
)
    requires
        input.show_reference || (!input.more_iterations && !input.fewer_iterations),
    ensures
        !s.after_frame(input, width, height, rendered).decide(input, width, height).renders(),
        s.after_frame(input, width, height, rendered).next(input, width, height).params
            == s.after_frame(input, width, height, rendered).params,
{
}

} // verus!
