use explorer::simulation::{
    Action, FrameInput, JuliaParams, State, MAX_ITERATION_DEFAULT, MAX_ITERATION_LOWER_BOUND,
};

fn idle() -> FrameInput {
    FrameInput {
        cursor_c: None,
        more_iterations: false,
        fewer_iterations: false,
        reset_iterations: false,
        show_reference: false,
    }
}

fn bits(re: f64, im: f64) -> Option<(u64, u64)> {
    Some((re.to_bits(), im.to_bits()))
}

#[test]
fn params_start_at_origin_with_default_limit() {
    let p = JuliaParams::new();
    assert_eq!(p.c_re_bits, 0.0f64.to_bits());
    assert_eq!(p.c_im_bits, 0.0f64.to_bits());
    assert_eq!(p.max_iterations, 60);
    assert_eq!(p.max_iterations, MAX_ITERATION_DEFAULT);
}

#[test]
fn params_follow_the_cursor() {
    let mut p = JuliaParams::new();
    p.update(&FrameInput { cursor_c: bits(-0.8, 0.156), ..idle() });
    assert_eq!(f64::from_bits(p.c_re_bits), -0.8);
    assert_eq!(f64::from_bits(p.c_im_bits), 0.156);
    p.update(&idle());
    assert_eq!(f64::from_bits(p.c_re_bits), -0.8);
}

#[test]
fn iteration_limit_steps_and_floor() {
    let mut p = JuliaParams::new();
    p.update(&FrameInput { more_iterations: true, ..idle() });
    assert_eq!(p.max_iterations, 63);
    p.update(&FrameInput { fewer_iterations: true, ..idle() });
    p.update(&FrameInput { fewer_iterations: true, ..idle() });
    assert_eq!(p.max_iterations, 57);
    for _ in 0..100 {
        p.update(&FrameInput { fewer_iterations: true, ..idle() });
    }
    assert_eq!(p.max_iterations, MAX_ITERATION_LOWER_BOUND);
    p.max_iterations = 14;
    p.update(&FrameInput { fewer_iterations: true, ..idle() });
    assert_eq!(p.max_iterations, 12);
}

#[test]
fn iteration_limit_saturates() {
    let mut p = JuliaParams::new();
    p.max_iterations = u32::MAX - 1;
    p.update(&FrameInput { more_iterations: true, ..idle() });
    assert_eq!(p.max_iterations, u32::MAX);
}

#[test]
fn reset_restores_default_limit_only() {
    let mut p = JuliaParams::new();
    p.update(&FrameInput { cursor_c: bits(0.3, -0.5), more_iterations: true, ..idle() });
    p.update(&FrameInput { more_iterations: true, ..idle() });
    assert_eq!(p.max_iterations, 66);
    p.update(&FrameInput { more_iterations: true, reset_iterations: true, ..idle() });
    assert_eq!(p.max_iterations, 60);
    assert_eq!(f64::from_bits(p.c_re_bits), 0.3);
    assert_eq!(f64::from_bits(p.c_im_bits), -0.5);
}

#[test]
fn same_input_renders_once() {
    let mut s = State::new();
    let input = FrameInput { cursor_c: bits(-0.4, 0.6), ..idle() };
    assert_eq!(s.update(&input, 4, 3), Action::RenderJulia);
    s.set_pixels(vec![7; 12]);
    assert_eq!(s.update(&input, 4, 3), Action::ShowJulia);
    assert_eq!(s.pixels(), &[7; 12][..]);
    assert_eq!(s.update(&input, 4, 3), Action::ShowJulia);
}

#[test]
fn resize_renders_again() {
    let mut s = State::new();
    assert_eq!(s.update(&idle(), 4, 3), Action::RenderJulia);
    s.set_pixels(vec![1; 12]);
    assert_eq!(s.update(&idle(), 4, 3), Action::ShowJulia);
    assert_eq!(s.update(&idle(), 5, 3), Action::RenderJulia);
}

#[test]
fn parameter_change_renders_again() {
    let mut s = State::new();
    assert_eq!(s.update(&idle(), 4, 3), Action::RenderJulia);
    s.set_pixels(vec![1; 12]);
    assert_eq!(s.update(&idle(), 4, 3), Action::ShowJulia);
    let moved = FrameInput { cursor_c: bits(0.1, 0.0), ..idle() };
    assert_eq!(s.update(&moved, 4, 3), Action::RenderJulia);
    s.set_pixels(vec![2; 12]);
    assert_eq!(s.update(&moved, 4, 3), Action::ShowJulia);
    let more = FrameInput { more_iterations: true, ..moved };
    assert_eq!(s.update(&more, 4, 3), Action::RenderJulia);
    assert_eq!(s.params().max_iterations, 63);
    // a held key keeps changing the parameters
    s.set_pixels(vec![3; 12]);
    assert_eq!(s.update(&more, 4, 3), Action::RenderJulia);
    assert_eq!(s.params().max_iterations, 66);
}

#[test]
fn reference_field_rendered_on_first_show_and_resize() {
    let mut s = State::new();
    let show = FrameInput { show_reference: true, more_iterations: true, ..idle() };
    assert_eq!(s.update(&show, 2, 2), Action::RenderReference);
    s.set_ref_pixels(vec![9; 4]);
    assert_eq!(s.update(&show, 2, 2), Action::ShowReference);
    assert_eq!(s.ref_pixels(), &[9, 9, 9, 9][..]);
    // parameters are not edited while the reference is shown
    assert_eq!(s.params().max_iterations, 60);
    assert_eq!(s.update(&show, 3, 2), Action::RenderReference);
}

#[test]
fn swapped_dimensions_render_again() {
    // 2 x 3 and 3 x 2 hold as many pixels but are different grids
    let mut s = State::new();
    assert_eq!(s.update(&idle(), 2, 3), Action::RenderJulia);
    s.set_pixels(vec![5; 6]);
    assert_eq!(s.update(&idle(), 2, 3), Action::ShowJulia);
    assert_eq!(s.update(&idle(), 3, 2), Action::RenderJulia);
    s.set_pixels(vec![6; 6]);
    assert_eq!(s.update(&idle(), 3, 2), Action::ShowJulia);

    let show = FrameInput { show_reference: true, ..idle() };
    assert_eq!(s.update(&show, 2, 3), Action::RenderReference);
    s.set_ref_pixels(vec![8; 6]);
    assert_eq!(s.update(&show, 2, 3), Action::ShowReference);
    assert_eq!(s.update(&show, 3, 2), Action::RenderReference);
}

#[test]
fn empty_grid_needs_no_render() {
    let mut s = State::new();
    assert_eq!(s.update(&idle(), 0, 0), Action::ShowJulia);
    assert!(s.pixels().is_empty());
    assert_eq!(s.update(&idle(), 0, 5), Action::RenderJulia);
}
