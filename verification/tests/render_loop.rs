use shadertoy_live::background_worker::WorkerUpdate;
use shadertoy_live::channel::UpdateChannel;
use shadertoy_live::render::RenderState;
use shadertoy_live::st_shader::ShadertoyShader;

fn shader(body: &str) -> ShadertoyShader {
    ShadertoyShader::new("H", body, "F")
}

#[test]
fn assemble_is_header_body_footer_exactly() {
    let s = ShadertoyShader::new("H", "void main(){}", "F");
    assert_eq!(s.as_glsl(), "Hvoid main(){}F");
}

#[test]
fn assemble_is_deterministic() {
    let a = ShadertoyShader::new("head", "body", "foot");
    let b = ShadertoyShader::new("head", "body", "foot");
    assert_eq!(a.as_glsl(), b.as_glsl());
    assert_eq!(a.as_glsl(), "headbodyfoot");
}

#[test]
fn assemble_of_empty_parts() {
    assert_eq!(ShadertoyShader::new("", "", "").as_glsl(), "");
    assert_eq!(ShadertoyShader::new("", "x", "").as_glsl(), "x");
}

#[test]
fn channel_delivers_in_enqueue_order() {
    let mut channel = UpdateChannel::new();
    for body in ["a", "b", "c", "d"] {
        channel.send(WorkerUpdate::NewShader(shader(body)));
    }
    let mut seen = Vec::new();
    while let Some(WorkerUpdate::NewShader(s)) = channel.try_recv() {
        seen.push(s.as_glsl().to_owned());
    }
    assert_eq!(seen, vec!["HaF", "HbF", "HcF", "HdF"]);
    assert_eq!(channel.len(), 0);
}

#[test]
fn empty_channel_receives_nothing() {
    let mut channel = UpdateChannel::new();
    assert!(channel.try_recv().is_none());
    assert_eq!(channel.len(), 0);
}

#[test]
fn drain_keeps_only_the_last_of_many() {
    let mut state = RenderState::new(shader("start"));
    let mut channel = UpdateChannel::new();
    for body in ["one", "two", "three"] {
        channel.send(WorkerUpdate::NewShader(shader(body)));
    }
    state.drain_updates(&mut channel);
    assert_eq!(channel.len(), 0);
    assert_eq!(state.glsl(), "HthreeF");
    assert!(state.should_draw());
}

#[test]
fn drain_of_nothing_changes_nothing() {
    let mut state = RenderState::new(shader("start"));
    state.record_compile_failure();
    let mut channel = UpdateChannel::new();
    state.drain_updates(&mut channel);
    assert_eq!(state.glsl(), "HstartF");
    assert!(!state.should_draw());
}

#[test]
fn update_in_error_state_restores_drawing() {
    // A compile failure suspends drawing; the next update clears the error
    // state before recompilation is even attempted, so a draw is attempted
    // on the very next frame.
    let mut state = RenderState::new(shader("bad"));
    state.record_compile_failure();
    assert!(!state.should_draw());
    let mut channel = UpdateChannel::new();
    channel.send(WorkerUpdate::NewShader(shader("fixed")));
    state.drain_updates(&mut channel);
    assert!(state.should_draw());
    assert_eq!(state.glsl(), "HfixedF");
}

#[test]
fn frame_pacing_at_sixty_fps() {
    let state = RenderState::new(shader("s"));
    // A frame that took 5,000 µs leaves the rest of the 1e6/60 µs budget.
    assert_eq!(state.sleep_us(5_000), 1_000_000 / 60 - 5_000);
    assert_eq!(state.sleep_us(5_000), 11_666);
}

#[test]
fn frame_over_budget_sleeps_nothing() {
    let state = RenderState::new(shader("s"));
    assert_eq!(state.sleep_us(16_666), 0);
    assert_eq!(state.sleep_us(1_000_000), 0);
}

#[test]
fn frame_counter_counts() {
    let mut state = RenderState::new(shader("s"));
    assert_eq!(state.frame_index(), 0);
    state.next_frame();
    state.next_frame();
    assert_eq!(state.frame_index(), 2);
}

#[test]
fn pointer_latches_only_while_pressed() {
    let mut state = RenderState::new(shader("s"));
    state.on_cursor_moved(10, 20);
    assert_eq!(state.pointer_position(), (0, 0));
    state.on_mouse_input(true);
    state.on_cursor_moved(10, 20);
    assert_eq!(state.pointer_position(), (10, 20));
    state.on_mouse_input(false);
    state.on_cursor_moved(99, 99);
    assert_eq!(state.pointer_position(), (10, 20));
}

#[test]
fn rate_estimate_moves_a_tenth_of_the_way() {
    let mut state = RenderState::new(shader("s"));
    assert_eq!(state.frame_rate_mfps(), 60_000);
    state.update_frame_rate(50_000);
    assert_eq!(state.frame_rate_mfps(), 59_000);
    state.update_frame_rate(69_000);
    assert_eq!(state.frame_rate_mfps(), 60_000);
    state.update_frame_rate(60_000);
    assert_eq!(state.frame_rate_mfps(), 60_000);
}
