use shadertoy_rs::argvalues::ShaderOrigin;
use shadertoy_rs::clock::{Elapsed, Timestamp};
use shadertoy_rs::runner::{
    ElementState, Engine, Key, MouseButton, Phase, ReloadFailure, TickStep, WindowEvent,
};
use shadertoy_rs::uniforms::{Pointer, Resolution, Spot, UniformState};
use shadertoy_rs::watch::{ChangeEvent, ChangeKind, MonitorPoll, WatchTarget};

fn at_millis(millis: u128) -> Timestamp {
    Timestamp { nanos: millis * 1_000_000 }
}

fn quiet() -> MonitorPoll {
    MonitorPoll { events: Vec::new(), disconnected: false }
}

fn reports(events: Vec<ChangeEvent>) -> MonitorPoll {
    MonitorPoll { events, disconnected: false }
}

fn watched() -> Option<WatchTarget> {
    Some(WatchTarget { directory: String::from("shaders"), basename: String::from("wave.frag") })
}

fn change(kind: ChangeKind, name: &str) -> ChangeEvent {
    ChangeEvent { kind, file_name: Some(String::from(name)) }
}

fn engine() -> Engine<&'static str, f32> {
    Engine::new("first", 600.0, 400.0, None, at_millis(0))
}

fn press() -> WindowEvent<f32> {
    WindowEvent::MouseInput { state: ElementState::Pressed, button: MouseButton::Left }
}

fn release() -> WindowEvent<f32> {
    WindowEvent::MouseInput { state: ElementState::Released, button: MouseButton::Left }
}

#[test]
fn new_engine_runs_and_waits_for_its_first_frame() {
    let e = engine();
    assert_eq!(e.phase, Phase::Running);
    assert_eq!(e.pipeline, "first");
    assert_eq!(e.uniforms.frame_index, -1);
    assert_eq!(e.uniforms.global_time, Elapsed { millis: 0 });
    assert_eq!(e.uniforms.resolution, Resolution { width: 600.0, height: 400.0 });
    assert_eq!(e.uniforms.pointer, Pointer { position: None, click_origin: None });
    assert_eq!(e.buttons.current, ElementState::Released);
    assert_eq!(e.buttons.previous, ElementState::Released);
}

#[test]
fn first_frame_has_index_zero() {
    let mut e = engine();
    let report = e.begin_tick(&Vec::new(), &quiet());
    assert_eq!(report.step, TickStep::Draw);
    assert!(!report.monitor_lost);
    let frame = e.advance(at_millis(16));
    assert_eq!(frame.frame_index, 0);
    assert_eq!(frame.global_time, Elapsed { millis: 16 });
    assert_eq!(e.uniforms, frame);
}

#[test]
fn frame_index_counts_every_frame() {
    let mut e = engine();
    let mut i: i32 = 0;
    while i < 5 {
        e.begin_tick(&Vec::new(), &quiet());
        let frame = e.advance(at_millis(16 * (i as u128 + 1)));
        assert_eq!(frame.frame_index, i);
        i += 1;
    }
    assert_eq!(e.uniforms.global_time, Elapsed { millis: 80 });
}

#[test]
fn successful_reload_starts_frames_at_zero_again() {
    let mut e = engine();
    e.begin_tick(&Vec::new(), &quiet());
    e.advance(at_millis(10));
    e.begin_tick(&Vec::new(), &quiet());
    e.advance(at_millis(20));
    assert_eq!(e.uniforms.frame_index, 1);

    let report = e.begin_tick(&vec![WindowEvent::KeyboardInput { key: Key::F5 }], &quiet());
    assert_eq!(report.step, TickStep::Reload);
    assert_eq!(e.phase, Phase::Reloading);
    let line = e.finish_reload(Ok("second"), at_millis(1000));
    assert_eq!(line, None);
    assert_eq!(e.phase, Phase::Running);
    assert_eq!(e.pipeline, "second");
    assert_eq!(e.uniforms.frame_index, -1);
    assert_eq!(e.uniforms.global_time, Elapsed { millis: 0 });
    assert_eq!(e.epoch, at_millis(1000));

    let frame = e.advance(at_millis(1007));
    assert_eq!(frame.frame_index, 0);
    assert_eq!(frame.global_time, Elapsed { millis: 7 });
}

#[test]
fn successful_reload_puts_the_pointer_back_and_keeps_the_size() {
    let mut e = engine();
    e.begin_tick(
        &vec![
            WindowEvent::Resized { width: 800.0, height: 500.0 },
            WindowEvent::CursorMoved { x: 10.0, y: 20.0 },
            press(),
            WindowEvent::KeyboardInput { key: Key::F5 },
        ],
        &quiet(),
    );
    assert!(e.uniforms.pointer.click_origin.is_some());
    e.finish_reload(Ok("second"), at_millis(5));
    assert_eq!(e.uniforms.pointer, Pointer { position: None, click_origin: None });
    assert_eq!(e.uniforms.resolution, Resolution { width: 800.0, height: 500.0 });
    assert_eq!(e.buttons.current, ElementState::Pressed);
}

#[test]
fn failed_compilation_keeps_the_live_pipeline_and_the_count() {
    let mut e = engine();
    e.begin_tick(&Vec::new(), &quiet());
    e.advance(at_millis(10));
    e.begin_tick(&Vec::new(), &quiet());
    e.advance(at_millis(20));
    let before: UniformState<f32> = e.uniforms;

    let report = e.begin_tick(&vec![WindowEvent::KeyboardInput { key: Key::F5 }], &quiet());
    assert_eq!(report.step, TickStep::Reload);
    let line = e.finish_reload(
        Err(ReloadFailure::Pipeline(String::from("0:12: syntax error"))),
        at_millis(500),
    );
    assert_eq!(line, Some(String::from("Failed to create pipeline: 0:12: syntax error")));
    assert_eq!(e.phase, Phase::Running);
    assert_eq!(e.pipeline, "first");
    assert_eq!(e.uniforms, before);
    assert_eq!(e.epoch, at_millis(0));

    let frame = e.advance(at_millis(530));
    assert_eq!(frame.frame_index, 2);
    assert_eq!(frame.global_time, Elapsed { millis: 530 });
    assert_eq!(e.pipeline, "first");
}

#[test]
fn failed_source_load_is_reported_and_changes_nothing() {
    let mut e = engine();
    e.begin_tick(&vec![WindowEvent::KeyboardInput { key: Key::F5 }], &quiet());
    let line = e.finish_reload(
        Err(ReloadFailure::Source(String::from("Error loading shader a.frag: gone"))),
        at_millis(9),
    );
    assert_eq!(
        line,
        Some(String::from("Failed to load fragment shader: Error loading shader a.frag: gone"))
    );
    assert_eq!(e.pipeline, "first");
    assert_eq!(e.uniforms.frame_index, -1);
    assert_eq!(e.epoch, at_millis(0));
}

#[test]
fn click_origin_is_taken_when_the_button_goes_down() {
    let mut e = engine();
    e.begin_tick(&vec![WindowEvent::CursorMoved { x: 30.0, y: 40.0 }, press()], &quiet());
    let spot = Spot { x: 30.0, y: 40.0, height: 400.0 };
    assert_eq!(e.uniforms.pointer.position, Some(spot));
    assert_eq!(e.uniforms.pointer.click_origin, Some(spot));
    assert_eq!(e.buttons.previous, ElementState::Released);
    assert_eq!(e.buttons.current, ElementState::Pressed);
}

#[test]
fn click_origin_stays_while_the_button_is_held() {
    let mut e = engine();
    e.begin_tick(&vec![WindowEvent::CursorMoved { x: 30.0, y: 40.0 }, press()], &quiet());
    e.advance(at_millis(1));
    e.begin_tick(&vec![WindowEvent::CursorMoved { x: 90.0, y: 95.0 }], &quiet());
    e.advance(at_millis(2));
    assert_eq!(
        e.uniforms.pointer.position,
        Some(Spot { x: 90.0, y: 95.0, height: 400.0 })
    );
    assert_eq!(
        e.uniforms.pointer.click_origin,
        Some(Spot { x: 30.0, y: 40.0, height: 400.0 })
    );
    e.begin_tick(&Vec::new(), &quiet());
    assert_eq!(
        e.uniforms.pointer.click_origin,
        Some(Spot { x: 30.0, y: 40.0, height: 400.0 })
    );
}

#[test]
fn second_press_without_release_keeps_click_origin() {
    let mut e = engine();
    e.begin_tick(&vec![WindowEvent::CursorMoved { x: 1.0, y: 2.0 }, press()], &quiet());
    e.begin_tick(&vec![WindowEvent::CursorMoved { x: 5.0, y: 6.0 }, press()], &quiet());
    assert_eq!(
        e.uniforms.pointer.click_origin,
        Some(Spot { x: 1.0, y: 2.0, height: 400.0 })
    );
    assert_eq!(e.buttons.previous, ElementState::Pressed);
}

#[test]
fn click_origin_is_zero_whenever_the_button_is_up() {
    let mut e = engine();
    e.begin_tick(&vec![WindowEvent::CursorMoved { x: 30.0, y: 40.0 }, press()], &quiet());
    e.begin_tick(&vec![release()], &quiet());
    assert_eq!(e.uniforms.pointer.click_origin, None);
    assert_eq!(
        e.uniforms.pointer.position,
        Some(Spot { x: 30.0, y: 40.0, height: 400.0 })
    );
    e.begin_tick(&vec![WindowEvent::CursorMoved { x: 31.0, y: 41.0 }], &quiet());
    assert_eq!(e.uniforms.pointer.click_origin, None);
}

#[test]
fn press_and_release_within_one_tick_leaves_no_click() {
    let mut e = engine();
    e.begin_tick(
        &vec![WindowEvent::CursorMoved { x: 3.0, y: 4.0 }, press(), release()],
        &quiet(),
    );
    assert_eq!(e.uniforms.pointer.click_origin, None);
    assert_eq!(e.buttons.previous, ElementState::Pressed);
    assert_eq!(e.buttons.current, ElementState::Released);
}

#[test]
fn release_and_press_within_one_tick_takes_the_new_place() {
    let mut e = engine();
    e.begin_tick(&vec![WindowEvent::CursorMoved { x: 3.0, y: 4.0 }, press()], &quiet());
    e.begin_tick(
        &vec![release(), WindowEvent::CursorMoved { x: 7.0, y: 8.0 }, press()],
        &quiet(),
    );
    assert_eq!(
        e.uniforms.pointer.click_origin,
        Some(Spot { x: 7.0, y: 8.0, height: 400.0 })
    );
}

#[test]
fn only_the_left_button_counts_as_pressed() {
    let mut e = engine();
    e.begin_tick(
        &vec![
            WindowEvent::CursorMoved { x: 3.0, y: 4.0 },
            WindowEvent::MouseInput { state: ElementState::Pressed, button: MouseButton::Right },
        ],
        &quiet(),
    );
    assert_eq!(e.buttons.current, ElementState::Released);
    assert_eq!(e.uniforms.pointer.click_origin, None);

    e.begin_tick(&vec![press()], &quiet());
    assert_eq!(e.buttons.current, ElementState::Pressed);
    e.begin_tick(
        &vec![WindowEvent::MouseInput {
            state: ElementState::Pressed,
            button: MouseButton::Middle,
        }],
        &quiet(),
    );
    assert_eq!(e.buttons.current, ElementState::Released);
    assert_eq!(e.uniforms.pointer.click_origin, None);
}

#[test]
fn press_before_any_motion_takes_the_zero_point() {
    let mut e = engine();
    e.begin_tick(&vec![press()], &quiet());
    assert_eq!(e.buttons.current, ElementState::Pressed);
    assert_eq!(e.uniforms.pointer.click_origin, None);
    assert_eq!(e.uniforms.pointer.position, None);
}

#[test]
fn pointer_place_carries_the_height_of_its_moment() {
    let mut e = engine();
    e.begin_tick(
        &vec![
            WindowEvent::CursorMoved { x: 1.0, y: 2.0 },
            WindowEvent::Resized { width: 300.0, height: 200.0 },
        ],
        &quiet(),
    );
    assert_eq!(e.uniforms.pointer.position, Some(Spot { x: 1.0, y: 2.0, height: 400.0 }));
    e.begin_tick(&vec![WindowEvent::CursorMoved { x: 5.0, y: 6.0 }], &quiet());
    assert_eq!(e.uniforms.pointer.position, Some(Spot { x: 5.0, y: 6.0, height: 200.0 }));
}

#[test]
fn resolution_is_that_of_the_last_resize() {
    let mut e = engine();
    let report = e.begin_tick(
        &vec![
            WindowEvent::Resized { width: 800.0, height: 600.0 },
            WindowEvent::CursorMoved { x: 1.0, y: 1.0 },
            WindowEvent::Resized { width: 1024.0, height: 768.0 },
        ],
        &quiet(),
    );
    assert_eq!(report.step, TickStep::Draw);
    let frame = e.advance(at_millis(1));
    assert_eq!(frame.resolution, Resolution { width: 1024.0, height: 768.0 });

    e.begin_tick(&Vec::new(), &quiet());
    let frame = e.advance(at_millis(2));
    assert_eq!(frame.resolution, Resolution { width: 1024.0, height: 768.0 });
    assert_eq!(frame.resolution.width / frame.resolution.height, 1024.0 / 768.0);
}

#[test]
fn resize_alone_asks_for_no_reload() {
    let mut e: Engine<&'static str, f32> = Engine::new("first", 600.0, 400.0, watched(), at_millis(0));
    let report = e.begin_tick(&vec![WindowEvent::Resized { width: 10.0, height: 20.0 }], &quiet());
    assert_eq!(report.step, TickStep::Draw);
    assert_eq!(e.phase, Phase::Running);
    assert_eq!(e.pipeline, "first");
}

#[test]
fn close_request_stops_before_anything_is_drawn() {
    let mut e = engine();
    let report = e.begin_tick(&vec![WindowEvent::CloseRequested], &quiet());
    assert_eq!(report.step, TickStep::Stop);
    assert_eq!(e.phase, Phase::Stopped);
    assert_eq!(e.uniforms.frame_index, -1);
}

#[test]
fn escape_stops_even_when_a_reload_is_asked_for() {
    let mut e: Engine<&'static str, f32> = Engine::new("first", 600.0, 400.0, watched(), at_millis(0));
    let report = e.begin_tick(
        &vec![
            WindowEvent::KeyboardInput { key: Key::F5 },
            WindowEvent::KeyboardInput { key: Key::Escape },
        ],
        &reports(vec![change(ChangeKind::Write, "wave.frag")]),
    );
    assert_eq!(report.step, TickStep::Stop);
    assert_eq!(e.phase, Phase::Stopped);
}

#[test]
fn other_keys_do_nothing() {
    let mut e = engine();
    let report = e.begin_tick(&vec![WindowEvent::KeyboardInput { key: Key::Other }], &quiet());
    assert_eq!(report.step, TickStep::Draw);
    assert_eq!(e.phase, Phase::Running);
}

#[test]
fn change_of_the_watched_file_asks_for_a_reload() {
    let mut e: Engine<&'static str, f32> = Engine::new("first", 600.0, 400.0, watched(), at_millis(0));
    let report = e.begin_tick(&Vec::new(), &reports(vec![change(ChangeKind::Write, "wave.frag")]));
    assert_eq!(report.step, TickStep::Reload);
    assert_eq!(e.phase, Phase::Reloading);
    assert_eq!(e.watch, watched());
}

#[test]
fn write_then_rename_of_the_same_name_is_one_reload() {
    let mut e: Engine<&'static str, f32> = Engine::new("first", 600.0, 400.0, watched(), at_millis(0));
    let report = e.begin_tick(
        &Vec::new(),
        &reports(vec![
            change(ChangeKind::Write, "wave.frag"),
            change(ChangeKind::Rename, "wave.frag"),
        ]),
    );
    assert_eq!(report.step, TickStep::Reload);
    e.finish_reload(Ok("second"), at_millis(3));
    let report = e.begin_tick(&Vec::new(), &quiet());
    assert_eq!(report.step, TickStep::Draw);
    assert_eq!(e.pipeline, "second");
}

#[test]
fn reload_key_and_file_change_together_are_one_reload() {
    let mut e: Engine<&'static str, f32> = Engine::new("first", 600.0, 400.0, watched(), at_millis(0));
    let report = e.begin_tick(
        &vec![WindowEvent::KeyboardInput { key: Key::F5 }],
        &reports(vec![change(ChangeKind::Create, "wave.frag")]),
    );
    assert_eq!(report.step, TickStep::Reload);
}

#[test]
fn changes_of_other_files_and_of_other_kinds_are_passed_over() {
    let mut e: Engine<&'static str, f32> = Engine::new("first", 600.0, 400.0, watched(), at_millis(0));
    let report = e.begin_tick(
        &Vec::new(),
        &reports(vec![
            change(ChangeKind::Write, "other.frag"),
            change(ChangeKind::Other, "wave.frag"),
            ChangeEvent { kind: ChangeKind::Write, file_name: None },
        ]),
    );
    assert_eq!(report.step, TickStep::Draw);
}

#[test]
fn without_a_watch_no_report_reloads() {
    let mut e = engine();
    let report = e.begin_tick(&Vec::new(), &reports(vec![change(ChangeKind::Write, "wave.frag")]));
    assert_eq!(report.step, TickStep::Draw);
    assert!(!report.monitor_lost);
    assert_eq!(e.watch, None);
}

#[test]
fn lost_monitor_is_said_once_and_watched_no_longer() {
    let mut e: Engine<&'static str, f32> = Engine::new("first", 600.0, 400.0, watched(), at_millis(0));
    let gone = MonitorPoll { events: Vec::new(), disconnected: true };
    let report = e.begin_tick(&Vec::new(), &gone);
    assert_eq!(report.step, TickStep::Draw);
    assert!(report.monitor_lost);
    assert_eq!(e.watch, None);

    let late = MonitorPoll {
        events: vec![change(ChangeKind::Write, "wave.frag")],
        disconnected: true,
    };
    let report = e.begin_tick(&Vec::new(), &late);
    assert_eq!(report.step, TickStep::Draw);
    assert!(!report.monitor_lost);

    let report = e.begin_tick(&vec![WindowEvent::KeyboardInput { key: Key::F5 }], &quiet());
    assert_eq!(report.step, TickStep::Reload);
}

#[test]
fn reports_that_came_before_the_monitor_went_still_count() {
    let mut e: Engine<&'static str, f32> = Engine::new("first", 600.0, 400.0, watched(), at_millis(0));
    let last = MonitorPoll {
        events: vec![change(ChangeKind::Rename, "wave.frag")],
        disconnected: true,
    };
    let report = e.begin_tick(&Vec::new(), &last);
    assert_eq!(report.step, TickStep::Reload);
    assert!(report.monitor_lost);
    assert_eq!(e.watch, None);
}

#[test]
fn apply_event_takes_in_one_report() {
    let mut e = engine();
    e.apply_event(&WindowEvent::Resized { width: 1.0, height: 2.0 });
    assert_eq!(e.uniforms.resolution, Resolution { width: 1.0, height: 2.0 });
    e.apply_event(&WindowEvent::CloseRequested);
    assert_eq!(e.phase, Phase::Running);
}

#[test]
fn time_is_cut_to_whole_milliseconds() {
    let start = Timestamp { nanos: 1_700_999_999 };
    let now = Timestamp { nanos: 3_500_000_000 };
    assert_eq!(now.since(start), Elapsed { millis: 1799 });
    assert_eq!(start.since(now), Elapsed { millis: 0 });
    assert_eq!(now.since(now), Elapsed::zero());
    assert_eq!(Timestamp { nanos: 999_999 }.since(Timestamp { nanos: 0 }), Elapsed { millis: 0 });
    assert_eq!(Timestamp { nanos: 1_000_000 }.since(Timestamp { nanos: 0 }), Elapsed { millis: 1 });
}

#[test]
fn uniform_state_resets_time_and_frame_together() {
    let mut s: UniformState<f32> = UniformState::new(4.0, 3.0);
    s.advance(Elapsed { millis: 5 });
    s.advance(Elapsed { millis: 9 });
    s.pointer.position = Some(Spot { x: 1.0, y: 1.0, height: 3.0 });
    assert_eq!(s.frame_index, 1);
    assert_eq!(s.global_time, Elapsed { millis: 9 });
    s.reset();
    assert_eq!(s, UniformState::new(4.0, 3.0));
    assert_eq!(s.frame_index, -1);
    assert_eq!(s.global_time, Elapsed { millis: 0 });
    assert_eq!(s.pointer, Pointer::origin());
}

#[test]
fn engine_for_a_file_watches_the_file() {
    let origin = ShaderOrigin::File(String::from("shaders/wave.frag"));
    let mut e: Engine<&'static str, f32> =
        Engine::for_origin(&origin, "first", 600.0, 400.0, at_millis(0));
    assert_eq!(e.watch, watched());
    assert_eq!(e.phase, Phase::Running);
    assert_eq!(e.uniforms, UniformState::new(600.0, 400.0));
    let report = e.begin_tick(
        &Vec::new(),
        &reports(vec![ChangeEvent::for_path(ChangeKind::Write, "shaders/wave.frag")]),
    );
    assert_eq!(report.step, TickStep::Reload);
}

#[test]
fn engine_for_any_other_origin_watches_nothing() {
    let origins = vec![
        ShaderOrigin::Default,
        ShaderOrigin::Example(String::from("seascape")),
        ShaderOrigin::Remote(String::from("abc123")),
    ];
    for origin in origins {
        let mut e: Engine<&'static str, f32> =
            Engine::for_origin(&origin, "first", 600.0, 400.0, at_millis(0));
        assert_eq!(e.watch, None);
        let report = e.begin_tick(
            &Vec::new(),
            &reports(vec![change(ChangeKind::Write, "seascape"), change(ChangeKind::Write, "abc123")]),
        );
        assert_eq!(report.step, TickStep::Draw);
    }
}
