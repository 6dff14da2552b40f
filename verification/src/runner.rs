//! The render loop's decisions. One tick of the loop is: take in what the
//! window and the file monitor report, reload the fragment program if that
//! was asked for, move the uniforms on by one frame, draw.
//!
//! The caller owns the window, the GPU and the clock. It hands the engine
//! what they report, does what the engine's answer names, and hands back
//! how it went. `P` is the caller's compiled pipeline; `T` is its number
//! type for lengths and places on the drawing surface.

use vstd::prelude::*;
use crate::argvalues::ShaderOrigin;
use crate::clock::Timestamp;
use crate::uniforms::{Pointer, Resolution, Spot, UniformState};
use crate::watch::{MonitorPoll, WatchTarget};

verus! {

/// One of the four texture slots.
#[derive(Clone, Copy, Debug, PartialEq, Eq, Structural)]
pub enum TextureId {
    Zero,
    One,
    Two,
    Three,
}

/// Whether a button is down.
#[derive(Clone, Copy, Debug, PartialEq, Eq, Structural)]
pub enum ElementState {
    Pressed,
    Released,
}

/// A button of the pointer.
#[derive(Clone, Copy, Debug, PartialEq, Eq, Structural)]
pub enum MouseButton {
    Left,
    Right,
    Middle,
    Other,
}

/// A key of the keyboard, as far as the loop tells keys apart.
#[derive(Clone, Copy, Debug, PartialEq, Eq, Structural)]
pub enum Key {
    /// Ends the run.
    Escape,
    /// Asks for the shader to be loaded again.
    F5,
    Other,
}

/// What the window system reports.
#[derive(Clone, Copy, Debug, PartialEq)]
pub enum WindowEvent<T> {
    /// The window is asked to close.
    CloseRequested,
    /// A key was pressed or let go.
    KeyboardInput { key: Key },
    /// The drawing surface has a new size.
    Resized { width: T, height: T },
    /// The pointer is at a new place, `y` counting downward.
    CursorMoved { x: T, y: T },
    /// A button of the pointer went down or up.
    MouseInput { state: ElementState, button: MouseButton },
}

impl<T> WindowEvent<T> {
    /// Whether the report ends the run.
    pub open spec fn stops(self) -> bool {
        self is CloseRequested || self == (WindowEvent::<T>::KeyboardInput { key: Key::Escape })
    }

    /// Whether the report asks for a reload.
    pub open spec fn asks_reload(self) -> bool {
        self == (WindowEvent::<T>::KeyboardInput { key: Key::F5 })
    }

    /// Whether the report is the left button going down.
    pub open spec fn presses(self) -> bool {
        self == (WindowEvent::<T>::MouseInput {
            state: ElementState::Pressed,
            button: MouseButton::Left,
        })
    }
}

/// The state of the pointer's button now and before the last report of a
/// button. Only the left button counts as pressed.
#[derive(Clone, Copy, Debug, PartialEq, Eq, Structural)]
pub struct ButtonTrack {
    pub previous: ElementState,
    pub current: ElementState,
}

/// Where the loop stands.
#[derive(Clone, Copy, Debug, PartialEq, Eq, Structural)]
pub enum Phase {
    /// The live pipeline is drawn frame after frame.
    Running,
    /// A reload was asked for and its outcome is awaited.
    Reloading,
    /// The run has ended.
    Stopped,
}

/// What the caller does next in a tick.
#[derive(Clone, Copy, Debug, PartialEq, Eq, Structural)]
pub enum TickStep {
    /// Leave the loop without drawing.
    Stop,
    /// Load and compile the shader again, report the outcome, then draw.
    Reload,
    /// Draw.
    Draw,
}

/// The engine's answer to what a tick took in.
#[derive(Clone, Copy, Debug, PartialEq, Eq, Structural)]
pub struct TickReport {
    pub step: TickStep,
    /// The file monitor has gone away: from now on only the reload key
    /// reloads. The caller may want to say so.
    pub monitor_lost: bool,
}

/// Why a reload came to nothing, with the diagnostic in words.
#[derive(Debug, PartialEq, Eq)]
pub enum ReloadFailure {
    /// The shader's text could not be had, or uses what is not supported.
    Source(String),
    /// The text did not compile.
    Pipeline(String),
}

/// The state of the render loop.
#[derive(Debug)]
pub struct Engine<P, T> {
    pub phase: Phase,
    /// The one live pipeline.
    pub pipeline: P,
    pub uniforms: UniformState<T>,
    pub buttons: ButtonTrack,
    /// What the file monitor watches, while it is there to watch.
    pub watch: Option<WatchTarget>,
    /// The clock's reading at the last start of the uniforms.
    pub epoch: Timestamp,
}

impl<P, T> Engine<P, T> {
    /// The engine before the first tick.
    pub open spec fn spec_new(
        pipeline: P,
        width: T,
        height: T,
        watch: Option<WatchTarget>,
        start: Timestamp,
    ) -> Engine<P, T> {
        Engine {
            phase: Phase::Running,
            pipeline,
            uniforms: UniformState::spec_new(width, height),
            buttons: ButtonTrack {
                previous: ElementState::Released,
                current: ElementState::Released,
            },
            watch,
            epoch: start,
        }
    }

    /// The engine after one report of the window system. A new size is
    /// taken over. A new place of the pointer is taken over, together with
    /// the height of the surface at that moment. A report of a button moves
    /// the button's state on; the place of the click becomes the pointer's
    /// place where the left button goes down from released, nothing where
    /// the button is then released, and stays otherwise.
    pub open spec fn after_event(self, event: WindowEvent<T>) -> Engine<P, T> {
        match event {
            WindowEvent::CloseRequested => self,
            WindowEvent::KeyboardInput { key } => self,
            WindowEvent::Resized { width, height } => Engine {
                uniforms: UniformState { resolution: Resolution { width, height }, ..self.uniforms },
                ..self
            },
            WindowEvent::CursorMoved { x, y } => Engine {
                uniforms: UniformState {
                    pointer: Pointer {
                        position: Some(Spot { x, y, height: self.uniforms.resolution.height }),
                        ..self.uniforms.pointer
                    },
                    ..self.uniforms
                },
                ..self
            },
            WindowEvent::MouseInput { state, button } => {
                let current = if event.presses() {
                    ElementState::Pressed
                } else {
                    ElementState::Released
                };
                let click_origin = if current is Released {
                    None
                } else if self.buttons.current is Released {
                    self.uniforms.pointer.position
                } else {
                    self.uniforms.pointer.click_origin
                };
                Engine {
                    uniforms: UniformState {
                        pointer: Pointer { click_origin, ..self.uniforms.pointer },
                        ..self.uniforms
                    },
                    buttons: ButtonTrack { previous: self.buttons.current, current },
                    ..self
                }
            },
        }
    }

    /// The engine after a run of reports, taken in order.
    pub open spec fn after_events(self, events: Seq<WindowEvent<T>>) -> Engine<P, T>
        decreases events.len(),
    {
        if events.len() == 0 {
            self
        } else {
            self.after_events(events.drop_last()).after_event(events.last())
        }
    }

    /// The engine with the place of the click set to nothing unless the
    /// button is down.
    pub open spec fn settled(self) -> Engine<P, T> {
        if self.buttons.current is Pressed {
            self
        } else {
            Engine {
                uniforms: UniformState {
                    pointer: Pointer {
                        click_origin: None,
                        ..self.uniforms.pointer
                    },
                    ..self.uniforms
                },
                ..self
            }
        }
    }

    /// Whether the monitor's reports say that the watched file has changed.
    /// With nothing watched, nothing has.
    pub open spec fn file_changed(self, poll: MonitorPoll) -> bool {
        self.watch matches Some(target) && target.changed_by(poll.events@)
    }

    /// Whether a tick that takes in these reports goes on to a reload: a
    /// reload key or a change of the watched file asks for one, and an end
    /// of the run comes first.
    pub open spec fn reload_due(self, events: Seq<WindowEvent<T>>, poll: MonitorPoll) -> bool {
        &&& !any_stops(events)
        &&& any_asks_reload(events) || self.file_changed(poll)
    }

    /// What the caller does next after a tick has taken in these reports.
    pub open spec fn step_for(self, events: Seq<WindowEvent<T>>, poll: MonitorPoll) -> TickStep {
        if any_stops(events) {
            TickStep::Stop
        } else if self.reload_due(events, poll) {
            TickStep::Reload
        } else {
            TickStep::Draw
        }
    }

    /// The engine after a tick has taken in the window's reports and the
    /// monitor's. A monitor that has gone away is watched no longer.
    pub open spec fn begun(self, events: Seq<WindowEvent<T>>, poll: MonitorPoll) -> Engine<P, T> {
        let taken = self.after_events(events).settled();
        Engine {
            phase: match self.step_for(events, poll) {
                TickStep::Stop => Phase::Stopped,
                TickStep::Reload => Phase::Reloading,
                TickStep::Draw => Phase::Running,
            },
            watch: if poll.disconnected {
                None
            } else {
                self.watch
            },
            ..taken
        }
    }

    /// The engine after a reload has ended. A new pipeline takes the place
    /// of the live one, and the uniforms start over at the clock's reading
    /// `now`. A failure changes nothing.
    pub open spec fn reloaded(self, outcome: Result<P, ReloadFailure>, now: Timestamp) -> Engine<
        P,
        T,
    > {
        match outcome {
            Ok(pipeline) => Engine {
                phase: Phase::Running,
                pipeline,
                uniforms: self.uniforms.spec_reset(),
                epoch: now,
                ..self
            },
            Err(_) => Engine { phase: Phase::Running, ..self },
        }
    }

    /// The engine with its uniforms moved on to the frame that is drawn at
    /// the clock's reading `now`.
    pub open spec fn advanced(self, now: Timestamp) -> Engine<P, T> {
        Engine {
            uniforms: self.uniforms.spec_advance(now.spec_since(self.epoch)),
            ..self
        }
    }
}

/// Whether any of the reports ends the run.
pub open spec fn any_stops<T>(events: Seq<WindowEvent<T>>) -> bool {
    exists|i: int| 0 <= i < events.len() && (#[trigger] events[i]).stops()
}

/// Whether any of the reports asks for a reload.
pub open spec fn any_asks_reload<T>(events: Seq<WindowEvent<T>>) -> bool {
    exists|i: int| 0 <= i < events.len() && (#[trigger] events[i]).asks_reload()
}

/// Reports of the window system touch the uniforms and the button only:
/// the phase, the live pipeline, the watch and the start of the clock stay.
pub proof fn lemma_events_keep_the_rest<P, T>(engine: Engine<P, T>, events: Seq<WindowEvent<T>>)
    ensures
        engine.after_events(events).phase == engine.phase,
        engine.after_events(events).pipeline == engine.pipeline,
        engine.after_events(events).watch == engine.watch,
        engine.after_events(events).epoch == engine.epoch,
        engine.after_events(events).uniforms.global_time == engine.uniforms.global_time,
        engine.after_events(events).uniforms.frame_index == engine.uniforms.frame_index,
    decreases events.len(),
{
    if events.len() > 0 {
        lemma_events_keep_the_rest(engine, events.drop_last());
    }
}

/// The size that the last report of a new size names, if there is one.
pub open spec fn last_resize<T>(events: Seq<WindowEvent<T>>) -> Option<Resolution<T>>
    decreases events.len(),
{
    if events.len() == 0 {
        None
    } else {
        match events.last() {
            WindowEvent::Resized { width, height } => Some(Resolution { width, height }),
            _ => last_resize(events.drop_last()),
        }
    }
}

/// Whether somewhere in the run of reports the left button goes down while
/// the engine holds it to be released.
pub open spec fn has_press_edge<P, T>(engine: Engine<P, T>, events: Seq<WindowEvent<T>>) -> bool {
    exists|i: int|
        0 <= i < events.len() && (#[trigger] events[i]).presses() && engine.after_events(
            events.take(i),
        ).buttons.current is Released
}

proof fn lemma_click_origin_after_events<P, T>(engine: Engine<P, T>, events: Seq<WindowEvent<T>>)
    ensures
        engine.after_events(events).uniforms.pointer.click_origin
            != engine.uniforms.pointer.click_origin ==> engine.after_events(
            events,
        ).buttons.current is Released || has_press_edge(engine, events),
    decreases events.len(),
{
    if events.len() > 0 {
        let shorter = events.drop_last();
        let before = engine.after_events(shorter);
        lemma_click_origin_after_events(engine, shorter);
        if has_press_edge(engine, shorter) {
            let i = choose|i: int|
                0 <= i < shorter.len() && (#[trigger] shorter[i]).presses() && engine.after_events(
                    shorter.take(i),
                ).buttons.current is Released;
            assert(events.take(i) == shorter.take(i));
            assert(events[i].presses());
        }
        if events.last().presses() && before.buttons.current is Released {
            assert(events.take(events.len() - 1) == shorter);
            assert(events[events.len() - 1].presses());
        }
    }
}

proof fn lemma_resolution_after_events<P, T>(engine: Engine<P, T>, events: Seq<WindowEvent<T>>)
    ensures
        engine.after_events(events).uniforms.resolution == match last_resize(events) {
            Some(size) => size,
            None => engine.uniforms.resolution,
        },
    decreases events.len(),
{
    if events.len() > 0 {
        lemma_resolution_after_events(engine, events.drop_last());
    }
}

/// After a reload that put a new pipeline in place, that pipeline is the
/// live one, and the next frame drawn has number 0 and the time since the
/// reload.
pub proof fn law_reload_starts_over<P, T>(
    engine: Engine<P, T>,
    pipeline: P,
    reloaded_at: Timestamp,
    drawn_at: Timestamp,
)
    ensures
        engine.reloaded(Ok(pipeline), reloaded_at).pipeline == pipeline,
        engine.reloaded(Ok(pipeline), reloaded_at).uniforms.frame_index == -1,
        engine.reloaded(Ok(pipeline), reloaded_at).uniforms.global_time.millis == 0,
        engine.reloaded(Ok(pipeline), reloaded_at).advanced(drawn_at).uniforms.frame_index == 0,
        engine.reloaded(Ok(pipeline), reloaded_at).advanced(drawn_at).uniforms.global_time
            == drawn_at.spec_since(reloaded_at),
{
}

/// After a reload that failed, the pipeline that was live is still the one
/// that draws, the clock goes on from where it started, and the next frame
/// has the number after the last one: nothing starts over.
pub proof fn law_failed_reload_keeps_on<P, T>(
    engine: Engine<P, T>,
    failure: ReloadFailure,
    failed_at: Timestamp,
    drawn_at: Timestamp,
)
    requires
        engine.uniforms.frame_index < i32::MAX,
    ensures
        engine.reloaded(Err(failure), failed_at).pipeline == engine.pipeline,
        engine.reloaded(Err(failure), failed_at).uniforms == engine.uniforms,
        engine.reloaded(Err(failure), failed_at).epoch == engine.epoch,
        engine.reloaded(Err(failure), failed_at).advanced(drawn_at).pipeline == engine.pipeline,
        engine.reloaded(Err(failure), failed_at).advanced(drawn_at).uniforms.frame_index
            == engine.uniforms.frame_index + 1,
        engine.reloaded(Err(failure), failed_at).advanced(drawn_at).uniforms.global_time
            == drawn_at.spec_since(engine.epoch),
{
}

/// The first half of a tick leaves no place of a click unless the button is
/// down, and changes the place of the click only where the button is not
/// down afterwards or where it went down from released on the way.
pub proof fn law_click_origin<P, T>(
    engine: Engine<P, T>,
    events: Seq<WindowEvent<T>>,
    poll: MonitorPoll,
)
    ensures
        engine.begun(events, poll).buttons.current is Released ==> engine.begun(
            events,
            poll,
        ).uniforms.pointer.click_origin is None,
        engine.begun(events, poll).uniforms.pointer.click_origin
            != engine.uniforms.pointer.click_origin ==> engine.begun(
            events,
            poll,
        ).buttons.current is Released || has_press_edge(engine, events),
{
    lemma_click_origin_after_events(engine, events);
}

/// The frame drawn at the end of a tick has the size that the last report
/// of a new size named, in this tick or before it.
pub proof fn law_resolution_is_last_resize<P, T>(
    engine: Engine<P, T>,
    events: Seq<WindowEvent<T>>,
    poll: MonitorPoll,
    drawn_at: Timestamp,
)
    ensures
        engine.begun(events, poll).advanced(drawn_at).uniforms.resolution == match last_resize(
            events,
        ) {
            Some(size) => size,
            None => engine.uniforms.resolution,
        },
{
    lemma_resolution_after_events(engine, events);
}

/// The first half of a tick never touches the live pipeline, the number of
/// the frame or the start of the clock; and with no reload key, no end of
/// the run and no change of the watched file among what it takes in, it
/// goes on to draw.
pub proof fn law_tick_keeps_pipeline<P, T>(
    engine: Engine<P, T>,
    events: Seq<WindowEvent<T>>,
    poll: MonitorPoll,
)
    ensures
        engine.begun(events, poll).pipeline == engine.pipeline,
        engine.begun(events, poll).epoch == engine.epoch,
        engine.begun(events, poll).uniforms.frame_index == engine.uniforms.frame_index,
        engine.begun(events, poll).uniforms.global_time == engine.uniforms.global_time,
        !any_stops(events) && !any_asks_reload(events) && !engine.file_changed(poll)
            ==> engine.step_for(events, poll) == TickStep::Draw,
        engine.watch is None && !any_asks_reload(events) ==> engine.step_for(events, poll)
            != TickStep::Reload,
        engine.begun(events, poll).watch is Some ==> engine.begun(events, poll).watch
            == engine.watch,
{
    lemma_events_keep_the_rest(engine, events);
}

/// The line that reports a reload that came to nothing.
pub open spec fn failure_line(failure: ReloadFailure) -> Seq<char> {
    match failure {
        ReloadFailure::Source(diagnostic) => "Failed to load fragment shader: "@ + diagnostic@,
        ReloadFailure::Pipeline(diagnostic) => "Failed to create pipeline: "@ + diagnostic@,
    }
}

impl<P, T: Copy> Engine<P, T> {
    /// Starts an engine on its first pipeline, with a surface of the given
    /// size, at the clock's reading `start`.
    pub fn new(pipeline: P, width: T, height: T, watch: Option<WatchTarget>, start: Timestamp) -> (engine:
        Engine<P, T>)
        ensures
            engine == Engine::spec_new(pipeline, width, height, watch, start),
    {
        Engine {
            phase: Phase::Running,
            pipeline,
            uniforms: UniformState::new(width, height),
            buttons: ButtonTrack {
                previous: ElementState::Released,
                current: ElementState::Released,
            },
            watch,
            epoch: start,
        }
    }

    /// Starts an engine for a shader of the given origin. The shader's
    /// file is watched where the shader comes from a file; nothing is
    /// watched for a shader of any other origin.
    pub fn for_origin(
        origin: &ShaderOrigin,
        pipeline: P,
        width: T,
        height: T,
        start: Timestamp,
    ) -> (engine: Engine<P, T>)
        ensures
            engine == Engine::spec_new(pipeline, width, height, engine.watch, start),
            engine.watch is Some ==> origin is File,
    {
        Engine::new(pipeline, width, height, WatchTarget::for_origin(origin), start)
    }

    /// Takes in one report of the window system.
    pub fn apply_event(&mut self, event: &WindowEvent<T>)
        ensures
            *final(self) == old(self).after_event(*event),
    {
        match event {
            WindowEvent::CloseRequested => {},
            WindowEvent::KeyboardInput { key } => {},
            WindowEvent::Resized { width, height } => {
                self.uniforms.resolution = Resolution { width: *width, height: *height };
            },
            WindowEvent::CursorMoved { x, y } => {
                let height = self.uniforms.resolution.height;
                self.uniforms.pointer.position = Some(Spot { x: *x, y: *y, height });
            },
            WindowEvent::MouseInput { state, button } => {
                let pressed = match (state, button) {
                    (ElementState::Pressed, MouseButton::Left) => true,
                    _ => false,
                };
                let previous = self.buttons.current;
                if !pressed {
                    self.uniforms.pointer.click_origin = None;
                    self.buttons = ButtonTrack { previous, current: ElementState::Released };
                } else {
                    match previous {
                        ElementState::Released => {
                            self.uniforms.pointer.click_origin = self.uniforms.pointer.position;
                        },
                        ElementState::Pressed => {},
                    }
                    self.buttons = ButtonTrack { previous, current: ElementState::Pressed };
                }
            },
        }
    }

    /// The first half of a tick: takes in what the window system and the
    /// file monitor have reported since the last tick, and says what the
    /// caller does next.
    pub fn begin_tick(&mut self, events: &Vec<WindowEvent<T>>, poll: &MonitorPoll) -> (report:
        TickReport)
        requires
            old(self).phase is Running,
        ensures
            *final(self) == old(self).begun(events@, *poll),
            report.step == old(self).step_for(events@, *poll),
            report.monitor_lost == (old(self).watch is Some && poll.disconnected),
    {
        let ghost before = *self;
        let mut stop = false;
        let mut reload = false;
        let mut i: usize = 0;
        while i < events.len()
            invariant
                i <= events.len(),
                *self == before.after_events(events@.take(i as int)),
                stop == any_stops(events@.take(i as int)),
                reload == any_asks_reload(events@.take(i as int)),
            decreases events.len() - i,
        {
            let event = &events[i];
            proof {
                let shorter = events@.take(i as int);
                let longer = events@.take(i + 1);
                assert(longer.drop_last() == shorter);
                assert(longer.last() == *event);
                assert(any_stops(longer) == (any_stops(shorter) || event.stops())) by {
                    if any_stops(shorter) {
                        let k = choose|k: int| 0 <= k < shorter.len() && (#[trigger] shorter[k]).stops();
                        assert(longer[k].stops());
                    }
                    if event.stops() {
                        assert(longer[i as int].stops());
                    }
                }
                assert(any_asks_reload(longer) == (any_asks_reload(shorter) || event.asks_reload())) by {
                    if any_asks_reload(shorter) {
                        let k = choose|k: int|
                            0 <= k < shorter.len() && (#[trigger] shorter[k]).asks_reload();
                        assert(longer[k].asks_reload());
                    }
                    if event.asks_reload() {
                        assert(longer[i as int].asks_reload());
                    }
                }
            }
            match event {
                WindowEvent::CloseRequested => {
                    stop = true;
                },
                WindowEvent::KeyboardInput { key } => match key {
                    Key::Escape => {
                        stop = true;
                    },
                    Key::F5 => {
                        reload = true;
                    },
                    Key::Other => {},
                },
                _ => {},
            }
            self.apply_event(event);
            i = i + 1;
        }
        proof {
            assert(events@.take(events.len() as int) == events@);
            lemma_events_keep_the_rest(before, events@);
        }
        match self.buttons.current {
            ElementState::Pressed => {},
            ElementState::Released => {
                self.uniforms.pointer.click_origin = None;
            },
        }
        let changed = match &self.watch {
            Some(target) => target.is_changed_by(&poll.events),
            None => false,
        };
        let monitor_lost = self.watch.is_some() && poll.disconnected;
        if poll.disconnected {
            self.watch = None;
        }
        let step = if stop {
            TickStep::Stop
        } else if reload || changed {
            TickStep::Reload
        } else {
            TickStep::Draw
        };
        self.phase = match step {
            TickStep::Stop => Phase::Stopped,
            TickStep::Reload => Phase::Reloading,
            TickStep::Draw => Phase::Running,
        };
        TickReport { step, monitor_lost }
    }

    /// The end of a reload: the caller reports a new pipeline or a failure.
    /// The answer is the line to log for a failure.
    pub fn finish_reload(&mut self, outcome: Result<P, ReloadFailure>, now: Timestamp) -> (line:
        Option<String>)
        requires
            old(self).phase is Reloading,
        ensures
            *final(self) == old(self).reloaded(outcome, now),
            outcome is Ok ==> line is None,
            outcome matches Err(failure) ==> line is Some && line.unwrap()@ == failure_line(failure),
    {
        self.phase = Phase::Running;
        match outcome {
            Ok(pipeline) => {
                self.pipeline = pipeline;
                self.uniforms.reset();
                self.epoch = now;
                None
            },
            Err(ReloadFailure::Source(diagnostic)) => Some(
                String::from_str("Failed to load fragment shader: ").concat(diagnostic.as_str()),
            ),
            Err(ReloadFailure::Pipeline(diagnostic)) => Some(
                String::from_str("Failed to create pipeline: ").concat(diagnostic.as_str()),
            ),
        }
    }

    /// The second half of a tick: moves the uniforms on by one frame and
    /// hands out the values to draw it with.
    pub fn advance(&mut self, now: Timestamp) -> (frame: UniformState<T>)
        requires
            old(self).phase is Running,
            old(self).uniforms.frame_index < i32::MAX,
        ensures
            *final(self) == old(self).advanced(now),
            frame == final(self).uniforms,
    {
        self.uniforms.advance(now.since(self.epoch));
        self.uniforms
    }
}

} // verus!
