//! The renderer: drawable units, the frame clock and the surface size, driven by
//! a state machine that turns each platform event into the actions to perform.
use vstd::prelude::*;

use crate::clock::{lemma_clock_after_ticks, ClockState, FrameClock};
use crate::geometry::{refused, Geometry, GeometryError};
pub use crate::geometry::{Primitive, Vertex};

verus! {

/// Time added per redraw, 0.005 in fixed point.
pub const TIME_DELTA: u64 = 50;

/// Where the renderer stands in its life.
#[derive(Clone, Copy, Debug, PartialEq, Eq, Structural)]
pub enum Phase {
    /// Constructed; the platform has not granted a surface yet.
    Created,
    /// The surface is granted and the first redraw requested.
    Resumed,
    /// Steady state: frames are drawn on request.
    Running,
    /// Closing was requested; the loop is to exit.
    Closing,
    /// The loop has exited.
    Terminated,
}

/// An event handed to the renderer by the platform layer.
#[derive(Clone, Copy, Debug, PartialEq, Eq, Structural)]
pub enum Event {
    /// The platform grants the window and surface.
    Resumed,
    /// The surface has new drawable dimensions.
    Resized { width: u32, height: u32 },
    /// A frame is due.
    RedrawRequested,
    /// The draw call of a unit, asked for by a `Draw` action, has returned.
    DrawFinished { unit: usize, drawn: bool },
    /// The platform is about to wait for more events.
    AboutToWait,
    /// The window is to close.
    CloseRequested,
    /// The GPU context or surface is lost.
    ContextLost,
    /// The event loop has exited.
    Exited,
}

/// What the platform layer is to perform, in order.
#[derive(Clone, Copy, Debug, PartialEq, Eq, Structural)]
pub enum Action {
    /// Ask the platform for another `RedrawRequested`.
    RequestRedraw,
    /// Reconfigure the surface to these dimensions.
    ResizeSurface { width: u32, height: u32 },
    /// Start a frame cleared to the background color.
    Clear,
    /// Draw this unit with its buffers and program, the time uniform set to `time`
    /// (fixed point), then report the outcome with `DrawFinished`.
    Draw { unit: usize, time: u64 },
    /// Log that this unit failed to draw in the current frame.
    ReportDrawFailure { unit: usize },
    /// Present the frame.
    Present,
    /// Leave the event loop.
    Exit,
}

/// A vertex list, a triangle list and the two shader stages that draw them,
/// with a label for diagnostics.
#[derive(Debug)]
pub struct DrawableUnit {
    pub geometry: Geometry,
    pub vertex_src: String,
    pub fragment_src: String,
    pub label: String,
}

/// The state of a renderer, as contracts speak of it.
pub ghost struct RendererState {
    pub title: Seq<char>,
    pub phase: Phase,
    pub width: u32,
    pub height: u32,
    pub clock: ClockState,
    pub units: Seq<DrawableUnit>,
    /// The unit whose draw is awaited, while a frame is being drawn.
    pub frame: Option<usize>,
}

/// Whether the phase still handles window events.
pub open spec fn is_live(p: Phase) -> bool {
    p is Created || p is Resumed || p is Running
}

impl RendererState {
    /// A renderer just constructed: no units, clock at 0, no surface yet.
    pub open spec fn initial(title: Seq<char>) -> RendererState {
        RendererState {
            title,
            phase: Phase::Created,
            width: 0,
            height: 0,
            clock: ClockState::fresh(TIME_DELTA as nat),
            units: seq![],
            frame: None,
        }
    }

    /// Whether a redraw draws a frame now.
    pub open spec fn can_draw(self) -> bool {
        (self.phase is Resumed || self.phase is Running) && self.frame is None
    }

    /// Goes on with the frame from unit `from`: the next unit with something to
    /// draw is drawn, and where none is left the frame is presented.
    pub open spec fn continue_frame(self, from: nat) -> (RendererState, Seq<Action>) {
        match next_drawable(self.units, from) {
            Some(j) => (
                RendererState { frame: Some(j), ..self },
                seq![Action::Draw { unit: j, time: self.clock.time() as u64 }],
            ),
            None => (
                RendererState { frame: None, ..self },
                seq![Action::Present, Action::RequestRedraw],
            ),
        }
    }

    /// The next state and the actions to perform when `e` arrives.
    pub open spec fn transition(self, e: Event) -> (RendererState, Seq<Action>) {
        match e {
            Event::Resumed => if self.phase is Created {
                (RendererState { phase: Phase::Resumed, ..self }, seq![Action::RequestRedraw])
            } else {
                (self, seq![])
            },
            Event::Resized { width, height } => if is_live(self.phase) {
                (
                    RendererState { width, height, ..self },
                    seq![Action::ResizeSurface { width, height }],
                )
            } else {
                (self, seq![])
            },
            Event::RedrawRequested => if self.can_draw() {
                let started = RendererState {
                    phase: Phase::Running,
                    clock: self.clock.ticked(),
                    ..self
                };
                let (next, rest) = started.continue_frame(0);
                (next, seq![Action::Clear] + rest)
            } else {
                (self, seq![])
            },
            Event::DrawFinished { unit, drawn } => if self.frame == Some(unit) {
                let report = if drawn {
                    seq![]
                } else {
                    seq![Action::ReportDrawFailure { unit }]
                };
                let (next, rest) = self.continue_frame((unit + 1) as nat);
                (next, report + rest)
            } else {
                (self, seq![])
            },
            Event::AboutToWait => if self.phase is Running && self.frame is None {
                (self, seq![Action::RequestRedraw])
            } else {
                (self, seq![])
            },
            Event::CloseRequested | Event::ContextLost => if is_live(self.phase) {
                (RendererState { phase: Phase::Closing, frame: None, ..self }, seq![Action::Exit])
            } else {
                (self, seq![])
            },
            Event::Exited => (RendererState { phase: Phase::Terminated, frame: None, ..self }, seq![]),
        }
    }
}

/// Whether a unit has anything to draw: a unit with no indices issues no draw call.
pub open spec fn has_triangles(u: DrawableUnit) -> bool {
    u.geometry.indices@.len() > 0
}

/// The first unit at or after `from` that has anything to draw.
pub open spec fn next_drawable(units: Seq<DrawableUnit>, from: nat) -> Option<usize>
    decreases units.len() - from,
{
    if from >= units.len() {
        None
    } else if has_triangles(units[from as int]) {
        Some(from as usize)
    } else {
        next_drawable(units, from + 1)
    }
}

proof fn lemma_next_drawable(units: Seq<DrawableUnit>, from: nat)
    requires
        units.len() <= usize::MAX,
    ensures
        match next_drawable(units, from) {
            Some(j) => {
                &&& from <= j < units.len()
                &&& has_triangles(units[j as int])
                &&& forall|k: int| from <= k < j ==> !has_triangles(#[trigger] units[k])
            },
            None => forall|k: int| from <= k < units.len() ==> !has_triangles(#[trigger] units[k]),
        },
    decreases units.len() - from,
{
    if from < units.len() && !has_triangles(units[from as int]) {
        lemma_next_drawable(units, from + 1);
    }
}

/// A redraw where no unit has anything to draw (an empty scene, or units whose
/// geometry is empty) clears and presents the frame and issues no draw call.
pub proof fn lemma_empty_frame_draws_nothing(s: RendererState)
    requires
        s.can_draw(),
        s.units.len() <= usize::MAX,
        forall|k: int| 0 <= k < s.units.len() ==> !has_triangles(#[trigger] s.units[k]),
    ensures
        s.transition(Event::RedrawRequested) == (
            RendererState { phase: Phase::Running, clock: s.clock.ticked(), ..s },
            seq![Action::Clear, Action::Present, Action::RequestRedraw],
        ),
{
    lemma_next_drawable(s.units, 0);
    assert(seq![Action::Clear] + seq![Action::Present, Action::RequestRedraw] =~= seq![
        Action::Clear,
        Action::Present,
        Action::RequestRedraw,
    ]);
}

/// A redraw changes the clock only where it draws a frame, by exactly one tick;
/// every other event leaves the clock as it was.
pub proof fn lemma_clock_ticks_once_per_frame(s: RendererState, e: Event)
    ensures
        s.transition(e).0.clock == if e is RedrawRequested && s.can_draw() {
            s.clock.ticked()
        } else {
            s.clock
        },
{
}

/// The state after the events `events`, handed in one by one from `s`.
pub open spec fn run_events(s: RendererState, events: Seq<Event>) -> RendererState
    decreases events.len(),
{
    if events.len() == 0 {
        s
    } else {
        run_events(s, events.drop_last()).transition(events.last()).0
    }
}

/// How many of the events `events`, handed in from `s`, are redraws that draw a
/// frame.
pub open spec fn frames_drawn(s: RendererState, events: Seq<Event>) -> nat
    decreases events.len(),
{
    if events.len() == 0 {
        0
    } else {
        frames_drawn(s, events.drop_last()) + if events.last() is RedrawRequested && run_events(
            s,
            events.drop_last(),
        ).can_draw() {
            1nat
        } else {
            0nat
        }
    }
}

/// Over any run of events the clock takes exactly one tick per frame drawn, so
/// from a fresh clock its time is the number of frames drawn times the delta.
pub proof fn lemma_clock_counts_frames(s: RendererState, events: Seq<Event>)
    ensures
        run_events(s, events).clock == s.clock.ticked_times(frames_drawn(s, events)),
        s.clock == ClockState::fresh(s.clock.delta) && s.clock.delta > 0 ==> run_events(
            s,
            events,
        ).clock.time() == frames_drawn(s, events) * s.clock.delta,
    decreases events.len(),
{
    if events.len() > 0 {
        lemma_clock_counts_frames(s, events.drop_last());
        lemma_clock_ticks_once_per_frame(run_events(s, events.drop_last()), events.last());
    }
    if s.clock == ClockState::fresh(s.clock.delta) && s.clock.delta > 0 {
        lemma_clock_after_ticks(s.clock.delta, frames_drawn(s, events));
    }
}

/// A resize changes the surface dimensions alone: the units with their buffers
/// and programs, the clock, the phase and any frame in progress stay as they were.
pub proof fn lemma_resize_changes_only_surface(s: RendererState, width: u32, height: u32)
    ensures
        ({
            let next = s.transition(Event::Resized { width, height }).0;
            &&& next.units == s.units
            &&& next.clock == s.clock
            &&& next.phase == s.phase
            &&& next.frame == s.frame
            &&& next.title == s.title
            &&& is_live(s.phase) ==> next.width == width && next.height == height
        }),
{
}

/// A failed draw is reported and skipped: the frame goes on with the next unit
/// that has anything to draw, or is presented where none is left, and the
/// renderer keeps running, ready for the next redraw.
pub proof fn lemma_failed_draw_continues(s: RendererState, unit: usize)
    requires
        s.phase is Running,
        s.frame == Some(unit),
        unit < s.units.len(),
    ensures
        ({
            let (next, actions) = s.transition(Event::DrawFinished { unit, drawn: false });
            &&& actions[0] == Action::ReportDrawFailure { unit }
            &&& next.phase is Running
            &&& next.units == s.units
            &&& next.clock == s.clock
            &&& next_drawable(s.units, (unit + 1) as nat) matches Some(j) ==> {
                &&& actions == seq![
                    Action::ReportDrawFailure { unit },
                    Action::Draw { unit: j, time: s.clock.time() as u64 },
                ]
                &&& next.frame == Some(j)
            }
            &&& next_drawable(s.units, (unit + 1) as nat) is None ==> {
                &&& actions == seq![
                    Action::ReportDrawFailure { unit },
                    Action::Present,
                    Action::RequestRedraw,
                ]
                &&& next.can_draw()
            }
        }),
{
    let (next, actions) = s.transition(Event::DrawFinished { unit, drawn: false });
    match next_drawable(s.units, (unit + 1) as nat) {
        Some(j) => {
            assert(actions =~= seq![
                Action::ReportDrawFailure { unit },
                Action::Draw { unit: j, time: s.clock.time() as u64 },
            ]);
        },
        None => {
            assert(actions =~= seq![
                Action::ReportDrawFailure { unit },
                Action::Present,
                Action::RequestRedraw,
            ]);
        },
    }
}

/// The actions for one unit within a frame: its draw, then a report where the
/// draw failed.
pub open spec fn unit_actions(unit: int, drawn: bool, time: u64) -> Seq<Action> {
    seq![Action::Draw { unit: unit as usize, time }] + if drawn {
        seq![]
    } else {
        seq![Action::ReportDrawFailure { unit: unit as usize }]
    }
}

/// The draws of a frame in insertion order, skipping units with nothing to draw;
/// `drawn[k]` is the outcome for unit `k`.
pub open spec fn frame_draws(units: Seq<DrawableUnit>, drawn: Seq<bool>, time: u64) -> Seq<Action>
    decreases drawn.len(),
{
    if drawn.len() == 0 {
        seq![]
    } else {
        frame_draws(units, drawn.drop_last(), time) + if has_triangles(
            units[drawn.len() - 1],
        ) {
            unit_actions(drawn.len() - 1, drawn.last(), time)
        } else {
            seq![]
        }
    }
}

/// The state, and all actions returned, after the draw outcomes `drawn[0]`,
/// `drawn[1]`, ... have been handed in for units `0`, `1`, ...
pub open spec fn after_reports(s: RendererState, drawn: Seq<bool>) -> (RendererState, Seq<Action>)
    decreases drawn.len(),
{
    if drawn.len() == 0 {
        (s, seq![])
    } else {
        let (mid, earlier) = after_reports(s, drawn.drop_last());
        let (next, last) = mid.transition(
            Event::DrawFinished { unit: (drawn.len() - 1) as usize, drawn: drawn.last() },
        );
        (next, earlier + last)
    }
}

#[verifier::rlimit(40)]
proof fn lemma_reports_prefix(s: RendererState, drawn: Seq<bool>, m: nat)
    requires
        s.phase is Running,
        s.frame == next_drawable(s.units, 0),
        drawn.len() == s.units.len() <= usize::MAX,
        m <= drawn.len(),
    ensures
        ({
            let (sm, am) = after_reports(s, drawn.take(m as int));
            let t = s.clock.time() as u64;
            &&& sm == s.continue_frame(m).0
            &&& s.continue_frame(0).1 + am == frame_draws(s.units, drawn.take(m as int), t)
                + s.continue_frame(m).1
        }),
    decreases m,
{
    let t = s.clock.time() as u64;
    if m == 0 {
        assert(drawn.take(0) =~= Seq::<bool>::empty());
        assert(s.continue_frame(0).1 + Seq::<Action>::empty() =~= Seq::<Action>::empty()
            + s.continue_frame(0).1);
    } else {
        let k = (m - 1) as nat;
        lemma_reports_prefix(s, drawn, k);
        lemma_next_drawable(s.units, k);
        assert(drawn.take(m as int).drop_last() =~= drawn.take(k as int));
        assert(drawn.take(m as int).last() == drawn[k as int]);
        let (sk, ak) = after_reports(s, drawn.take(k as int));
        let (sm, b) = sk.transition(Event::DrawFinished { unit: k as usize, drawn: drawn[k as int] });
        if has_triangles(s.units[k as int]) {
            let report = if drawn[k as int] {
                seq![]
            } else {
                seq![Action::ReportDrawFailure { unit: k as usize }]
            };
            assert(b =~= report + s.continue_frame(m).1);
            assert(s.continue_frame(0).1 + (ak + b) =~= frame_draws(
                s.units,
                drawn.take(k as int),
                t,
            ) + seq![Action::Draw { unit: k as usize, time: t }] + report + s.continue_frame(m).1);
            assert(unit_actions(k as int, drawn[k as int], t) =~= seq![
                Action::Draw { unit: k as usize, time: t },
            ] + report);
        } else {
            assert(next_drawable(s.units, k) == next_drawable(s.units, m));
            assert(b =~= Seq::<Action>::empty());
            assert(frame_draws(s.units, drawn.take(m as int), t) =~= frame_draws(
                s.units,
                drawn.take(k as int),
                t,
            ));
            assert(s.continue_frame(0).1 + (ak + b) =~= s.continue_frame(0).1 + ak);
        }
    }
}

/// A redraw followed by one draw outcome per unit draws every unit that has
/// anything to draw exactly once, in insertion order, whichever draws fail; then
/// the frame is presented, the next redraw requested, and the renderer runs on,
/// its clock one tick later.
pub proof fn lemma_frame_draws_every_unit(s: RendererState, drawn: Seq<bool>)
    requires
        s.can_draw(),
        drawn.len() == s.units.len() <= usize::MAX,
    ensures
        ({
            let (s1, a1) = s.transition(Event::RedrawRequested);
            let (s2, a2) = after_reports(s1, drawn);
            let t = s.clock.ticked().time() as u64;
            &&& a1 + a2 == seq![Action::Clear] + frame_draws(s.units, drawn, t) + seq![
                Action::Present,
                Action::RequestRedraw,
            ]
            &&& s2 == (RendererState { phase: Phase::Running, clock: s.clock.ticked(), ..s })
            &&& s2.can_draw()
        }),
{
    let started = RendererState { phase: Phase::Running, clock: s.clock.ticked(), ..s };
    let (s1, a1) = s.transition(Event::RedrawRequested);
    assert(s1 == started.continue_frame(0).0);
    lemma_reports_prefix(s1, drawn, drawn.len());
    assert(drawn.take(drawn.len() as int) =~= drawn);
    assert(s1.continue_frame(drawn.len()) == started.continue_frame(drawn.len()));
    assert(s1.continue_frame(0).1 == started.continue_frame(0).1);
    let a2 = after_reports(s1, drawn).1;
    assert(a1 + a2 =~= seq![Action::Clear] + (started.continue_frame(0).1 + a2));
}

/// The renderer: its drawable units in insertion order, the frame clock, the
/// surface size and the phase of its life.
#[derive(Debug)]
pub struct Renderer {
    title: String,
    phase: Phase,
    width: u32,
    height: u32,
    clock: FrameClock,
    objects: Vec<DrawableUnit>,
    frame: Option<usize>,
}

impl View for Renderer {
    type V = RendererState;

    closed spec fn view(&self) -> RendererState {
        RendererState {
            title: self.title@,
            phase: self.phase,
            width: self.width,
            height: self.height,
            clock: self.clock@,
            units: self.objects@,
            frame: self.frame,
        }
    }
}

impl Renderer {
    /// The clock is well formed, every unit's geometry is valid, and a frame in
    /// progress awaits one of the units while running.
    pub closed spec fn wf(&self) -> bool {
        &&& self.clock.wf()
        &&& self.clock@.delta == TIME_DELTA
        &&& forall|k: int| 0 <= k < self.objects@.len() ==> (#[trigger] self.objects@[k]).geometry.wf()
        &&& (self.frame matches Some(u) ==> u < self.objects@.len() && self.phase is Running)
    }

    /// A renderer for a window of this title, with no units yet.
    pub fn new(title: &str) -> (r: Renderer)
        ensures
            r.wf(),
            r@ == RendererState::initial(title@),
    {
        Renderer {
            title: title.to_owned(),
            phase: Phase::Created,
            width: 0,
            height: 0,
            clock: FrameClock::new(TIME_DELTA),
            objects: Vec::new(),
            frame: None,
        }
    }

    /// Adds a drawable unit: the geometry, the two shader stages that draw it, and
    /// a label (`<unknown>` where none is given). Geometry that fails the checks of
    /// `Geometry::from_parts` is refused with that error.
    pub fn with_objects(
        self,
        vertices: Vec<Vertex>,
        indices: Vec<u32>,
        vertex: &str,
        fragment: &str,
        label: Option<&str>,
    ) -> (r: Result<Renderer, GeometryError>)
        requires
            self.wf(),
        ensures
            match r {
                Ok(next) => {
                    &&& next.wf()
                    &&& next@ == RendererState { units: self@.units.push(next@.units.last()), ..self@ }
                    &&& next@.units.last().geometry.wf()
                    &&& next@.units.last().geometry.vertices@ == vertices@
                    &&& next@.units.last().geometry.indices@ == indices@
                    &&& next@.units.last().vertex_src@ == vertex@
                    &&& next@.units.last().fragment_src@ == fragment@
                    &&& next@.units.last().label@ == match label {
                        Some(l) => l@,
                        None => "<unknown>"@,
                    }
                },
                Err(e) => refused(vertices@, indices@, e),
            },
    {
        let geometry = match Geometry::from_parts(vertices, indices) {
            Ok(g) => g,
            Err(e) => {
                return Err(e);
            },
        };
        let label = match label {
            Some(l) => l.to_owned(),
            None => "<unknown>".to_owned(),
        };
        let unit = DrawableUnit {
            geometry,
            vertex_src: vertex.to_owned(),
            fragment_src: fragment.to_owned(),
            label,
        };
        let mut next = self;
        next.objects.push(unit);
        assert(next.objects@.last() == unit);
        Ok(next)
    }

    /// Handles one event: moves to the next state and returns the actions to
    /// perform, as `RendererState::transition` gives them.
    pub fn step(&mut self, event: Event) -> (actions: Vec<Action>)
        requires
            old(self).wf(),
            event is RedrawRequested ==> old(self)@.clock.time() + old(self)@.clock.delta
                <= u64::MAX,
        ensures
            final(self).wf(),
            (final(self)@, actions@) == old(self)@.transition(event),
    {
        match event {
            Event::Resumed => {
                if self.phase == Phase::Created {
                    self.phase = Phase::Resumed;
                    vec![Action::RequestRedraw]
                } else {
                    vec![]
                }
            },
            Event::Resized { width, height } => {
                if self.is_live() {
                    self.width = width;
                    self.height = height;
                    vec![Action::ResizeSurface { width, height }]
                } else {
                    vec![]
                }
            },
            Event::RedrawRequested => {
                if (self.phase == Phase::Resumed || self.phase == Phase::Running)
                    && self.frame.is_none() {
                    self.clock.tick();
                    self.phase = Phase::Running;
                    let rest = self.continue_frame(0);
                    let mut actions = vec![Action::Clear];
                    let mut rest = rest;
                    actions.append(&mut rest);
                    actions
                } else {
                    vec![]
                }
            },
            Event::DrawFinished { unit, drawn } => {
                if self.frame == Some(unit) {
                    let mut actions: Vec<Action> = Vec::new();
                    if !drawn {
                        actions.push(Action::ReportDrawFailure { unit });
                    }
                    let n = self.objects.len();
                    assert(unit < n);
                    let mut rest = self.continue_frame(unit + 1);
                    actions.append(&mut rest);
                    actions
                } else {
                    vec![]
                }
            },
            Event::AboutToWait => {
                if self.phase == Phase::Running && self.frame.is_none() {
                    vec![Action::RequestRedraw]
                } else {
                    vec![]
                }
            },
            Event::CloseRequested | Event::ContextLost => {
                if self.is_live() {
                    self.phase = Phase::Closing;
                    self.frame = None;
                    vec![Action::Exit]
                } else {
                    vec![]
                }
            },
            Event::Exited => {
                self.phase = Phase::Terminated;
                self.frame = None;
                vec![]
            },
        }
    }

    /// The window title.
    pub fn title(&self) -> (t: &str)
        ensures
            t@ == self@.title,
    {
        self.title.as_str()
    }

    /// Where the renderer stands in its life.
    pub fn phase(&self) -> (p: Phase)
        ensures
            p == self@.phase,
    {
        self.phase
    }

    /// The surface dimensions last given by a resize, `(0, 0)` before any.
    pub fn surface_size(&self) -> (r: (u32, u32))
        ensures
            r == (self@.width, self@.height),
    {
        (self.width, self.height)
    }

    /// The frame clock's time, fixed point.
    pub fn time(&self) -> (t: u64)
        requires
            self.wf(),
        ensures
            t == self@.clock.time(),
    {
        self.clock.time()
    }

    /// The number of frames drawn so far.
    pub fn ticks(&self) -> (t: u64)
        ensures
            t == self@.clock.ticks,
    {
        self.clock.ticks()
    }

    /// Whether the clock can take one more tick, which a redraw needs.
    pub fn can_tick(&self) -> (b: bool)
        requires
            self.wf(),
        ensures
            b == (self@.clock.time() + self@.clock.delta <= u64::MAX),
    {
        self.clock.can_tick()
    }

    /// The drawable units, in insertion order.
    pub fn objects(&self) -> (u: &Vec<DrawableUnit>)
        ensures
            u@ == self@.units,
    {
        &self.objects
    }

    /// Goes on with the frame from unit `from`, as `RendererState::continue_frame`.
    fn continue_frame(&mut self, from: usize) -> (actions: Vec<Action>)
        requires
            old(self).wf(),
            old(self).phase is Running,
            from <= old(self)@.units.len(),
        ensures
            final(self).wf(),
            (final(self)@, actions@) == old(self)@.continue_frame(from as nat),
    {
        let n = self.objects.len();
        proof {
            lemma_next_drawable(self.objects@, from as nat);
        }
        let mut j: usize = from;
        while j < self.objects.len()
            invariant
                *self == *old(self),
                self.wf(),
                self.phase is Running,
                from <= j <= self.objects@.len(),
                next_drawable(self.objects@, from as nat) == next_drawable(
                    self.objects@,
                    j as nat,
                ),
            decreases self.objects@.len() - j,
        {
            if self.objects[j].geometry.indices.len() > 0 {
                self.frame = Some(j);
                return vec![Action::Draw { unit: j, time: self.clock.time() }];
            }
            j = j + 1;
        }
        self.frame = None;
        vec![Action::Present, Action::RequestRedraw]
    }

    fn is_live(&self) -> (b: bool)
        ensures
            b == is_live(self.phase),
    {
        self.phase == Phase::Created || self.phase == Phase::Resumed || self.phase == Phase::Running
    }
}

} // verus!
