//! The frame loop: what the demo does on each window event, when the count
//! of sampled points comes back from the GPU and when the frame has been
//! presented. At most one read-back of that count is in flight at any time,
//! and a read-back stays in flight until its frame is presented.
use vstd::prelude::*;
use crate::bytes::{be_word, le_word, try_cast_bytes_to_words};
use crate::dispatch::{
    DispatchSize, calc_radii_dispatch, dispatch_fits_grid, lemma_calc_radii_dispatch_fits,
    spec_calc_radii_dispatch,
};
use crate::draw::{DrawCall, VERTICES_PER_POINT, plot_draw, spec_plot_draw};

verus! {

/// The window events the loop tells apart.
#[derive(Clone, Copy, Debug, PartialEq, Eq, Structural)]
pub enum WindowEvent {
    RedrawRequested,
    CloseRequested,
    Other,
}

/// What the loop reacts to: a window event, the point count read back from
/// the GPU, or the news that the frame drawn from it has been presented.
#[derive(Clone, Copy, Debug, PartialEq, Eq, Structural)]
pub enum FrameEvent {
    Window(WindowEvent),
    PointsLengthRead(u32),
    FramePresented,
}

/// The work the loop asks for, in order.
#[derive(Clone, Copy, Debug, PartialEq, Eq, Structural)]
pub enum FrameAction {
    /// Copy the current webcam frame into the radius pass texture.
    CopyWebcamFrame,
    /// Record the radius pass with this dispatch.
    DispatchRadii(DispatchSize),
    /// Run the Poisson-disk sampler.
    RunSampler,
    /// Copy the point count to its readable buffer and start mapping it.
    BeginPointsLengthReadback,
    /// Unmap the point count buffer.
    Unmap,
    /// Submit an empty batch of commands.
    SubmitEmpty,
    /// Acquire the surface texture and record the plot of the points with
    /// this draw call.
    DrawPoints(DrawCall),
    /// Submit the frame's commands.
    SubmitFrame,
    /// Present the frame.
    Present,
    /// Ask the window for the next redraw.
    RequestRedraw,
    /// Leave the event loop.
    Exit,
}

/// Where the read-back of the point count stands.
#[derive(Clone, Copy, Debug, PartialEq, Eq, Structural)]
pub enum ReadbackPhase {
    /// No read-back is in flight.
    Idle,
    /// The point count buffer is being mapped.
    AwaitingCount,
    /// The count is known and its frame is being drawn and presented.
    Presenting,
}

/// The loop's state: the grid size, and where the read-back stands.
#[derive(Clone, Copy, Debug)]
pub struct FrameState {
    pub dims: [u16; 2],
    pub phase: ReadbackPhase,
}

/// A read-back is in flight from the moment it begins until its frame has
/// been presented.
pub open spec fn is_pending(s: FrameState) -> bool {
    s.phase != ReadbackPhase::Idle
}

/// Why the point count could not be read from the mapped bytes.
#[derive(Clone, Copy, Debug, PartialEq, Eq, Structural)]
pub enum ReadbackError {
    /// The bytes are not a whole number of aligned 32-bit words.
    Unreadable,
    /// There are no bytes.
    Empty,
}

/// The work of a redraw, whatever the state: the webcam frame, the radius
/// pass and the sampler.
pub open spec fn redraw_actions(dims: [u16; 2]) -> Seq<FrameAction> {
    seq![
        FrameAction::CopyWebcamFrame,
        FrameAction::DispatchRadii(spec_calc_radii_dispatch(dims)),
        FrameAction::RunSampler,
    ]
}

/// The work once the point count `n` is known: plot `n` points and present.
pub open spec fn present_actions(n: u32) -> Seq<FrameAction> {
    seq![
        FrameAction::Unmap,
        FrameAction::SubmitEmpty,
        FrameAction::DrawPoints(spec_plot_draw(n)),
        FrameAction::SubmitFrame,
        FrameAction::Present,
    ]
}

/// One step of the loop.
pub open spec fn spec_next(s: FrameState, e: FrameEvent) -> (FrameState, Seq<FrameAction>) {
    match e {
        FrameEvent::Window(WindowEvent::RedrawRequested) => if s.phase == ReadbackPhase::Idle {
            (
                FrameState { phase: ReadbackPhase::AwaitingCount, ..s },
                redraw_actions(s.dims).push(FrameAction::BeginPointsLengthReadback),
            )
        } else {
            (s, redraw_actions(s.dims))
        },
        FrameEvent::Window(WindowEvent::CloseRequested) => (s, seq![FrameAction::Exit]),
        FrameEvent::Window(WindowEvent::Other) => (s, Seq::empty()),
        FrameEvent::PointsLengthRead(n) => if s.phase == ReadbackPhase::AwaitingCount {
            (FrameState { phase: ReadbackPhase::Presenting, ..s }, present_actions(n))
        } else {
            (s, Seq::empty())
        },
        FrameEvent::FramePresented => if s.phase == ReadbackPhase::Presenting {
            (FrameState { phase: ReadbackPhase::Idle, ..s }, seq![FrameAction::RequestRedraw])
        } else {
            (s, Seq::empty())
        },
    }
}

/// The event is one the loop can take in this state: a point count that
/// arrives for a read-back must fit three vertices per point in 32 bits.
pub open spec fn event_allowed(s: FrameState, e: FrameEvent) -> bool {
    match e {
        FrameEvent::PointsLengthRead(n) => s.phase == ReadbackPhase::AwaitingCount
            ==> n <= u32::MAX / VERTICES_PER_POINT,
        _ => true,
    }
}

/// The frame loop of the demo.
pub struct FrameLoop {
    state: FrameState,
}

impl View for FrameLoop {
    type V = FrameState;

    closed spec fn view(&self) -> FrameState {
        self.state
    }
}

impl FrameLoop {
    /// A loop over a grid of size `dims`, with no read-back in flight.
    pub fn new(dims: [u16; 2]) -> (l: FrameLoop)
        ensures
            l@.dims == dims,
            l@.phase == ReadbackPhase::Idle,
    {
        FrameLoop { state: FrameState { dims, phase: ReadbackPhase::Idle } }
    }

    /// The grid size.
    pub fn dims(&self) -> (d: [u16; 2])
        ensures
            d == self@.dims,
    {
        self.state.dims
    }

    /// Where the read-back of the point count stands.
    pub fn phase(&self) -> (p: ReadbackPhase)
        ensures
            p == self@.phase,
    {
        self.state.phase
    }

    /// Whether a read-back of the point count is in flight: it has begun and
    /// its frame has not been presented yet.
    pub fn readback_pending(&self) -> (b: bool)
        ensures
            b == is_pending(self@),
    {
        match self.state.phase {
            ReadbackPhase::Idle => false,
            _ => true,
        }
    }

    /// Takes one event and returns the work to do, in order. A redraw always
    /// copies the webcam frame, runs the radius pass and the sampler; it
    /// starts a read-back of the point count only when none is in flight. The
    /// point count of that read-back gets the points plotted and the frame
    /// presented; the news that the frame was presented ends the read-back
    /// and requests the next redraw. Closing the window exits.
    pub fn handle(&mut self, event: FrameEvent) -> (actions: Vec<FrameAction>)
        requires
            event_allowed(old(self)@, event),
        ensures
            final(self)@ == spec_next(old(self)@, event).0,
            actions@ == spec_next(old(self)@, event).1,
    {
        match event {
            FrameEvent::Window(WindowEvent::RedrawRequested) => {
                let mut actions: Vec<FrameAction> = Vec::new();
                actions.push(FrameAction::CopyWebcamFrame);
                actions.push(FrameAction::DispatchRadii(calc_radii_dispatch(self.state.dims)));
                actions.push(FrameAction::RunSampler);
                match self.state.phase {
                    ReadbackPhase::Idle => {
                        self.state = FrameState { phase: ReadbackPhase::AwaitingCount, ..self.state };
                        actions.push(FrameAction::BeginPointsLengthReadback);
                    },
                    _ => {},
                }
                proof {
                    assert(actions@ =~= spec_next(old(self)@, event).1);
                }
                actions
            },
            FrameEvent::Window(WindowEvent::CloseRequested) => {
                let actions = vec![FrameAction::Exit];
                assert(actions@ =~= spec_next(old(self)@, event).1);
                actions
            },
            FrameEvent::Window(WindowEvent::Other) => {
                let actions: Vec<FrameAction> = Vec::new();
                assert(actions@ =~= spec_next(old(self)@, event).1);
                actions
            },
            FrameEvent::PointsLengthRead(n) => {
                match self.state.phase {
                    ReadbackPhase::AwaitingCount => {
                        self.state = FrameState { phase: ReadbackPhase::Presenting, ..self.state };
                        let actions = vec![
                            FrameAction::Unmap,
                            FrameAction::SubmitEmpty,
                            FrameAction::DrawPoints(plot_draw(n)),
                            FrameAction::SubmitFrame,
                            FrameAction::Present,
                        ];
                        assert(actions@ =~= spec_next(old(self)@, event).1);
                        actions
                    },
                    _ => {
                        let actions: Vec<FrameAction> = Vec::new();
                        assert(actions@ =~= spec_next(old(self)@, event).1);
                        actions
                    },
                }
            },
            FrameEvent::FramePresented => {
                match self.state.phase {
                    ReadbackPhase::Presenting => {
                        self.state = FrameState { phase: ReadbackPhase::Idle, ..self.state };
                        let actions = vec![FrameAction::RequestRedraw];
                        assert(actions@ =~= spec_next(old(self)@, event).1);
                        actions
                    },
                    _ => {
                        let actions: Vec<FrameAction> = Vec::new();
                        assert(actions@ =~= spec_next(old(self)@, event).1);
                        actions
                    },
                }
            },
        }
    }
}

/// The point count held by the words of its buffer: the first word, or
/// `Empty` when there is none.
pub fn first_word(words: &[u32]) -> (r: Result<u32, ReadbackError>)
    ensures
        words@.len() == 0 ==> r == Err::<u32, ReadbackError>(ReadbackError::Empty),
        words@.len() > 0 ==> r == Ok::<u32, ReadbackError>(words@[0]),
{
    if words.len() == 0 {
        Err(ReadbackError::Empty)
    } else {
        Ok(words[0])
    }
}

/// Reads the point count from the mapped bytes of its buffer: the bytes are
/// cast to words, a failed cast is `Unreadable`, and the count is the
/// `first_word` of the words.
pub fn read_points_length(bytes: &[u8]) -> (r: Result<u32, ReadbackError>)
    ensures
        r matches Ok(n) ==> bytes@.len() >= 4 && bytes@.len() % 4 == 0
            && (n as int == le_word(bytes@, 0) || n as int == be_word(bytes@, 0)),
        r == Err::<u32, ReadbackError>(ReadbackError::Empty) ==> bytes@.len() == 0,
        bytes@.len() % 4 != 0 ==> r == Err::<u32, ReadbackError>(ReadbackError::Unreadable),
        bytes@.len() == 0 ==> r is Err,
{
    match try_cast_bytes_to_words(bytes) {
        Err(_) => Err(ReadbackError::Unreadable),
        Ok(words) => first_word(words.as_slice()),
    }
}

/// How many times `a` occurs in `actions`.
pub open spec fn count_of(actions: Seq<FrameAction>, a: FrameAction) -> nat
    decreases actions.len(),
{
    if actions.len() == 0 {
        0
    } else {
        count_of(actions.drop_last(), a) + if actions.last() == a { 1nat } else { 0nat }
    }
}

/// The loop run over a sequence of events: the final state and all the work
/// asked for, in order.
pub open spec fn run(s: FrameState, events: Seq<FrameEvent>) -> (FrameState, Seq<FrameAction>)
    decreases events.len(),
{
    if events.len() == 0 {
        (s, Seq::empty())
    } else {
        let step = spec_next(s, events[0]);
        let rest = run(step.0, events.drop_first());
        (rest.0, step.1 + rest.1)
    }
}

/// 1 when the loop waits for a point count, else 0.
pub open spec fn awaiting_count(s: FrameState) -> nat {
    if s.phase == ReadbackPhase::AwaitingCount { 1 } else { 0 }
}

/// 1 when the loop waits for its frame to be presented, else 0.
pub open spec fn presenting_count(s: FrameState) -> nat {
    if s.phase == ReadbackPhase::Presenting { 1 } else { 0 }
}

proof fn lemma_count_push(s: Seq<FrameAction>, x: FrameAction, a: FrameAction)
    ensures
        count_of(s.push(x), a) == count_of(s, a) + if x == a { 1nat } else { 0nat },
{
    assert(s.push(x).drop_last() =~= s);
}

proof fn lemma_count_add(s: Seq<FrameAction>, t: Seq<FrameAction>, a: FrameAction)
    ensures
        count_of(s + t, a) == count_of(s, a) + count_of(t, a),
    decreases t.len(),
{
    if t.len() == 0 {
        assert(s + t =~= s);
    } else {
        lemma_count_add(s, t.drop_last(), a);
        assert((s + t).drop_last() =~= s + t.drop_last());
    }
}

/// The actions whose counts the balance laws follow.
pub open spec fn is_counted(a: FrameAction) -> bool {
    a == FrameAction::BeginPointsLengthReadback || a == FrameAction::Present
        || a == FrameAction::RequestRedraw
}

proof fn lemma_count_redraw(dims: [u16; 2], a: FrameAction)
    requires
        is_counted(a),
    ensures
        count_of(redraw_actions(dims), a) == 0,
{
    let e = Seq::<FrameAction>::empty();
    let d = FrameAction::DispatchRadii(spec_calc_radii_dispatch(dims));
    lemma_count_push(e, FrameAction::CopyWebcamFrame, a);
    lemma_count_push(e.push(FrameAction::CopyWebcamFrame), d, a);
    lemma_count_push(e.push(FrameAction::CopyWebcamFrame).push(d), FrameAction::RunSampler, a);
    assert(redraw_actions(dims) =~= e.push(FrameAction::CopyWebcamFrame).push(d).push(
        FrameAction::RunSampler,
    ));
}

proof fn lemma_count_present(n: u32, a: FrameAction)
    requires
        is_counted(a),
    ensures
        count_of(present_actions(n), a) == if a == FrameAction::Present { 1nat } else { 0nat },
{
    let s0 = Seq::<FrameAction>::empty();
    let s1 = s0.push(FrameAction::Unmap);
    let s2 = s1.push(FrameAction::SubmitEmpty);
    let s3 = s2.push(FrameAction::DrawPoints(spec_plot_draw(n)));
    let s4 = s3.push(FrameAction::SubmitFrame);
    lemma_count_push(s0, FrameAction::Unmap, a);
    lemma_count_push(s1, FrameAction::SubmitEmpty, a);
    lemma_count_push(s2, FrameAction::DrawPoints(spec_plot_draw(n)), a);
    lemma_count_push(s3, FrameAction::SubmitFrame, a);
    lemma_count_push(s4, FrameAction::Present, a);
    assert(present_actions(n) =~= s4.push(FrameAction::Present));
}

proof fn lemma_count_single(x: FrameAction, a: FrameAction)
    ensures
        count_of(seq![x], a) == if x == a { 1nat } else { 0nat },
{
    lemma_count_push(Seq::empty(), x, a);
    assert(seq![x] =~= Seq::<FrameAction>::empty().push(x));
}

/// One step begins a read-back exactly when it leaves `Idle`, presents
/// exactly when the awaited count arrives, and requests the next redraw
/// exactly when the presented frame returns the loop to `Idle`; it never
/// changes the grid size, and while a read-back is in flight it begins no
/// other and only the news of the presented frame ends it.
pub proof fn lemma_step_balances_readbacks(s: FrameState, e: FrameEvent)
    ensures
        ({
            let (t, acts) = spec_next(s, e);
            &&& count_of(acts, FrameAction::BeginPointsLengthReadback) + awaiting_count(s)
                == count_of(acts, FrameAction::Present) + awaiting_count(t)
            &&& count_of(acts, FrameAction::Present) + presenting_count(s)
                == count_of(acts, FrameAction::RequestRedraw) + presenting_count(t)
            &&& t.dims == s.dims
            &&& is_pending(s) ==> count_of(acts, FrameAction::BeginPointsLengthReadback) == 0
            &&& is_pending(s) && e != FrameEvent::FramePresented ==> is_pending(t)
        }),
{
    let b = FrameAction::BeginPointsLengthReadback;
    let p = FrameAction::Present;
    let q = FrameAction::RequestRedraw;
    match e {
        FrameEvent::Window(WindowEvent::RedrawRequested) => {
            lemma_count_redraw(s.dims, b);
            lemma_count_redraw(s.dims, p);
            lemma_count_redraw(s.dims, q);
            lemma_count_push(redraw_actions(s.dims), b, b);
            lemma_count_push(redraw_actions(s.dims), b, p);
            lemma_count_push(redraw_actions(s.dims), b, q);
        },
        FrameEvent::Window(WindowEvent::CloseRequested) => {
            lemma_count_single(FrameAction::Exit, b);
            lemma_count_single(FrameAction::Exit, p);
            lemma_count_single(FrameAction::Exit, q);
        },
        FrameEvent::Window(WindowEvent::Other) => {},
        FrameEvent::PointsLengthRead(n) => {
            lemma_count_present(n, b);
            lemma_count_present(n, p);
            lemma_count_present(n, q);
        },
        FrameEvent::FramePresented => {
            lemma_count_single(q, b);
            lemma_count_single(q, p);
            lemma_count_single(q, q);
        },
    }
}

/// Over any run, read-backs begun plus the count awaited at the start equal
/// frames presented plus the count awaited at the end; frames presented plus
/// the frame being presented at the start equal redraws requested plus the
/// frame being presented at the end.
pub proof fn lemma_run_balances_readbacks(s: FrameState, events: Seq<FrameEvent>)
    ensures
        ({
            let (t, acts) = run(s, events);
            &&& count_of(acts, FrameAction::BeginPointsLengthReadback) + awaiting_count(s)
                == count_of(acts, FrameAction::Present) + awaiting_count(t)
            &&& count_of(acts, FrameAction::Present) + presenting_count(s)
                == count_of(acts, FrameAction::RequestRedraw) + presenting_count(t)
            &&& t.dims == s.dims
        }),
    decreases events.len(),
{
    if events.len() > 0 {
        let step = spec_next(s, events[0]);
        let rest = run(step.0, events.drop_first());
        lemma_step_balances_readbacks(s, events[0]);
        lemma_run_balances_readbacks(step.0, events.drop_first());
        lemma_count_add(step.1, rest.1, FrameAction::BeginPointsLengthReadback);
        lemma_count_add(step.1, rest.1, FrameAction::Present);
        lemma_count_add(step.1, rest.1, FrameAction::RequestRedraw);
    }
}

/// From a loop with nothing in flight, every sequence of events begins at
/// most one read-back more than it has finished: a read-back of the point
/// count never begins while another is in flight, each one presents its
/// frame at most once, and it stays in flight until that frame has been
/// presented and the next redraw requested.
pub proof fn lemma_at_most_one_readback_in_flight(dims: [u16; 2], events: Seq<FrameEvent>)
    ensures
        ({
            let (t, acts) = run(FrameState { dims, phase: ReadbackPhase::Idle }, events);
            let begun = count_of(acts, FrameAction::BeginPointsLengthReadback);
            let presented = count_of(acts, FrameAction::Present);
            let finished = count_of(acts, FrameAction::RequestRedraw);
            &&& finished <= presented <= begun <= finished + 1
            &&& is_pending(t) <==> begun == finished + 1
            &&& t.phase == ReadbackPhase::AwaitingCount <==> begun == presented + 1
            &&& t.phase == ReadbackPhase::Presenting <==> presented == finished + 1
        }),
{
    lemma_run_balances_readbacks(FrameState { dims, phase: ReadbackPhase::Idle }, events);
}

/// A redraw always copies the webcam frame, runs the radius pass over the
/// whole grid and runs the sampler; a redraw while a read-back is in flight
/// does nothing else and leaves the state as it was.
pub proof fn lemma_redraw_always_samples(s: FrameState)
    ensures
        ({
            let (t, acts) = spec_next(s, FrameEvent::Window(WindowEvent::RedrawRequested));
            &&& acts.subrange(0, 3) == redraw_actions(s.dims)
            &&& is_pending(s) ==> acts == redraw_actions(s.dims) && t == s
            &&& !is_pending(s) ==> t.phase == ReadbackPhase::AwaitingCount
                && acts.last() == FrameAction::BeginPointsLengthReadback
        }),
{
    let acts = spec_next(s, FrameEvent::Window(WindowEvent::RedrawRequested)).1;
    assert(acts.subrange(0, 3) =~= redraw_actions(s.dims));
}

/// The awaited count `n` gets exactly `3 * n` vertices plotted and the frame
/// presented, and the read-back stays in flight; only the news that the frame
/// was presented ends it, and that asks for the next redraw.
pub proof fn lemma_readback_completion_presents(s: FrameState, n: u32)
    requires
        s.phase == ReadbackPhase::AwaitingCount,
        n <= u32::MAX / VERTICES_PER_POINT,
    ensures
        ({
            let (t, acts) = spec_next(s, FrameEvent::PointsLengthRead(n));
            let (u, acts2) = spec_next(t, FrameEvent::FramePresented);
            &&& t.phase == ReadbackPhase::Presenting
            &&& is_pending(t)
            &&& t.dims == s.dims
            &&& acts.contains(FrameAction::DrawPoints(spec_plot_draw(n)))
            &&& spec_plot_draw(n).vertex_end == 3 * n
            &&& acts.last() == FrameAction::Present
            &&& !acts.contains(FrameAction::RequestRedraw)
            &&& u.phase == ReadbackPhase::Idle
            &&& u.dims == s.dims
            &&& acts2 == seq![FrameAction::RequestRedraw]
        }),
{
    let acts = spec_next(s, FrameEvent::PointsLengthRead(n)).1;
    assert(acts[2] == FrameAction::DrawPoints(spec_plot_draw(n)));
    if acts.contains(FrameAction::RequestRedraw) {
        let i = choose|i: int| 0 <= i < acts.len() && acts[i] == FrameAction::RequestRedraw;
        assert(acts[i] != FrameAction::RequestRedraw);
    }
}

/// Once a read-back is in flight, no event but the news that its frame was
/// presented ends it: a run without that news begins no other read-back and
/// leaves the read-back in flight, however many redraws it holds.
pub proof fn lemma_no_readback_until_presented(s: FrameState, events: Seq<FrameEvent>)
    requires
        is_pending(s),
        forall|i: int| 0 <= i < events.len() ==> #[trigger] events[i] != FrameEvent::FramePresented,
    ensures
        count_of(run(s, events).1, FrameAction::BeginPointsLengthReadback) == 0,
        is_pending(run(s, events).0),
    decreases events.len(),
{
    if events.len() > 0 {
        let step = spec_next(s, events[0]);
        let rest = run(step.0, events.drop_first());
        assert(events[0] != FrameEvent::FramePresented);
        lemma_step_balances_readbacks(s, events[0]);
        assert forall|i: int| 0 <= i < events.drop_first().len() implies
            #[trigger] events.drop_first()[i] != FrameEvent::FramePresented by {
            assert(events.drop_first()[i] == events[i + 1]);
        }
        lemma_no_readback_until_presented(step.0, events.drop_first());
        lemma_count_add(step.1, rest.1, FrameAction::BeginPointsLengthReadback);
    }
}

/// Closing the window leaves the loop whatever the state, with nothing else
/// to do and the state unchanged; no other event asks to leave.
pub proof fn lemma_close_always_exits(s: FrameState, e: FrameEvent)
    ensures
        spec_next(s, FrameEvent::Window(WindowEvent::CloseRequested)).1 == seq![FrameAction::Exit],
        spec_next(s, FrameEvent::Window(WindowEvent::CloseRequested)).0 == s,
        spec_next(s, e).1.contains(FrameAction::Exit)
            <==> e == FrameEvent::Window(WindowEvent::CloseRequested),
{
    let acts = spec_next(s, e).1;
    if e == FrameEvent::Window(WindowEvent::CloseRequested) {
        assert(acts[0] == FrameAction::Exit);
    } else {
        assert forall|i: int| 0 <= i < acts.len() implies acts[i] != FrameAction::Exit by {
            match e {
                FrameEvent::Window(WindowEvent::RedrawRequested) => {
                    assert(i < 4);
                },
                FrameEvent::PointsLengthRead(n) => {
                    assert(i < 5);
                },
                _ => {},
            }
        }
    }
}

/// Events that are not for the loop's current phase, and window events
/// other than redraw and close, do nothing and change nothing.
pub proof fn lemma_unawaited_events_do_nothing(s: FrameState, n: u32)
    ensures
        spec_next(s, FrameEvent::Window(WindowEvent::Other)).0 == s,
        spec_next(s, FrameEvent::Window(WindowEvent::Other)).1.len() == 0,
        s.phase != ReadbackPhase::AwaitingCount ==> spec_next(s, FrameEvent::PointsLengthRead(n)).0 == s
            && spec_next(s, FrameEvent::PointsLengthRead(n)).1.len() == 0,
        s.phase != ReadbackPhase::Presenting ==> spec_next(s, FrameEvent::FramePresented).0 == s
            && spec_next(s, FrameEvent::FramePresented).1.len() == 0,
{
}

/// A redraw first copies the webcam frame, then runs the radius pass with a
/// dispatch that covers the loop's grid, then the sampler, and starts a
/// read-back, if any, last.
pub proof fn lemma_redraw_work_in_order(s: FrameState)
    ensures
        ({
            let acts = spec_next(s, FrameEvent::Window(WindowEvent::RedrawRequested)).1;
            &&& acts.len() >= 3
            &&& acts[0] == FrameAction::CopyWebcamFrame
            &&& acts[1] matches FrameAction::DispatchRadii(d) && dispatch_fits_grid(d, s.dims)
            &&& acts[2] == FrameAction::RunSampler
            &&& forall|i: int| 0 <= i < acts.len() - 1
                ==> #[trigger] acts[i] != FrameAction::BeginPointsLengthReadback
        }),
{
    lemma_calc_radii_dispatch_fits(s.dims);
}

/// The awaited count first unmaps its buffer, then plots one triangle per
/// point in one instance, submits the plot and presents it, in that order,
/// presenting last.
pub proof fn lemma_count_work_in_order(s: FrameState, n: u32)
    requires
        s.phase == ReadbackPhase::AwaitingCount,
        n <= u32::MAX / VERTICES_PER_POINT,
    ensures
        ({
            let acts = spec_next(s, FrameEvent::PointsLengthRead(n)).1;
            &&& acts.len() > 0
            &&& acts[0] == FrameAction::Unmap
            &&& acts.last() == FrameAction::Present
            &&& exists|i: int, j: int| #![trigger acts[i], acts[j]] 0 < i < j < acts.len() - 1
                && acts[j] == FrameAction::SubmitFrame
                && (acts[i] matches FrameAction::DrawPoints(d) && d.first_vertex == 0
                    && d.vertex_end == VERTICES_PER_POINT * n && d.first_instance == 0
                    && d.instance_end == 1)
        }),
{
    let acts = spec_next(s, FrameEvent::PointsLengthRead(n)).1;
    assert(acts[2] matches FrameAction::DrawPoints(d) && d.vertex_end == VERTICES_PER_POINT * n);
    assert(acts[3] == FrameAction::SubmitFrame);
}

} // verus!
