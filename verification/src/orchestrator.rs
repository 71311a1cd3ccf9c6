//! The frame orchestrator: the lifecycle of the host, and what the host does
//! for each platform event.
//!
//! The host owns the window and the GPU objects. It tells the orchestrator
//! what happened and carries out what the orchestrator answers.

use crate::graphics::{AdapterRequest, ScenePass, ScenePipeline};
use crate::overlay::{
    held_after, lemma_overlay_order, overlay_plan, plan_overlay, OverlaySetup, OverlayStep,
    TextureCache, TextureId, TexturesDelta,
};
use crate::surface::{
    AcquireFailure, ConfigureError, Extent, SurfaceConfig, SurfaceUsage, FRAME_LATENCY,
};
use vstd::prelude::*;

verus! {

/// Title of the window that the host opens.
pub const WINDOW_TITLE: &'static str = "Tiny WINIT WGPU EGUI app";

/// Width of the window that the host opens.
pub const INITIAL_WIDTH: u32 = 800;

/// Height of the window that the host opens.
pub const INITIAL_HEIGHT: u32 = 600;

/// A platform event for the host's window, as far as the orchestrator tells
/// events apart.
#[derive(Clone, Copy, Debug, PartialEq, Eq, Structural)]
pub enum WindowEvent {
    /// The user asked for the window to be closed.
    CloseRequested,
    /// The client area of the window has a new size.
    Resized(Extent),
    /// The window has to be drawn.
    RedrawRequested,
    /// Any other event.
    Other,
}

/// What the host does after a window event.
#[derive(Clone, Copy, Debug, PartialEq, Eq)]
pub enum Action {
    /// Nothing.
    Ignore,
    /// Stop the event loop.
    Exit,
    /// Submit the configuration to the presentation backend.
    Reconfigure(SurfaceConfig),
    /// Acquire a frame and report with `begin_frame`.
    Redraw,
}

/// What the host does when the platform signals that it may create windows.
#[derive(Clone, Copy, Debug, PartialEq, Eq, Structural)]
pub enum ResumeAction {
    /// Open a window of this size, bind a surface to it, open a device on an
    /// adapter that meets the request, and report with `activate`.
    CreateResources { window: Extent, adapter: AdapterRequest },
    /// Nothing: the resources exist already, or the host is shutting down.
    Ignore,
}

/// Why the host did not become active.
#[derive(Clone, Copy, Debug, PartialEq, Eq, Structural)]
pub enum StartupError {
    /// The host was active before, or is shutting down.
    AlreadyStarted,
    /// The surface cannot present with the adapter.
    Surface(ConfigureError),
}

/// What the host does with the outcome of a frame acquisition.
#[derive(Clone, Copy, Debug, PartialEq, Eq, Structural)]
pub enum FrameDecision {
    /// Record the scene pass, run the UI pass, and report with
    /// `finish_frame`.
    Render(ScenePass),
    /// Drop the frame: submit and present nothing.
    Skip,
    /// Terminate: the failure cannot be recovered from.
    Abort(AcquireFailure),
}

/// One action of the second half of a frame, after the UI pass has run.
#[derive(Clone, Copy, Debug, PartialEq, Eq, Structural)]
pub enum FrameStep {
    /// An action of the overlay pass.
    Overlay(OverlayStep),
    /// Submit the recorded commands to the queue.
    Submit,
    /// Present the frame.
    Present,
    /// Ask the platform for the next redraw.
    RequestRedraw,
    /// Stop the event loop.
    Exit,
}

/// What an active host holds.
pub struct SessionModel {
    pub surface: SurfaceConfig,
    pub pipeline: ScenePipeline,
    pub textures: Set<TextureId>,
}

impl SessionModel {
    /// What the host holds right after it became active.
    pub open spec fn fresh(surface: SurfaceConfig) -> SessionModel {
        SessionModel {
            surface,
            pipeline: ScenePipeline::scene(surface.format),
            textures: Set::<TextureId>::empty(),
        }
    }

    /// The pipeline is the scene pipeline for the surface's format, and the
    /// surface is a render target with the fixed frame latency.
    pub open spec fn consistent(self) -> bool {
        &&& self.pipeline == ScenePipeline::scene(self.surface.format)
        &&& self.surface.usage == SurfaceUsage::render_target()
        &&& self.surface.frame_latency == FRAME_LATENCY
    }
}

/// The lifecycle of the host.
pub enum Lifecycle {
    /// No window or GPU object exists.
    Uninitialized,
    /// All of them exist.
    Active(SessionModel),
    /// The host is shutting down. Nothing is dispatched any more.
    Terminated,
}

/// The frame steps that follow the overlay pass.
pub open spec fn closing_steps(exit_requested: bool) -> Seq<FrameStep> {
    if exit_requested {
        seq![FrameStep::Submit, FrameStep::Present, FrameStep::RequestRedraw, FrameStep::Exit]
    } else {
        seq![FrameStep::Submit, FrameStep::Present, FrameStep::RequestRedraw]
    }
}

/// The second half of a frame: the overlay pass, then submit, present and the
/// request for the next redraw, then the exit where the UI asked for it.
pub open spec fn frame_steps(overlay: Seq<OverlayStep>, exit_requested: bool) -> Seq<FrameStep> {
    overlay.map_values(|step: OverlayStep| FrameStep::Overlay(step)) + closing_steps(
        exit_requested,
    )
}

impl Lifecycle {
    pub open spec fn consistent(self) -> bool {
        self matches Lifecycle::Active(session) ==> session.consistent()
    }

    /// The answer to the platform's resume signal.
    pub open spec fn on_resumed(self) -> ResumeAction {
        match self {
            Lifecycle::Uninitialized => ResumeAction::CreateResources {
                window: Extent { width: INITIAL_WIDTH, height: INITIAL_HEIGHT },
                adapter: AdapterRequest::preferred(),
            },
            _ => ResumeAction::Ignore,
        }
    }

    /// The resume transition, given the configuration of the new surface or
    /// the reason why it has none.
    pub open spec fn activate(self, configured: Result<SurfaceConfig, ConfigureError>) -> (
        Lifecycle,
        Result<SurfaceConfig, StartupError>,
    ) {
        match self {
            Lifecycle::Uninitialized => match configured {
                Ok(surface) => (Lifecycle::Active(SessionModel::fresh(surface)), Ok(surface)),
                Err(e) => (Lifecycle::Terminated, Err(StartupError::Surface(e))),
            },
            _ => (self, Err(StartupError::AlreadyStarted)),
        }
    }

    /// The transition for a window event that the overlay did or did not
    /// consume.
    pub open spec fn on_window_event(self, event: WindowEvent, consumed: bool) -> (
        Lifecycle,
        Action,
    ) {
        match self {
            Lifecycle::Active(session) => if consumed {
                (self, Action::Ignore)
            } else {
                match event {
                    WindowEvent::CloseRequested => (Lifecycle::Terminated, Action::Exit),
                    WindowEvent::Resized(size) => {
                        let surface = session.surface.resized(size.width, size.height);
                        (
                            Lifecycle::Active(SessionModel { surface, ..session }),
                            Action::Reconfigure(surface),
                        )
                    },
                    WindowEvent::RedrawRequested => (self, Action::Redraw),
                    WindowEvent::Other => (self, Action::Ignore),
                }
            },
            _ => (self, Action::Ignore),
        }
    }

    /// The transition for the outcome of a frame acquisition.
    pub open spec fn begin_frame(self, acquired: Result<(), AcquireFailure>) -> (
        Lifecycle,
        FrameDecision,
    ) {
        match self {
            Lifecycle::Active(session) => match acquired {
                Ok(_) => (self, FrameDecision::Render(ScenePass::over(session.surface.extent()))),
                Err(failure) => if failure.recoverable() {
                    (self, FrameDecision::Skip)
                } else {
                    (Lifecycle::Terminated, FrameDecision::Abort(failure))
                },
            },
            _ => (self, FrameDecision::Skip),
        }
    }

    /// The transition for the end of a frame's UI pass, which asked for the
    /// texture changes `set` and `free` and may have asked for the exit.
    pub open spec fn finish_frame(
        self,
        set: Seq<TextureId>,
        free: Seq<TextureId>,
        exit_requested: bool,
    ) -> (Lifecycle, Seq<FrameStep>) {
        match self {
            Lifecycle::Active(session) => {
                let overlay = overlay_plan(set, free, session.surface.extent());
                let textures = held_after(session.textures, overlay);
                (
                    if exit_requested {
                        Lifecycle::Terminated
                    } else {
                        Lifecycle::Active(SessionModel { textures, ..session })
                    },
                    frame_steps(overlay, exit_requested),
                )
            },
            _ => (self, Seq::<FrameStep>::empty()),
        }
    }
}

/// The window, GPU and overlay state of an active host.
#[derive(Debug)]
pub struct Session {
    surface: SurfaceConfig,
    pipeline: ScenePipeline,
    textures: TextureCache,
}

impl View for Session {
    type V = SessionModel;

    closed spec fn view(&self) -> SessionModel {
        SessionModel { surface: self.surface, pipeline: self.pipeline, textures: self.textures@ }
    }
}

impl Session {
    #[verifier::type_invariant]
    spec fn consistent(self) -> bool {
        self@.consistent()
    }

    /// The configuration that the surface was last given.
    pub fn surface(&self) -> (surface: SurfaceConfig)
        ensures
            surface == self@.surface,
            self@.consistent(),
    {
        proof {
            use_type_invariant(self);
        }
        self.surface
    }

    /// The pipeline of the scene pass.
    pub fn pipeline(&self) -> (pipeline: ScenePipeline)
        ensures
            pipeline == self@.pipeline,
            self@.consistent(),
    {
        proof {
            use_type_invariant(self);
        }
        self.pipeline
    }

    /// How the overlay's renderer is set up.
    pub fn overlay(&self) -> (setup: OverlaySetup)
        ensures
            setup == OverlaySetup::for_format(self@.surface.format),
    {
        OverlaySetup::new(self.surface.format)
    }

    /// Whether the render side holds the texture.
    pub fn holds_texture(&self, id: TextureId) -> (b: bool)
        ensures
            b == self@.textures.contains(id),
    {
        self.textures.contains(id)
    }
}

/// The application state: nothing before the platform's resume signal, all
/// resources after it, nothing again once the host shuts down.
#[derive(Debug)]
pub enum App {
    Uninitialized,
    Active(Session),
    Terminated,
}

impl View for App {
    type V = Lifecycle;

    open spec fn view(&self) -> Lifecycle {
        match self {
            App::Uninitialized => Lifecycle::Uninitialized,
            App::Active(session) => Lifecycle::Active(session@),
            App::Terminated => Lifecycle::Terminated,
        }
    }
}

impl App {
    /// The state of a host that has created nothing yet.
    pub fn new() -> (app: App)
        ensures
            app@ == Lifecycle::Uninitialized,
    {
        App::Uninitialized
    }

    /// Whether the resources exist. The host offers window events to the
    /// overlay only while they do.
    pub fn is_active(&self) -> (b: bool)
        ensures
            b == (self@ is Active),
    {
        match self {
            App::Active(_) => true,
            _ => false,
        }
    }

    /// The resources of an active host.
    pub fn session(&self) -> (r: Option<&Session>)
        ensures
            self@ is Active <==> r is Some,
            r matches Some(session) ==> self@ == Lifecycle::Active(session@) && self@.consistent(),
    {
        match self {
            App::Active(session) => {
                proof {
                    use_type_invariant(session);
                }
                Some(session)
            },
            _ => None,
        }
    }

    /// Answers the platform's resume signal. A signal that arrives after the
    /// first one is ignored.
    pub fn on_resumed(&self) -> (action: ResumeAction)
        ensures
            action == self@.on_resumed(),
    {
        match self {
            App::Uninitialized => ResumeAction::CreateResources {
                window: Extent { width: INITIAL_WIDTH, height: INITIAL_HEIGHT },
                adapter: AdapterRequest::new(),
            },
            _ => ResumeAction::Ignore,
        }
    }

    /// Takes the host from uninitialized to active, once it has a window of
    /// the given size and knows what the surface offers with its adapter.
    /// Where the surface cannot present, the host shuts down.
    pub fn activate(
        &mut self,
        width: u32,
        height: u32,
        formats: &Vec<wgpu::TextureFormat>,
        present_modes: &Vec<wgpu::PresentMode>,
        alpha_modes: &Vec<wgpu::CompositeAlphaMode>,
    ) -> (r: Result<SurfaceConfig, StartupError>)
        ensures
            (final(self)@, r) == old(self)@.activate(
                SurfaceConfig::configured(width, height, formats@, present_modes@, alpha_modes@),
            ),
            final(self)@.consistent(),
    {
        match self {
            App::Uninitialized => {},
            App::Active(session) => {
                proof {
                    use_type_invariant(&*session);
                }
                return Err(StartupError::AlreadyStarted);
            },
            App::Terminated => {
                return Err(StartupError::AlreadyStarted);
            },
        }
        match SurfaceConfig::configure(width, height, formats, present_modes, alpha_modes) {
            Ok(surface) => {
                let session = Session {
                    surface,
                    pipeline: ScenePipeline::new(surface.format),
                    textures: TextureCache::new(),
                };
                *self = App::Active(session);
                Ok(surface)
            },
            Err(e) => {
                *self = App::Terminated;
                Err(StartupError::Surface(e))
            },
        }
    }

    /// Handles a window event. `consumed` says whether the overlay, which is
    /// offered every event first, claimed it; where the host is not active
    /// the overlay was not asked, and the value is of no account.
    pub fn on_window_event(&mut self, event: WindowEvent, consumed: bool) -> (action: Action)
        ensures
            (final(self)@, action) == old(self)@.on_window_event(event, consumed),
            final(self)@.consistent(),
    {
        let action = match self {
            App::Active(session) => {
                proof {
                    use_type_invariant(&*session);
                }
                if consumed {
                    Action::Ignore
                } else {
                    match event {
                        WindowEvent::CloseRequested => Action::Exit,
                        WindowEvent::Resized(size) => {
                            let mut surface = session.surface;
                            surface.resize(size.width, size.height);
                            session.surface = surface;
                            Action::Reconfigure(surface)
                        },
                        WindowEvent::RedrawRequested => Action::Redraw,
                        WindowEvent::Other => Action::Ignore,
                    }
                }
            },
            _ => Action::Ignore,
        };
        if let Action::Exit = action {
            *self = App::Terminated;
        }
        action
    }

    /// Decides what becomes of a frame once the host has tried to acquire it.
    /// A surface that is outdated or lost costs this frame only; any other
    /// failure shuts the host down.
    pub fn begin_frame(&mut self, acquired: Result<(), AcquireFailure>) -> (decision:
        FrameDecision)
        ensures
            (final(self)@, decision) == old(self)@.begin_frame(acquired),
            final(self)@.consistent(),
    {
        let decision = match self {
            App::Active(session) => {
                proof {
                    use_type_invariant(&*session);
                }
                match acquired {
                    Ok(_) => FrameDecision::Render(ScenePass::new(session.surface.size())),
                    Err(failure) => if failure.is_recoverable() {
                        FrameDecision::Skip
                    } else {
                        FrameDecision::Abort(failure)
                    },
                }
            },
            _ => FrameDecision::Skip,
        };
        if let FrameDecision::Abort(_) = decision {
            *self = App::Terminated;
        }
        decision
    }

    /// Lays out the rest of a frame once its UI pass has run: the overlay pass
    /// for the texture changes that the UI asked for, then submit, present and
    /// the request for the next redraw, and last the exit where the UI asked
    /// for it. Where the host is not active there is nothing to do.
    pub fn finish_frame(&mut self, delta: &TexturesDelta, exit_requested: bool) -> (steps: Vec<
        FrameStep,
    >)
        ensures
            (final(self)@, steps@) == old(self)@.finish_frame(
                delta.set@,
                delta.free@,
                exit_requested,
            ),
            final(self)@.consistent(),
    {
        let mut steps: Vec<FrameStep> = Vec::new();
        match self {
            App::Active(session) => {
                proof {
                    use_type_invariant(&*session);
                }
                let mut textures = TextureCache::new();
                std::mem::swap(&mut textures, &mut session.textures);
                let overlay = plan_overlay(&mut textures, delta, session.surface.size());
                session.textures = textures;
                let ghost wrapped = overlay@.map_values(|step: OverlayStep| FrameStep::Overlay(step));
                let n: usize = overlay.len();
                let mut i: usize = 0;
                while i < n
                    invariant
                        n == overlay@.len(),
                        i <= n,
                        wrapped == overlay@.map_values(
                            |step: OverlayStep| FrameStep::Overlay(step),
                        ),
                        steps@ == wrapped.take(i as int),
                    decreases n - i,
                {
                    steps.push(FrameStep::Overlay(overlay[i]));
                    assert(steps@ =~= wrapped.take(i + 1));
                    i = i + 1;
                }
                assert(steps@ =~= wrapped);
                steps.push(FrameStep::Submit);
                steps.push(FrameStep::Present);
                steps.push(FrameStep::RequestRedraw);
                if exit_requested {
                    steps.push(FrameStep::Exit);
                }
                assert(steps@ =~= frame_steps(overlay@, exit_requested));
            },
            _ => {
                return steps;
            },
        }
        if exit_requested {
            *self = App::Terminated;
        }
        steps
    }
}

impl Lifecycle {
    /// The state after a run of window events, each with the overlay's claim
    /// on it.
    pub open spec fn after_events(self, events: Seq<(WindowEvent, bool)>) -> Lifecycle
        decreases events.len(),
    {
        if events.len() == 0 {
            self
        } else {
            self.after_events(events.drop_last()).on_window_event(
                events.last().0,
                events.last().1,
            ).0
        }
    }

    /// The action that the host takes for event `k` of a run.
    pub open spec fn action_at(self, events: Seq<(WindowEvent, bool)>, k: int) -> Action {
        self.after_events(events.take(k)).on_window_event(events[k].0, events[k].1).1
    }
}

/// A run of resize events that the overlay leaves alone.
pub open spec fn resizes(sizes: Seq<Extent>) -> Seq<(WindowEvent, bool)> {
    sizes.map_values(|size: Extent| (WindowEvent::Resized(size), false))
}

proof fn lemma_after_resizes(session: SessionModel, sizes: Seq<Extent>)
    ensures
        Lifecycle::Active(session).after_events(resizes(sizes)) == Lifecycle::Active(
            SessionModel {
                surface: if sizes.len() == 0 {
                    session.surface
                } else {
                    session.surface.resized(sizes.last().width, sizes.last().height)
                },
                ..session
            },
        ),
    decreases sizes.len(),
{
    if sizes.len() > 0 {
        lemma_after_resizes(session, sizes.drop_last());
        assert(resizes(sizes).drop_last() =~= resizes(sizes.drop_last()));
    }
}

/// While the host is active, after any run of resize events the surface has
/// the dimensions of the last one and is otherwise as it was; the backend was
/// last given exactly that configuration, and a frame acquired next is drawn
/// at exactly that size.
pub proof fn lemma_last_resize_wins(session: SessionModel, sizes: Seq<Extent>)
    requires
        sizes.len() > 0,
    ensures
        ({
            let start = Lifecycle::Active(session);
            let after = start.after_events(resizes(sizes));
            let surface = session.surface.resized(sizes.last().width, sizes.last().height);
            &&& after == Lifecycle::Active(SessionModel { surface, ..session })
            &&& surface.extent() == sizes.last()
            &&& start.action_at(resizes(sizes), sizes.len() - 1) == Action::Reconfigure(surface)
            &&& after.begin_frame(Ok(())) == (
                after,
                FrameDecision::Render(ScenePass::over(sizes.last())),
            )
        }),
{
    lemma_after_resizes(session, sizes);
    lemma_after_resizes(session, sizes.drop_last());
    assert(resizes(sizes).take(sizes.len() - 1) =~= resizes(sizes.drop_last()));
}

/// An event that the overlay consumed is not interpreted: whatever the event
/// and the state, the state stays and the host does nothing.
pub proof fn lemma_consumed_event_is_dropped(state: Lifecycle, event: WindowEvent)
    ensures
        state.on_window_event(event, true) == (state, Action::Ignore),
{
}

proof fn lemma_inert(state: Lifecycle, events: Seq<(WindowEvent, bool)>)
    requires
        !(state is Active),
    ensures
        state.after_events(events) == state,
        forall|k: int| 0 <= k < events.len() ==> state.action_at(events, k) == Action::Ignore,
    decreases events.len(),
{
    if events.len() > 0 {
        lemma_inert(state, events.drop_last());
    }
    assert forall|k: int| 0 <= k < events.len() implies state.action_at(events, k)
        == Action::Ignore by {
        lemma_inert(state, events.take(k));
    }
}

/// Before the resume signal nothing is done: every window event, frame
/// acquisition and end of a UI pass leaves the host uninitialized and asks
/// for no operation, over any run of events too.
pub proof fn lemma_uninitialized_does_nothing(
    events: Seq<(WindowEvent, bool)>,
    acquired: Result<(), AcquireFailure>,
    set: Seq<TextureId>,
    free: Seq<TextureId>,
    exit_requested: bool,
)
    ensures
        Lifecycle::Uninitialized.after_events(events) == Lifecycle::Uninitialized,
        forall|k: int|
            0 <= k < events.len() ==> Lifecycle::Uninitialized.action_at(events, k)
                == Action::Ignore,
        Lifecycle::Uninitialized.begin_frame(acquired) == (
            Lifecycle::Uninitialized,
            FrameDecision::Skip,
        ),
        Lifecycle::Uninitialized.finish_frame(set, free, exit_requested) == (
            Lifecycle::Uninitialized,
            Seq::<FrameStep>::empty(),
        ),
{
    lemma_inert(Lifecycle::Uninitialized, events);
}

/// A close request that the overlay left alone ends the dispatch: the host
/// answers with the exit, and from then on every window event, frame
/// acquisition, end of a UI pass and resume signal is answered with nothing.
pub proof fn lemma_close_is_terminal(
    session: SessionModel,
    later: Seq<(WindowEvent, bool)>,
    acquired: Result<(), AcquireFailure>,
    set: Seq<TextureId>,
    free: Seq<TextureId>,
    exit_requested: bool,
)
    ensures
        ({
            let (closed, action) = Lifecycle::Active(session).on_window_event(
                WindowEvent::CloseRequested,
                false,
            );
            &&& action == Action::Exit
            &&& closed == Lifecycle::Terminated
            &&& closed.after_events(later) == Lifecycle::Terminated
            &&& forall|k: int| 0 <= k < later.len() ==> closed.action_at(later, k) == Action::Ignore
            &&& closed.begin_frame(acquired) == (Lifecycle::Terminated, FrameDecision::Skip)
            &&& closed.finish_frame(set, free, exit_requested) == (
                Lifecycle::Terminated,
                Seq::<FrameStep>::empty(),
            )
            &&& closed.on_resumed() == ResumeAction::Ignore
        }),
{
    lemma_inert(Lifecycle::Terminated, later);
}

/// Reconfiguring with unchanged dimensions leaves the state as it is: the
/// backend is given the configuration that it has. So a resize event that
/// repeats the one before it changes nothing either.
pub proof fn lemma_reconfigure_is_idempotent(session: SessionModel, size: Extent)
    ensures
        Lifecycle::Active(session).on_window_event(
            WindowEvent::Resized(session.surface.extent()),
            false,
        ) == (Lifecycle::Active(session), Action::Reconfigure(session.surface)),
        ({
            let once = Lifecycle::Active(session).on_window_event(
                WindowEvent::Resized(size),
                false,
            );
            once.0.on_window_event(WindowEvent::Resized(size), false) == once
        }),
{
}

/// The order of the second half of a frame. The overlay pass comes first, in
/// its own order; then the commands are submitted once, the frame is presented
/// once and the next redraw is requested once, in this order; the exit comes
/// last, and only where the UI asked for it.
pub proof fn lemma_frame_order(
    set: Seq<TextureId>,
    free: Seq<TextureId>,
    screen: Extent,
    exit_requested: bool,
)
    ensures
        ({
            let overlay = overlay_plan(set, free, screen);
            let steps = frame_steps(overlay, exit_requested);
            let n = overlay.len() as int;
            &&& steps.len() == n + if exit_requested { 4int } else { 3int }
            &&& forall|k: int| 0 <= k < n ==> #[trigger] steps[k] == FrameStep::Overlay(overlay[k])
            &&& forall|k: int| 0 <= k < steps.len() ==> (#[trigger] steps[k] is Overlay <==> k < n)
            &&& forall|k: int| 0 <= k < steps.len() ==> (#[trigger] steps[k] is Submit <==> k == n)
            &&& forall|k: int|
                0 <= k < steps.len() ==> (#[trigger] steps[k] is Present <==> k == n + 1)
            &&& forall|k: int|
                0 <= k < steps.len() ==> (#[trigger] steps[k] is RequestRedraw <==> k == n + 2)
            &&& forall|k: int| 0 <= k < steps.len() ==> (#[trigger] steps[k] is Exit <==> k == n + 3)
        }),
{
}

/// After a frame the render side holds what it held before and what the
/// frame's delta set, less what the delta freed: no texture that the UI layer
/// released stays behind.
pub proof fn lemma_freed_textures_are_released(
    session: SessionModel,
    set: Seq<TextureId>,
    free: Seq<TextureId>,
)
    ensures
        Lifecycle::Active(session).finish_frame(set, free, false).0 == Lifecycle::Active(
            SessionModel {
                textures: session.textures.union(set.to_set()).difference(free.to_set()),
                ..session
            },
        ),
        forall|id: TextureId|
            free.contains(id) ==> !session.textures.union(set.to_set()).difference(
                free.to_set(),
            ).contains(id),
{
    lemma_overlay_order(session.textures, set, free, session.surface.extent());
}

/// The pixel format of the surface is fixed when the host becomes active, and
/// with it the scene pipeline: no window event and no frame changes either.
pub proof fn lemma_format_is_fixed(
    session: SessionModel,
    event: WindowEvent,
    consumed: bool,
    acquired: Result<(), AcquireFailure>,
    set: Seq<TextureId>,
    free: Seq<TextureId>,
    exit_requested: bool,
)
    requires
        session.consistent(),
    ensures
        ({
            let start = Lifecycle::Active(session);
            let unchanged = |next: Lifecycle|
                next matches Lifecycle::Active(after) ==> after.consistent()
                    && after.surface.format == session.surface.format && after.pipeline
                    == session.pipeline;
            &&& unchanged(start.on_window_event(event, consumed).0)
            &&& unchanged(start.begin_frame(acquired).0)
            &&& unchanged(start.finish_frame(set, free, exit_requested).0)
        }),
{
}

} // verus!
