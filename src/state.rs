use vstd::prelude::*;

verus! {

/// The lifecycle of an overlay window.
#[derive(Clone, Copy, Debug, PartialEq, Eq, Structural)]
pub enum Phase {
    /// Constructed; the native window is not up yet.
    Created,
    /// The window exists and its loop runs, visible or hidden.
    Rendering,
    /// A quit signal arrived; the loop has ended.
    Destroyed,
}

/// The window messages the overlay reacts to.
#[derive(Clone, Copy, Debug, PartialEq, Eq, Structural)]
pub enum Message {
    /// The window must be repainted.
    Paint,
    /// The display mode changed.
    DisplayChange,
    /// A request to test whether presenting is possible again.
    PresentTest,
    /// The window was activated.
    Activate,
    /// The window is being destroyed.
    Destroy,
    /// The thread's quit signal.
    Quit,
    /// Anything else, left to the default window procedure.
    Other,
}

/// The window message codes the overlay reacts to.
pub const WM_DESTROY: u32 = 0x0002;
pub const WM_ACTIVATE: u32 = 0x0006;
pub const WM_PAINT: u32 = 0x000F;
pub const WM_QUIT: u32 = 0x0012;
pub const WM_DISPLAYCHANGE: u32 = 0x007E;
/// The first application-defined code, used here to ask for a presentation test.
pub const WM_USER: u32 = 0x0400;

/// Which message a window message code stands for.
pub open spec fn spec_message_of(code: u32) -> Message {
    if code == WM_PAINT {
        Message::Paint
    } else if code == WM_DISPLAYCHANGE {
        Message::DisplayChange
    } else if code == WM_USER {
        Message::PresentTest
    } else if code == WM_ACTIVATE {
        Message::Activate
    } else if code == WM_DESTROY {
        Message::Destroy
    } else if code == WM_QUIT {
        Message::Quit
    } else {
        Message::Other
    }
}

impl Message {
    /// Reads a window message code.
    pub fn from_code(code: u32) -> (m: Message)
        ensures
            m == spec_message_of(code),
    {
        if code == WM_PAINT {
            Message::Paint
        } else if code == WM_DISPLAYCHANGE {
            Message::DisplayChange
        } else if code == WM_USER {
            Message::PresentTest
        } else if code == WM_ACTIVATE {
            Message::Activate
        } else if code == WM_DESTROY {
            Message::Destroy
        } else if code == WM_QUIT {
            Message::Quit
        } else {
            Message::Other
        }
    }
}

/// What the window thread must do in answer to a message.
#[derive(Clone, Copy, Debug, PartialEq, Eq, Structural)]
pub enum MessageAction {
    /// Render a frame inside a paint bracket.
    PaintFrame,
    /// Render a frame.
    RenderFrame,
    /// Probe whether the swapchain can present, and report the answer.
    ProbePresent,
    /// Post the quit signal to the thread.
    PostQuit,
    /// Leave the loop.
    Exit,
    /// Hand the message to the default window procedure.
    Default,
    /// Nothing more to do.
    Handled,
}

/// How the loop fetches its next messages.
#[derive(Clone, Copy, Debug, PartialEq, Eq, Structural)]
pub enum PollMode {
    /// Render one frame, then drain all pending messages without blocking.
    RenderThenDrain,
    /// Block until the next message arrives.
    Wait,
    /// The loop is over.
    Stop,
}

/// What presenting a frame reported.
#[derive(Clone, Copy, Debug, PartialEq, Eq, Structural)]
pub enum PresentOutcome {
    /// The frame reached the screen.
    Presented,
    /// The window is fully covered: not an error.
    Occluded,
    /// Any other failure: the device is taken as lost.
    Failed,
}

/// What a render pass must do before it draws.
#[derive(Clone, Copy, Debug, PartialEq, Eq, Structural)]
pub enum RenderStep {
    /// Create the whole device resource bundle, then draw.
    CreateThenDraw,
    /// Draw with the resources already held.
    Draw,
}

/// The abstract state of an overlay: its phase, whether it renders actively,
/// and its device resource bundle, held whole or not at all.
pub struct OverlayView<R> {
    pub phase: Phase,
    pub visible: bool,
    pub resources: Option<R>,
}

/// The state that drives an overlay's render loop. `R` is the bundle of
/// device resources (device, target, swapchain, brush); holding it as one
/// optional value means it is only ever fully present or fully absent.
pub struct OverlayState<R> {
    phase: Phase,
    visible: bool,
    resources: Option<R>,
}

impl<R> View for OverlayState<R> {
    type V = OverlayView<R>;

    closed spec fn view(&self) -> OverlayView<R> {
        OverlayView { phase: self.phase, visible: self.visible, resources: self.resources }
    }
}

/// The state after `msg`, and what the window thread must do.
pub open spec fn message_next<R>(v: OverlayView<R>, msg: Message) -> (OverlayView<R>, MessageAction) {
    if v.phase is Destroyed {
        (v, MessageAction::Default)
    } else {
        match msg {
            Message::Paint => (v, MessageAction::PaintFrame),
            Message::DisplayChange => (v, MessageAction::RenderFrame),
            Message::PresentTest => (v, MessageAction::ProbePresent),
            Message::Activate => (OverlayView { visible: true, ..v }, MessageAction::Handled),
            Message::Destroy => (v, MessageAction::PostQuit),
            Message::Quit => (OverlayView { phase: Phase::Destroyed, ..v }, MessageAction::Exit),
            Message::Other => (v, MessageAction::Default),
        }
    }
}

/// The state after a presentation attempt reported `outcome`.
pub open spec fn present_next<R>(v: OverlayView<R>, outcome: PresentOutcome) -> OverlayView<R> {
    match outcome {
        PresentOutcome::Presented => v,
        PresentOutcome::Occluded => OverlayView { visible: false, ..v },
        PresentOutcome::Failed => OverlayView { resources: None, ..v },
    }
}

/// The state after a presentation probe reported `code`.
pub open spec fn probe_next<R>(v: OverlayView<R>, code: i32) -> OverlayView<R> {
    OverlayView { visible: spec_classify_present(code) == PresentOutcome::Presented, ..v }
}

/// The state after drawing a frame ended with `code`: any failure code
/// (negative) is taken as device loss.
pub open spec fn draw_end_next<R>(v: OverlayView<R>, code: i32) -> OverlayView<R> {
    if code < 0 {
        OverlayView { resources: None, ..v }
    } else {
        v
    }
}

/// How the loop proceeds from state `v`.
pub open spec fn poll_mode_of<R>(v: OverlayView<R>) -> PollMode {
    if v.phase is Destroyed {
        PollMode::Stop
    } else if v.visible {
        PollMode::RenderThenDrain
    } else {
        PollMode::Wait
    }
}

/// The state after the messages of `msgs`, handled in order.
pub open spec fn messages_next<R>(v: OverlayView<R>, msgs: Seq<Message>) -> OverlayView<R>
    decreases msgs.len(),
{
    if msgs.len() == 0 {
        v
    } else {
        message_next(messages_next(v, msgs.drop_last()), msgs.last()).0
    }
}

/// Whether a render pass from state `v` must first create device resources.
pub open spec fn render_step_of<R>(v: OverlayView<R>) -> RenderStep {
    if v.resources is None {
        RenderStep::CreateThenDraw
    } else {
        RenderStep::Draw
    }
}

/// The status code with which presenting reports a fully covered window.
pub const STATUS_OCCLUDED: i32 = 0x087A0001;

/// The error code with which device creation reports an unsupported driver type.
pub const ERROR_UNSUPPORTED: i32 = -2005270524;

/// What a presentation status code means: the occlusion status, any other
/// success code (non-negative), or a failure (negative).
pub open spec fn spec_classify_present(code: i32) -> PresentOutcome {
    if code == STATUS_OCCLUDED {
        PresentOutcome::Occluded
    } else if code >= 0 {
        PresentOutcome::Presented
    } else {
        PresentOutcome::Failed
    }
}

/// Reads a presentation status code.
pub fn classify_present(code: i32) -> (o: PresentOutcome)
    ensures
        o == spec_classify_present(code),
{
    if code == STATUS_OCCLUDED {
        PresentOutcome::Occluded
    } else if code >= 0 {
        PresentOutcome::Presented
    } else {
        PresentOutcome::Failed
    }
}

/// The kinds of graphics device that can be created.
#[derive(Clone, Copy, Debug, PartialEq, Eq, Structural)]
pub enum DriverKind {
    /// A hardware-accelerated device.
    Hardware,
    /// The software rasteriser.
    Warp,
}

/// The driver to try after creating a device of kind `tried` failed with
/// `code`: the software rasteriser after an unsupported hardware driver,
/// nothing otherwise.
pub fn fallback_driver(tried: DriverKind, code: i32) -> (next: Option<DriverKind>)
    ensures
        next == (if tried == DriverKind::Hardware && code == ERROR_UNSUPPORTED {
            Some(DriverKind::Warp)
        } else {
            None
        }),
{
    if tried == DriverKind::Hardware && code == ERROR_UNSUPPORTED {
        Some(DriverKind::Warp)
    } else {
        None
    }
}

impl<R> OverlayState<R> {
    /// A fresh overlay: created, hidden, with no device resources.
    pub fn new() -> (s: OverlayState<R>)
        ensures
            s@.phase == Phase::Created,
            !s@.visible,
            s@.resources is None,
    {
        OverlayState { phase: Phase::Created, visible: false, resources: None }
    }

    /// The native window is up: the loop starts, hidden until activated.
    pub fn start(&mut self)
        requires
            old(self)@.phase == Phase::Created,
        ensures
            final(self)@ == (OverlayView { phase: Phase::Rendering, ..old(self)@ }),
    {
        self.phase = Phase::Rendering;
    }

    pub fn phase(&self) -> (p: Phase)
        ensures
            p == self@.phase,
    {
        self.phase
    }

    pub fn is_visible(&self) -> (b: bool)
        ensures
            b == self@.visible,
    {
        self.visible
    }

    /// How the loop fetches its next messages: stopped once destroyed,
    /// rendering and draining while visible, blocking while hidden.
    pub fn poll_mode(&self) -> (m: PollMode)
        ensures
            m == poll_mode_of(self@),
    {
        if self.phase == Phase::Destroyed {
            PollMode::Stop
        } else if self.visible {
            PollMode::RenderThenDrain
        } else {
            PollMode::Wait
        }
    }

    /// Handles one window message and says what the window thread must do.
    pub fn on_message(&mut self, msg: Message) -> (a: MessageAction)
        ensures
            (final(self)@, a) == message_next(old(self)@, msg),
    {
        if self.phase == Phase::Destroyed {
            return MessageAction::Default;
        }
        match msg {
            Message::Paint => MessageAction::PaintFrame,
            Message::DisplayChange => MessageAction::RenderFrame,
            Message::PresentTest => MessageAction::ProbePresent,
            Message::Activate => {
                self.visible = true;
                MessageAction::Handled
            },
            Message::Destroy => MessageAction::PostQuit,
            Message::Quit => {
                self.phase = Phase::Destroyed;
                MessageAction::Exit
            },
            Message::Other => MessageAction::Default,
        }
    }

    /// Records the status code of a presentation probe: the overlay renders
    /// actively exactly when the probe reports a frame could reach the
    /// screen; occlusion or failure leaves it hidden.
    pub fn on_probe(&mut self, code: i32)
        ensures
            final(self)@ == probe_next(old(self)@, code),
    {
        self.visible = classify_present(code) == PresentOutcome::Presented;
    }

    /// Whether the next render pass must first create device resources.
    pub fn render_step(&self) -> (s: RenderStep)
        ensures
            s == render_step_of(self@),
    {
        if self.resources.is_none() {
            RenderStep::CreateThenDraw
        } else {
            RenderStep::Draw
        }
    }

    /// Takes a freshly created resource bundle.
    pub fn install_resources(&mut self, resources: R)
        requires
            old(self)@.resources is None,
        ensures
            final(self)@ == (OverlayView { resources: Some(resources), ..old(self)@ }),
    {
        self.resources = Some(resources);
    }

    /// The resource bundle held, if any.
    pub fn resources(&self) -> (r: Option<&R>)
        ensures
            r == match self@.resources {
                Some(x) => Some(&x),
                None => None::<&R>,
            },
    {
        self.resources.as_ref()
    }

    /// Drops the whole resource bundle; the next render pass recreates it.
    pub fn release_device(&mut self)
        ensures
            final(self)@ == (OverlayView { resources: None::<R>, ..old(self)@ }),
    {
        self.resources = None;
    }

    /// Applies the status code with which drawing a frame ended: a failure
    /// means the device is lost and releases the whole bundle, to be
    /// recreated by the next render pass.
    pub fn on_draw_end(&mut self, code: i32)
        ensures
            final(self)@ == draw_end_next(old(self)@, code),
    {
        if code < 0 {
            self.release_device();
        }
    }

    /// Applies what presenting reported: occlusion hides the overlay and
    /// keeps its resources; any other failure releases the whole bundle.
    pub fn on_present(&mut self, outcome: PresentOutcome)
        ensures
            final(self)@ == present_next(old(self)@, outcome),
    {
        match outcome {
            PresentOutcome::Presented => {},
            PresentOutcome::Occluded => {
                self.visible = false;
            },
            PresentOutcome::Failed => {
                self.release_device();
            },
        }
    }
}

/// A present failure other than occlusion releases the whole resource
/// bundle, so the next render pass recreates it from scratch; the loop keeps
/// its mode, and once a new bundle is installed rendering draws again.
pub proof fn device_loss_recreates<R>(v: OverlayView<R>, fresh: R)
    ensures
        present_next(v, PresentOutcome::Failed).resources is None,
        render_step_of(present_next(v, PresentOutcome::Failed)) == RenderStep::CreateThenDraw,
        poll_mode_of(present_next(v, PresentOutcome::Failed)) == poll_mode_of(v),
        render_step_of(
            OverlayView { resources: Some(fresh), ..present_next(v, PresentOutcome::Failed) },
        ) == RenderStep::Draw,
{
}

/// An occluded present hides a running overlay without touching its
/// resources, and it stays hidden, blocking on messages instead of
/// rendering, through any run of messages that holds no activation.
pub proof fn occlusion_stops_rendering<R>(v: OverlayView<R>, msgs: Seq<Message>)
    requires
        v.phase is Rendering,
        forall|i: int| 0 <= i < msgs.len() ==> msgs[i] != Message::Activate,
    ensures
        !present_next(v, PresentOutcome::Occluded).visible,
        present_next(v, PresentOutcome::Occluded).resources == v.resources,
        poll_mode_of(present_next(v, PresentOutcome::Occluded)) == PollMode::Wait,
        !messages_next(present_next(v, PresentOutcome::Occluded), msgs).visible,
        poll_mode_of(messages_next(present_next(v, PresentOutcome::Occluded), msgs)) != PollMode::RenderThenDrain,
        messages_next(present_next(v, PresentOutcome::Occluded), msgs).resources == v.resources,
    decreases msgs.len(),
{
    if msgs.len() > 0 {
        let prefix = msgs.drop_last();
        assert forall|i: int| 0 <= i < prefix.len() implies prefix[i] != Message::Activate by {
            assert(prefix[i] == msgs[i]);
        }
        occlusion_stops_rendering(v, prefix);
        assert(msgs.last() == msgs[msgs.len() - 1]);
    }
}

/// A hidden, running overlay renders again on an activation, or on a probe
/// that reports presenting is possible; an occluded or failed probe keeps it
/// hidden. None of these touches its resources.
pub proof fn visibility_restored_by_signal<R>(v: OverlayView<R>, code: i32)
    requires
        v.phase is Rendering,
    ensures
        message_next(v, Message::Activate).1 == MessageAction::Handled,
        poll_mode_of(message_next(v, Message::Activate).0) == PollMode::RenderThenDrain,
        message_next(v, Message::Activate).0.resources == v.resources,
        poll_mode_of(probe_next(v, code)) == (if spec_classify_present(code) == PresentOutcome::Presented {
            PollMode::RenderThenDrain
        } else {
            PollMode::Wait
        }),
        probe_next(v, STATUS_OCCLUDED).visible == false,
        probe_next(v, code).resources == v.resources,
{
}

/// A successful present leaves the state as it was, so a second render
/// pass over an unchanged buffer takes the same step as the first (and,
/// planning being a function of the snapshot, strokes the same outlines).
pub proof fn render_is_repeatable<R>(v: OverlayView<R>)
    ensures
        present_next(v, PresentOutcome::Presented) == v,
        render_step_of(present_next(v, PresentOutcome::Presented)) == render_step_of(v),
        poll_mode_of(present_next(v, PresentOutcome::Presented)) == poll_mode_of(v),
{
}

} // verus!
