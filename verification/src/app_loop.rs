//! The decisions of the application's main loop: how it answers window events, when it
//! renders, when the swapchain has to be recreated, which per-frame synchronisation
//! objects a frame uses, and in which order the bootstrap loaders are chained.
use vstd::prelude::*;

verus! {

/// A window event, as far as the main loop looks at it.
#[derive(Clone, Copy, Debug, PartialEq, Eq, Structural)]
pub enum WindowEvent {
    /// All pending events were handled; `shutdown_requested` tells whether a shutdown was
    /// requested from outside (Ctrl+C) since.
    MainEventsCleared { shutdown_requested: bool },
    /// The window was resized to `width` x `height`.
    Resized { width: u32, height: u32 },
    /// The user asked to close the window.
    CloseRequested,
    /// A key with a known key code was pressed; `escape` tells whether it was Escape.
    KeyPressed { escape: bool },
    /// Anything else.
    Other,
}

/// What the main loop does in answer to an event.
#[derive(Clone, Copy, Debug, PartialEq, Eq, Structural)]
pub struct EventResponse {
    /// Tear down the application's Vulkan objects now.
    pub destroy: bool,
    /// Run one pass of the game loop.
    pub run_game_loop: bool,
    /// Leave the event loop.
    pub exit: bool,
}

/// The main loop's state: whether the window is minimized, whether the application is
/// shutting down, and whether the swapchain must be recreated before the next frame.
#[derive(Clone, Copy, Debug, PartialEq, Eq, Structural)]
pub struct AppLoop {
    pub minimized: bool,
    pub destroying: bool,
    pub needs_new_swapchain: bool,
}

/// How acquiring the next swapchain image ended.
#[derive(Clone, Copy, Debug, PartialEq, Eq, Structural)]
pub enum AcquireOutcome {
    /// The image with this index was acquired.
    Acquired(u32),
    /// The swapchain is out of date.
    OutOfDate,
    /// Any other error, with its Vulkan error code.
    Failed(i32),
}

/// How presenting a rendered image ended.
#[derive(Clone, Copy, Debug, PartialEq, Eq, Structural)]
pub enum PresentOutcome {
    /// Presented.
    Presented,
    /// Presented, but the swapchain no longer matches the surface exactly.
    Suboptimal,
    /// The swapchain is out of date.
    OutOfDate,
    /// Any other error, with its Vulkan error code.
    Failed(i32),
}

/// A shutdown: the first one destroys, a repeated one is ignored.
pub open spec fn shutdown_step(s: AppLoop) -> (AppLoop, bool) {
    if s.destroying {
        (s, false)
    } else {
        (AppLoop { destroying: true, ..s }, true)
    }
}

/// The state after `e` and whether it destroys, before the loop looks at the result.
pub open spec fn event_effect(s: AppLoop, e: WindowEvent) -> (AppLoop, bool) {
    match e {
        WindowEvent::MainEventsCleared { shutdown_requested } => if shutdown_requested {
            shutdown_step(s)
        } else {
            (s, false)
        },
        WindowEvent::Resized { width, height } => (
            AppLoop { needs_new_swapchain: true, minimized: width == 0 || height == 0, ..s },
            false,
        ),
        WindowEvent::CloseRequested => shutdown_step(s),
        WindowEvent::KeyPressed { escape } => if escape {
            shutdown_step(s)
        } else {
            (s, false)
        },
        WindowEvent::Other => (s, false),
    }
}

/// The main loop's answer to `e` in state `s`: the new state and the response. A pass of
/// the game loop runs when all events were handled, the application is not shutting down
/// and the window is not minimized; the loop is left once the application is shutting down.
pub open spec fn event_step(s: AppLoop, e: WindowEvent) -> (AppLoop, EventResponse) {
    let (t, destroy) = event_effect(s, e);
    (
        t,
        EventResponse {
            destroy,
            run_game_loop: e is MainEventsCleared && !t.destroying && !t.minimized,
            exit: t.destroying,
        },
    )
}

/// How many times a sequence of events, answered in order from `s`, destroys.
pub open spec fn destroy_count(s: AppLoop, events: Seq<WindowEvent>) -> nat
    decreases events.len(),
{
    if events.len() == 0 {
        0
    } else {
        let (t, r) = event_step(s, events[0]);
        (if r.destroy {
            1nat
        } else {
            0nat
        }) + destroy_count(t, events.drop_first())
    }
}

impl AppLoop {
    /// The state the main loop starts in: not minimized, not shutting down, swapchain fine.
    pub fn new() -> (r: Self)
        ensures
            r == (AppLoop { minimized: false, destroying: false, needs_new_swapchain: false }),
    {
        AppLoop { minimized: false, destroying: false, needs_new_swapchain: false }
    }

    /// A shutdown request: the first destroys, a repeated one is ignored.
    fn shutdown(&mut self) -> (destroy: bool)
        ensures
            (*final(self), destroy) == shutdown_step(*old(self)),
    {
        if self.destroying {
            false
        } else {
            self.destroying = true;
            true
        }
    }

    /// Answers one window event.
    pub fn handle_event(&mut self, event: WindowEvent) -> (r: EventResponse)
        ensures
            (*final(self), r) == event_step(*old(self), event),
    {
        let destroy = match event {
            WindowEvent::MainEventsCleared { shutdown_requested } => {
                if shutdown_requested {
                    self.shutdown()
                } else {
                    false
                }
            },
            WindowEvent::Resized { width, height } => {
                self.needs_new_swapchain = true;
                self.minimized = width == 0 || height == 0;
                false
            },
            WindowEvent::CloseRequested => self.shutdown(),
            WindowEvent::KeyPressed { escape } => {
                if escape {
                    self.shutdown()
                } else {
                    false
                }
            },
            WindowEvent::Other => false,
        };
        let run_game_loop = match event {
            WindowEvent::MainEventsCleared { .. } => !self.destroying && !self.minimized,
            _ => false,
        };
        EventResponse { destroy, run_game_loop, exit: self.destroying }
    }

    /// Whether a pass of the game loop renders a frame: not while the swapchain waits to
    /// be recreated.
    pub fn should_render(&self) -> (r: bool)
        ensures
            r == !self.needs_new_swapchain,
    {
        !self.needs_new_swapchain
    }

    /// Takes the outcome of acquiring a swapchain image: the image to render to, none when
    /// the swapchain is out of date (which then has to be recreated), or the error.
    pub fn after_acquire(&mut self, outcome: AcquireOutcome) -> (r: Result<Option<u32>, i32>)
        ensures
            match outcome {
                AcquireOutcome::Acquired(index) => r == Ok::<Option<u32>, i32>(Some(index))
                    && *final(self) == *old(self),
                AcquireOutcome::OutOfDate => r == Ok::<Option<u32>, i32>(None) && *final(self)
                    == (AppLoop { needs_new_swapchain: true, ..*old(self) }),
                AcquireOutcome::Failed(code) => r == Err::<Option<u32>, i32>(code) && *final(self)
                    == *old(self),
            },
    {
        match outcome {
            AcquireOutcome::Acquired(index) => Ok(Some(index)),
            AcquireOutcome::OutOfDate => {
                self.needs_new_swapchain = true;
                Ok(None)
            },
            AcquireOutcome::Failed(code) => Err(code),
        }
    }

    /// Takes the outcome of presenting: a suboptimal or out-of-date swapchain is to be
    /// recreated; any other error is returned.
    pub fn after_present(&mut self, outcome: PresentOutcome) -> (r: Result<(), i32>)
        ensures
            match outcome {
                PresentOutcome::Presented => r is Ok && *final(self) == *old(self),
                PresentOutcome::Suboptimal | PresentOutcome::OutOfDate => r is Ok && *final(self)
                    == (AppLoop { needs_new_swapchain: true, ..*old(self) }),
                PresentOutcome::Failed(code) => r == Err::<(), i32>(code) && *final(self) == *old(
                    self,
                ),
            },
    {
        match outcome {
            PresentOutcome::Presented => Ok(()),
            PresentOutcome::Suboptimal | PresentOutcome::OutOfDate => {
                self.needs_new_swapchain = true;
                Ok(())
            },
            PresentOutcome::Failed(code) => Err(code),
        }
    }

    /// Whether the swapchain has to be recreated at the end of this pass.
    pub fn should_recreate_swapchain(&self) -> (r: bool)
        ensures
            r == self.needs_new_swapchain,
    {
        self.needs_new_swapchain
    }

    /// The swapchain was recreated.
    pub fn swapchain_recreated(&mut self)
        ensures
            *final(self) == (AppLoop { needs_new_swapchain: false, ..*old(self) }),
    {
        self.needs_new_swapchain = false;
    }
}

/// Answering a sequence of events destroys the application at most once, and never once
/// it is shutting down.
pub proof fn lemma_destroy_at_most_once(s: AppLoop, events: Seq<WindowEvent>)
    ensures
        destroy_count(s, events) <= 1,
        s.destroying ==> destroy_count(s, events) == 0,
    decreases events.len(),
{
    if events.len() > 0 {
        let (t, r) = event_step(s, events[0]);
        lemma_destroy_at_most_once(t, events.drop_first());
        assert(r.destroy ==> t.destroying);
        assert(s.destroying ==> t.destroying && !r.destroy);
    }
}

/// Once shutting down, the application stays so whatever event comes, and the loop is left.
pub proof fn lemma_shutdown_is_final(s: AppLoop, e: WindowEvent)
    requires
        s.destroying,
    ensures
        event_step(s, e).0.destroying,
        event_step(s, e).1.exit,
        !event_step(s, e).1.destroy,
        !event_step(s, e).1.run_game_loop,
{
}

/// The event asks the application to shut down: the window is to be closed, Escape was
/// pressed, or a shutdown was requested from outside (Ctrl+C).
pub open spec fn is_shutdown_request(e: WindowEvent) -> bool {
    match e {
        WindowEvent::CloseRequested => true,
        WindowEvent::KeyPressed { escape } => escape,
        WindowEvent::MainEventsCleared { shutdown_requested } => shutdown_requested,
        _ => false,
    }
}

/// Only a shutdown request tears the application down. Any other event leaves the
/// shutting-down flag as it was and destroys nothing; an event the loop does not look at
/// leaves the state unchanged, runs no pass of the game loop, and leaves the loop only
/// when the application was already shutting down.
pub proof fn lemma_only_shutdown_requests_destroy(s: AppLoop, e: WindowEvent)
    requires
        !is_shutdown_request(e),
    ensures
        event_step(s, e).0.destroying == s.destroying,
        !event_step(s, e).1.destroy,
        event_step(s, e).1.exit == s.destroying,
        e is Other ==> event_step(s, e).0 == s && !event_step(s, e).1.run_game_loop,
{
}

/// A shutdown request always leaves the application shutting down and the loop left; it
/// destroys exactly when the application was not already shutting down, and changes
/// nothing else of the state.
pub proof fn lemma_shutdown_request_destroys_once(s: AppLoop, e: WindowEvent)
    requires
        is_shutdown_request(e),
    ensures
        event_step(s, e).0 == (AppLoop { destroying: true, ..s }),
        event_step(s, e).1.destroy == !s.destroying,
        event_step(s, e).1.exit,
        !event_step(s, e).1.run_game_loop,
{
}

/// Which set of per-frame synchronisation objects frame `frame_index` uses.
pub fn sync_frame_index(frame_index: u32, max_frames_in_flight: u32) -> (r: usize)
    requires
        max_frames_in_flight > 0,
    ensures
        r == frame_index % max_frames_in_flight,
        r < max_frames_in_flight,
{
    (frame_index % max_frames_in_flight) as usize
}

/// For each swapchain image, the fence of the frame that last rendered to it, if any.
#[derive(Debug)]
pub struct ImagesInFlight {
    fences: Vec<Option<u64>>,
}

impl View for ImagesInFlight {
    type V = Seq<Option<u64>>;

    closed spec fn view(&self) -> Seq<Option<u64>> {
        self.fences@
    }
}

/// The fences after image `i` was claimed by the frame guarded by `fence`.
pub open spec fn claimed(fences: Seq<Option<u64>>, i: int, fence: u64) -> Seq<Option<u64>> {
    fences.update(i, Some(fence))
}

/// Claiming an image again hands back the fence of the frame that claimed it last;
/// claiming one image leaves the fences of the others alone.
pub proof fn lemma_claim_hands_back_last_fence(fences: Seq<Option<u64>>, i: int, j: int, fence: u64)
    requires
        0 <= i < fences.len(),
        0 <= j < fences.len(),
    ensures
        claimed(fences, i, fence)[i] == Some(fence),
        i != j ==> claimed(fences, i, fence)[j] == fences[j],
        claimed(fences, i, fence).len() == fences.len(),
{
}

impl ImagesInFlight {
    /// No image in flight, for `image_count` swapchain images.
    pub fn new(image_count: usize) -> (r: Self)
        ensures
            r@ == Seq::new(image_count as nat, |i: int| None::<u64>),
    {
        let mut fences: Vec<Option<u64>> = Vec::new();
        let mut i: usize = 0;
        while i < image_count
            invariant
                i <= image_count,
                fences@ == Seq::new(i as nat, |j: int| None::<u64>),
            decreases image_count - i,
        {
            fences.push(None);
            i = i + 1;
        }
        ImagesInFlight { fences }
    }

    /// The number of swapchain images.
    pub fn len(&self) -> (r: usize)
        ensures
            r == self@.len(),
    {
        self.fences.len()
    }

    /// Image `image_index` is now rendered by the frame guarded by `fence`; gives the fence
    /// of the frame that rendered to it before, which must be waited for.
    pub fn claim(&mut self, image_index: usize, fence: u64) -> (previous: Option<u64>)
        requires
            image_index < old(self)@.len(),
        ensures
            previous == old(self)@[image_index as int],
            final(self)@ == claimed(old(self)@, image_index as int, fence),
    {
        let previous = self.fences[image_index];
        self.fences.set(image_index, Some(fence));
        previous
    }
}

/// The loader at position `index` of the chain that creates the Vulkan instance: the
/// loaders in their order, then the end of the chain.
pub open spec fn instance_chain_at(index: int, loader_count: int) -> Option<int> {
    if 0 <= index < loader_count {
        Some(index)
    } else {
        None
    }
}

/// The loader at position `index` of the chain that recreates the swapchain: the loaders
/// from the last to the first, then the end of the chain.
pub open spec fn recreate_chain_at(index: int, loader_count: int) -> Option<int> {
    if index == loader_count {
        None
    } else {
        Some(loader_count - index - 1)
    }
}

/// The loader at position `index` of the chain that creates the Vulkan instance.
pub fn instance_create_loader(index: usize, loader_count: usize) -> (r: Option<usize>)
    ensures
        r matches Some(i) ==> instance_chain_at(index as int, loader_count as int) == Some(i as int),
        r is None <==> instance_chain_at(index as int, loader_count as int) is None,
{
    if index < loader_count {
        Some(index)
    } else {
        None
    }
}

/// The loader at position `index` of the chain that recreates the swapchain.
pub fn recreate_swapchain_loader(index: usize, loader_count: usize) -> (r: Option<usize>)
    requires
        index <= loader_count,
    ensures
        r matches Some(i) ==> recreate_chain_at(index as int, loader_count as int) == Some(i as int),
        r is None <==> recreate_chain_at(index as int, loader_count as int) is None,
{
    if index == loader_count {
        None
    } else {
        Some(loader_count - index - 1)
    }
}

/// The swapchain is recreated by the loaders in the reverse of the order in which they
/// create the instance: both chains visit every loader once and end after the last one.
pub proof fn lemma_recreate_reverses_create(index: int, loader_count: int)
    requires
        0 <= index <= loader_count,
    ensures
        index < loader_count ==> recreate_chain_at(index, loader_count) == instance_chain_at(
            loader_count - 1 - index,
            loader_count,
        ),
        index == loader_count ==> recreate_chain_at(index, loader_count) is None
            && instance_chain_at(index, loader_count) is None,
{
}

} // verus!
