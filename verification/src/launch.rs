//! From the description of an application to its message loop.

use vstd::prelude::*;

verus! {

#[derive(Clone, Copy, PartialEq, Eq, Structural, Debug)]
pub enum LaunchError {
    /// An application was launched in this process before.
    AlreadyStarted,
}

/// An application that is being put together: its windows, as descriptions of type `D`, and the
/// configuration of the GPU, of type `G`.
pub struct AppLauncher<D, G> {
    windows: Vec<D>,
    wgpu_config: G,
}

impl<D, G> AppLauncher<D, G> {
    /// The windows, in the order in which they were added.
    pub closed spec fn window_list(&self) -> Seq<D> {
        self.windows@
    }

    /// The configuration of the GPU.
    pub closed spec fn gpu_config(&self) -> G {
        self.wgpu_config
    }

    /// Starts with one window and the default configuration.
    pub fn new(window: D) -> (launcher: Self) where G: Default
        ensures
            launcher.window_list() == seq![window],
            call_ensures(G::default, (), launcher.gpu_config()),
    {
        let mut windows: Vec<D> = Vec::new();
        windows.push(window);
        assert(windows@ =~= seq![window]);
        AppLauncher { windows, wgpu_config: G::default() }
    }

    /// Replaces the configuration of the GPU.
    pub fn with_wgpu_config(self, config: G) -> (launcher: Self)
        ensures
            launcher.window_list() == self.window_list(),
            launcher.gpu_config() == config,
    {
        AppLauncher { windows: self.windows, wgpu_config: config }
    }

    /// Adds one more window.
    pub fn add_window(self, window: D) -> (launcher: Self)
        ensures
            launcher.window_list() == self.window_list().push(window),
            launcher.gpu_config() == self.gpu_config(),
    {
        let mut windows: Vec<D> = self.windows;
        windows.push(window);
        AppLauncher { windows, wgpu_config: self.wgpu_config }
    }

    /// Launches the application, once per process: `started` remembers that one was launched.
    /// The translation map is taken and not used.
    pub fn run<S, T>(self, state: S, translation_map: T, started: &mut bool) -> (launch: Result<
        Launch<D, G, S>,
        LaunchError,
    >)
        ensures
            *final(started),
            match launch {
                Ok(launch) => {
                    &&& !*old(started)
                    &&& launch.windows@ == self.window_list()
                    &&& launch.wgpu_config == self.gpu_config()
                    &&& launch.state == state
                    &&& launch.stage@ == StageView::LoadFonts
                },
                Err(error) => *old(started) && error == LaunchError::AlreadyStarted,
            },
    {
        let _ = translation_map;
        if *started {
            return Err(LaunchError::AlreadyStarted);
        }
        *started = true;
        Ok(
            Launch {
                windows: self.windows,
                wgpu_config: self.wgpu_config,
                state,
                stage: LaunchStage::LoadFonts,
            },
        )
    }
}

/// What is to be done next to bring the application up and keep it running.
#[derive(PartialEq, Eq, Debug)]
pub enum LaunchStage {
    /// Load the fonts in the background.
    LoadFonts,
    /// Ask for a GPU adapter.
    RequestAdapter,
    /// Ask the adapter for a device.
    RequestDevice,
    /// Set up the renderer on the device.
    CreateRenderer,
    /// Create the window of this index.
    CreateWindow(usize),
    /// Wait for a message.
    ReceiveMessage,
    /// Translate and dispatch the message that was received.
    DispatchMessage,
    /// Leave the message loop.
    Quit,
    /// Show the message, by its title and its text, and exit.
    Fatal(String, String),
}

/// A [`LaunchStage`] with its texts as sequences of characters.
pub enum StageView {
    LoadFonts,
    RequestAdapter,
    RequestDevice,
    CreateRenderer,
    CreateWindow(int),
    ReceiveMessage,
    DispatchMessage,
    Quit,
    Fatal(Seq<char>, Seq<char>),
}

impl View for LaunchStage {
    type V = StageView;

    open spec fn view(&self) -> StageView {
        match self {
            LaunchStage::LoadFonts => StageView::LoadFonts,
            LaunchStage::RequestAdapter => StageView::RequestAdapter,
            LaunchStage::RequestDevice => StageView::RequestDevice,
            LaunchStage::CreateRenderer => StageView::CreateRenderer,
            LaunchStage::CreateWindow(i) => StageView::CreateWindow(*i as int),
            LaunchStage::ReceiveMessage => StageView::ReceiveMessage,
            LaunchStage::DispatchMessage => StageView::DispatchMessage,
            LaunchStage::Quit => StageView::Quit,
            LaunchStage::Fatal(title, details) => StageView::Fatal(title@, details@),
        }
    }
}

/// How a stage went.
#[derive(PartialEq, Eq, Debug)]
pub enum Outcome {
    Done,
    /// It failed, for the reason given. Only the stages that bring up the GPU can.
    Failed(String),
    /// What waiting for a message returned. Zero means that the application is to quit.
    Message(i32),
}

/// The stage after `stage`, in an application with `count` windows.
pub open spec fn next_stage(stage: StageView, outcome: Outcome, count: int) -> StageView {
    match stage {
        StageView::LoadFonts => StageView::RequestAdapter,
        StageView::RequestAdapter => match outcome {
            Outcome::Failed(why) => StageView::Fatal(
                "GPU initialization failed"@,
                "Failed to request a WGPU adapter.\n\n"@ + why@,
            ),
            _ => StageView::RequestDevice,
        },
        StageView::RequestDevice => match outcome {
            Outcome::Failed(why) => StageView::Fatal(
                "GPU initialization failed"@,
                "Failed to create a WGPU device.\n\n"@ + why@,
            ),
            _ => StageView::CreateRenderer,
        },
        StageView::CreateRenderer => match outcome {
            Outcome::Failed(why) => StageView::Fatal(
                "Renderer initialization failed"@,
                "Failed to create the Vello renderer.\n\n"@ + why@,
            ),
            _ => window_stage(0, count),
        },
        StageView::CreateWindow(i) => window_stage(i + 1, count),
        StageView::ReceiveMessage => match outcome {
            Outcome::Message(0) => StageView::Quit,
            Outcome::Message(_) => StageView::DispatchMessage,
            _ => StageView::ReceiveMessage,
        },
        StageView::DispatchMessage => StageView::ReceiveMessage,
        StageView::Quit => StageView::Quit,
        StageView::Fatal(title, details) => StageView::Fatal(title, details),
    }
}

/// Creating window `i`, or waiting for messages where there is no such window.
pub open spec fn window_stage(i: int, count: int) -> StageView {
    if i < count {
        StageView::CreateWindow(i)
    } else {
        StageView::ReceiveMessage
    }
}

/// A launch in progress: the application and what is to be done next.
pub struct Launch<D, G, S> {
    pub windows: Vec<D>,
    pub wgpu_config: G,
    pub state: S,
    pub stage: LaunchStage,
}

impl<D, G, S> Launch<D, G, S> {
    /// Whether the window that is to be created is one of the application's.
    pub open spec fn wf(&self) -> bool {
        self.stage matches LaunchStage::CreateWindow(i) ==> i < self.windows@.len()
    }

    /// Goes on to the next stage, now that this one went as `outcome` says.
    pub fn advance(&mut self, outcome: Outcome)
        requires
            old(self).wf(),
        ensures
            final(self).wf(),
            final(self).windows@ == old(self).windows@,
            final(self).wgpu_config == old(self).wgpu_config,
            final(self).state == old(self).state,
            final(self).stage@ == next_stage(
                old(self).stage@,
                outcome,
                old(self).windows@.len() as int,
            ),
    {
        let count: usize = self.windows.len();
        let next: LaunchStage = match &self.stage {
            LaunchStage::LoadFonts => LaunchStage::RequestAdapter,
            LaunchStage::RequestAdapter => match outcome {
                Outcome::Failed(why) => fatal(
                    "GPU initialization failed",
                    "Failed to request a WGPU adapter.\n\n",
                    why,
                ),
                _ => LaunchStage::RequestDevice,
            },
            LaunchStage::RequestDevice => match outcome {
                Outcome::Failed(why) => fatal(
                    "GPU initialization failed",
                    "Failed to create a WGPU device.\n\n",
                    why,
                ),
                _ => LaunchStage::CreateRenderer,
            },
            LaunchStage::CreateRenderer => match outcome {
                Outcome::Failed(why) => fatal(
                    "Renderer initialization failed",
                    "Failed to create the Vello renderer.\n\n",
                    why,
                ),
                _ => create_window(0, count),
            },
            LaunchStage::CreateWindow(i) => create_window(*i + 1, count),
            LaunchStage::ReceiveMessage => match outcome {
                Outcome::Message(code) => if code == 0 {
                    LaunchStage::Quit
                } else {
                    LaunchStage::DispatchMessage
                },
                _ => LaunchStage::ReceiveMessage,
            },
            LaunchStage::DispatchMessage => LaunchStage::ReceiveMessage,
            LaunchStage::Quit => LaunchStage::Quit,
            LaunchStage::Fatal(title, details) => LaunchStage::Fatal(
                title.clone(),
                details.clone(),
            ),
        };
        self.stage = next;
    }
}

fn create_window(i: usize, count: usize) -> (stage: LaunchStage)
    ensures
        stage@ == window_stage(i as int, count as int),
{
    if i < count {
        LaunchStage::CreateWindow(i)
    } else {
        LaunchStage::ReceiveMessage
    }
}

fn fatal(title: &str, details: &str, why: String) -> (stage: LaunchStage)
    ensures
        stage@ == StageView::Fatal(title@, details@ + why@),
{
    let mut text: String = details.to_owned();
    text.append(why.as_str());
    LaunchStage::Fatal(title.to_owned(), text)
}

/// Where a launch stands after `outcomes`.
pub open spec fn stage_after(stage: StageView, outcomes: Seq<Outcome>, count: int) -> StageView
    decreases outcomes.len(),
{
    if outcomes.len() == 0 {
        stage
    } else {
        next_stage(stage_after(stage, outcomes.drop_last(), count), outcomes.last(), count)
    }
}

/// The view of a stage says all of it.
pub proof fn law_stage_view(a: LaunchStage, b: LaunchStage)
    requires
        a@ == b@,
    ensures
        match a {
            LaunchStage::CreateWindow(i) => b == LaunchStage::CreateWindow(i),
            LaunchStage::Fatal(title, details) => b matches LaunchStage::Fatal(t, d) && t@ == title@
                && d@ == details@,
            _ => b == a,
        },
{
}

/// As long as nothing fails, a launch loads the fonts, asks for an adapter, asks it for a device
/// and sets up the renderer, in this order, and then goes on with the windows.
pub proof fn law_launch_order(outcomes: Seq<Outcome>, count: int)
    requires
        forall|i: int| 0 <= i < outcomes.len() ==> #[trigger] outcomes[i] !is Failed,
        0 <= count,
        outcomes.len() <= 4 + count,
    ensures
        stage_after(StageView::LoadFonts, outcomes, count) == (if outcomes.len() == 0 {
            StageView::LoadFonts
        } else if outcomes.len() == 1 {
            StageView::RequestAdapter
        } else if outcomes.len() == 2 {
            StageView::RequestDevice
        } else if outcomes.len() == 3 {
            StageView::CreateRenderer
        } else if outcomes.len() - 4 < count {
            StageView::CreateWindow(outcomes.len() - 4)
        } else {
            StageView::ReceiveMessage
        }),
    decreases outcomes.len(),
{
    if outcomes.len() > 0 {
        let before = outcomes.drop_last();
        assert forall|i: int| 0 <= i < before.len() implies #[trigger] before[i] !is Failed by {
            assert(outcomes[i] !is Failed);
        }
        law_launch_order(before, count);
        assert(outcomes.last() !is Failed);
    }
}

/// A launch fails exactly where the adapter, the device or the renderer cannot be had. What is
/// shown tells which of them it was, and ends with the reason as it was given.
pub proof fn law_failure_is_told(stage: StageView, outcome: Outcome, count: int)
    requires
        stage !is Fatal,
    ensures
        stage is LoadFonts ==> next_stage(stage, outcome, count) is RequestAdapter,
        next_stage(stage, outcome, count) is Fatal <==> outcome is Failed && (stage
            is RequestAdapter || stage is RequestDevice || stage is CreateRenderer),
        outcome matches Outcome::Failed(why) ==> {
            &&& stage is RequestAdapter ==> next_stage(stage, outcome, count) == StageView::Fatal(
                "GPU initialization failed"@,
                "Failed to request a WGPU adapter.\n\n"@ + why@,
            )
            &&& stage is RequestDevice ==> next_stage(stage, outcome, count) == StageView::Fatal(
                "GPU initialization failed"@,
                "Failed to create a WGPU device.\n\n"@ + why@,
            )
            &&& stage is CreateRenderer ==> next_stage(stage, outcome, count) == StageView::Fatal(
                "Renderer initialization failed"@,
                "Failed to create the Vello renderer.\n\n"@ + why@,
            )
        },
{
}

/// Every message that was received is dispatched, whatever waiting for it returned other than
/// zero, before the next one is waited for; zero leaves the loop.
pub proof fn law_messages_are_dispatched(code: i32, after: Outcome, count: int)
    ensures
        code != 0 ==> next_stage(StageView::ReceiveMessage, Outcome::Message(code), count)
            is DispatchMessage,
        code == 0 ==> next_stage(StageView::ReceiveMessage, Outcome::Message(code), count) is Quit,
        after !is Message ==> next_stage(StageView::ReceiveMessage, after, count)
            is ReceiveMessage,
        next_stage(StageView::DispatchMessage, after, count) is ReceiveMessage,
{
}

/// Once the renderer is there, the windows are created one after the other in the order in which
/// they were added, each of them once, and only then the first message is waited for.
pub proof fn law_windows_come_first(outcomes: Seq<Outcome>, count: int)
    requires
        0 < outcomes.len() <= count + 1,
        outcomes[0] !is Failed,
    ensures
        stage_after(StageView::CreateRenderer, outcomes, count) == window_stage(
            outcomes.len() - 1,
            count,
        ),
    decreases outcomes.len(),
{
    reveal_with_fuel(stage_after, 2);
    if outcomes.len() > 1 {
        law_windows_come_first(outcomes.drop_last(), count);
    }
}

/// A message loop goes on until it is told to quit, and then stays ended.
pub proof fn law_quit_is_final(outcomes: Seq<Outcome>, count: int)
    ensures
        stage_after(StageView::Quit, outcomes, count) == StageView::Quit,
        (forall|i: int| 0 <= i < outcomes.len() ==> outcomes[i] != Outcome::Message(0))
            ==> stage_after(StageView::ReceiveMessage, outcomes, count) != StageView::Quit,
    decreases outcomes.len(),
{
    if outcomes.len() > 0 {
        law_quit_is_final(outcomes.drop_last(), count);
        if forall|i: int| 0 <= i < outcomes.len() ==> outcomes[i] != Outcome::Message(0) {
            let before = outcomes.drop_last();
            assert(forall|i: int| 0 <= i < before.len() ==> before[i] == outcomes[i]);
            lemma_pumping(before, count);
        }
    }
}

/// A launch that failed is never resumed: whatever happens, the same message is to be shown.
pub proof fn law_failure_is_final(
    title: Seq<char>,
    details: Seq<char>,
    outcomes: Seq<Outcome>,
    count: int,
)
    ensures
        stage_after(StageView::Fatal(title, details), outcomes, count) == StageView::Fatal(
            title,
            details,
        ),
    decreases outcomes.len(),
{
    if outcomes.len() > 0 {
        law_failure_is_final(title, details, outcomes.drop_last(), count);
    }
}

/// From the message loop, only quitting is ever reached.
proof fn lemma_pumping(outcomes: Seq<Outcome>, count: int)
    ensures
        ({
            let stage = stage_after(StageView::ReceiveMessage, outcomes, count);
            stage is ReceiveMessage || stage is DispatchMessage || stage is Quit
        }),
    decreases outcomes.len(),
{
    if outcomes.len() > 0 {
        lemma_pumping(outcomes.drop_last(), count);
    }
}

} // verus!
