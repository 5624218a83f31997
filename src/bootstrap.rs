//! The creation of the real window and its OpenGL context, after the negotiation. The steps run
//! in a fixed order and the first failure ends them: without a GL-capable window the program has
//! nothing to do, so nothing is released and the error goes to the process boundary.
//!
//! As with the negotiation, `Bootstrap` decides and its caller performs: the caller asks for
//! `action`, performs it, and hands the outcome to `advance`, until the action is `Finish`.

use vstd::prelude::*;
use crate::win32::Win32Error;

verus! {

/// A step of the bootstrap, in the order in which they are performed.
#[derive(Clone, Copy, Debug, PartialEq, Eq, Structural)]
pub enum BootstrapStep {
    /// Register the window class, with redraw-on-resize and its own device context.
    RegisterClass,
    /// Run the negotiation for the extension names and entry points.
    Negotiate,
    /// Allocate the window's user data and create the window, handing it the data.
    CreateWindow,
    /// Acquire the window's device context and keep it in the user data.
    GetDeviceContext,
    /// Choose a pixel format with `wglChoosePixelFormatARB` (see `wgl::pixel_format_attribs`).
    ChoosePixelFormat,
    /// Describe the chosen pixel format.
    DescribePixelFormat,
    /// Set the chosen pixel format on the device context.
    SetPixelFormat,
    /// Create the context with `wglCreateContextAttribsARB` (see `wgl::context_attribs`).
    CreateContext,
    /// Make the context current on this thread and keep it in the user data.
    MakeCurrent,
    /// Load the OpenGL library and keep its handle in the user data.
    LoadGlLibrary,
    /// Load the OpenGL entry points into the user data's table.
    LoadGlFunctions,
    /// Set the swap interval (see `wgl::swap_interval`).
    SetSwapInterval,
    /// Show the window.
    ShowWindow,
}

/// What the caller is to do next.
#[derive(Clone, Copy, Debug, PartialEq, Eq)]
pub enum BootstrapAction {
    /// Perform a step and report its outcome.
    Perform(BootstrapStep),
    /// The bootstrap is over, with this result.
    Finish(Result<(), Win32Error>),
}

/// The number of steps of the bootstrap.
pub const BOOTSTRAP_STEP_COUNT: usize = 13;

/// The step at position `i`.
#[verifier::opaque]
pub open spec fn bootstrap_step_at(i: int) -> BootstrapStep {
    if i == 0 {
        BootstrapStep::RegisterClass
    } else if i == 1 {
        BootstrapStep::Negotiate
    } else if i == 2 {
        BootstrapStep::CreateWindow
    } else if i == 3 {
        BootstrapStep::GetDeviceContext
    } else if i == 4 {
        BootstrapStep::ChoosePixelFormat
    } else if i == 5 {
        BootstrapStep::DescribePixelFormat
    } else if i == 6 {
        BootstrapStep::SetPixelFormat
    } else if i == 7 {
        BootstrapStep::CreateContext
    } else if i == 8 {
        BootstrapStep::MakeCurrent
    } else if i == 9 {
        BootstrapStep::LoadGlLibrary
    } else if i == 10 {
        BootstrapStep::LoadGlFunctions
    } else if i == 11 {
        BootstrapStep::SetSwapInterval
    } else {
        BootstrapStep::ShowWindow
    }
}

/// The state of a bootstrap: the position of the next step, and the error of the step that
/// failed, if one did.
#[derive(Clone, Copy, Debug, PartialEq, Eq, Structural)]
pub struct BootstrapState {
    pub next: usize,
    pub failure: Option<Win32Error>,
}

impl BootstrapState {
    pub open spec fn wf(self) -> bool {
        self.next <= BOOTSTRAP_STEP_COUNT
    }

    /// What the caller is to do in this state.
    pub open spec fn action(self) -> BootstrapAction {
        match self.failure {
            Some(e) => BootstrapAction::Finish(Err(e)),
            None => if self.next < BOOTSTRAP_STEP_COUNT {
                BootstrapAction::Perform(bootstrap_step_at(self.next as int))
            } else {
                BootstrapAction::Finish(Ok(()))
            },
        }
    }

    /// The state after the current action with the given outcome: a step that succeeds moves on
    /// to the next, one that fails ends the bootstrap with its error.
    pub open spec fn advance(self, outcome: Result<(), Win32Error>) -> BootstrapState {
        match self.action() {
            BootstrapAction::Perform(_) => match outcome {
                Ok(()) => BootstrapState { next: (self.next + 1) as usize, failure: None },
                Err(e) => BootstrapState { failure: Some(e), ..self },
            },
            BootstrapAction::Finish(_) => self,
        }
    }
}

/// A bootstrap in progress.
pub struct Bootstrap {
    state: BootstrapState,
}

impl View for Bootstrap {
    type V = BootstrapState;

    closed spec fn view(&self) -> BootstrapState {
        self.state
    }
}

impl Bootstrap {
    /// A bootstrap that has done nothing yet.
    pub fn new() -> (r: Bootstrap)
        ensures
            r@ == (BootstrapState { next: 0, failure: None }),
            r@.wf(),
    {
        Bootstrap { state: BootstrapState { next: 0, failure: None } }
    }

    /// What the caller is to do next.
    pub fn action(&self) -> (r: BootstrapAction)
        requires
            self@.wf(),
        ensures
            r == self@.action(),
    {
        match self.state.failure {
            Some(e) => BootstrapAction::Finish(Err(e)),
            None => {
                if self.state.next < BOOTSTRAP_STEP_COUNT {
                    BootstrapAction::Perform(bootstrap_step_at_index(self.state.next))
                } else {
                    BootstrapAction::Finish(Ok(()))
                }
            },
        }
    }

    /// Records the outcome of the action that `action` gave.
    pub fn advance(&mut self, outcome: Result<(), Win32Error>)
        requires
            old(self)@.wf(),
        ensures
            final(self)@ == old(self)@.advance(outcome),
            final(self)@.wf(),
    {
        if let BootstrapAction::Perform(_) = self.action() {
            match outcome {
                Ok(()) => {
                    self.state = BootstrapState { next: self.state.next + 1, failure: None };
                },
                Err(e) => {
                    self.state = BootstrapState { failure: Some(e), ..self.state };
                },
            }
        }
    }
}

fn bootstrap_step_at_index(i: usize) -> (r: BootstrapStep)
    requires
        i < BOOTSTRAP_STEP_COUNT,
    ensures
        r == bootstrap_step_at(i as int),
{
    reveal(bootstrap_step_at);
    match i {
        0 => BootstrapStep::RegisterClass,
        1 => BootstrapStep::Negotiate,
        2 => BootstrapStep::CreateWindow,
        3 => BootstrapStep::GetDeviceContext,
        4 => BootstrapStep::ChoosePixelFormat,
        5 => BootstrapStep::DescribePixelFormat,
        6 => BootstrapStep::SetPixelFormat,
        7 => BootstrapStep::CreateContext,
        8 => BootstrapStep::MakeCurrent,
        9 => BootstrapStep::LoadGlLibrary,
        10 => BootstrapStep::LoadGlFunctions,
        11 => BootstrapStep::SetSwapInterval,
        _ => BootstrapStep::ShowWindow,
    }
}

/// The steps performed along the way, in order, when the steps have these outcomes.
pub open spec fn bootstrap_performed(st: BootstrapState, outcomes: Seq<Result<(), Win32Error>>) -> Seq<
    BootstrapStep,
>
    decreases outcomes.len(),
{
    match st.action() {
        BootstrapAction::Perform(step) => if outcomes.len() == 0 {
            seq![]
        } else {
            seq![step] + bootstrap_performed(st.advance(outcomes[0]), outcomes.drop_first())
        },
        BootstrapAction::Finish(_) => seq![],
    }
}

proof fn lemma_bootstrap_in_order(st: BootstrapState, outcomes: Seq<Result<(), Win32Error>>)
    requires
        st.wf(),
    ensures
        st.failure is None ==> st.next + bootstrap_performed(st, outcomes).len()
            <= BOOTSTRAP_STEP_COUNT,
        st.failure is Some ==> bootstrap_performed(st, outcomes).len() == 0,
        forall|i: int|
            0 <= i < bootstrap_performed(st, outcomes).len() ==> #[trigger] bootstrap_performed(
                st,
                outcomes,
            )[i] == bootstrap_step_at(st.next + i),
    decreases outcomes.len(),
{
    if st.action() is Perform && outcomes.len() > 0 {
        let next = st.advance(outcomes[0]);
        let rest = outcomes.drop_first();
        lemma_bootstrap_in_order(next, rest);
        let p = bootstrap_performed(st, outcomes);
        let q = bootstrap_performed(next, rest);
        assert(p =~= seq![bootstrap_step_at(st.next as int)] + q);
        assert forall|i: int| 0 <= i < p.len() implies #[trigger] p[i] == bootstrap_step_at(
            st.next + i,
        ) by {
            if i > 0 {
                assert(p[i] == q[i - 1]);
            }
        }
    }
}

/// Different positions hold different steps.
proof fn lemma_bootstrap_step_at_injective(i: int, j: int)
    requires
        0 <= i < j < BOOTSTRAP_STEP_COUNT,
    ensures
        bootstrap_step_at(i) != bootstrap_step_at(j),
{
    reveal(bootstrap_step_at);
}

proof fn lemma_set_pixel_format_position(j: int)
    requires
        0 <= j < BOOTSTRAP_STEP_COUNT,
    ensures
        bootstrap_step_at(j) == BootstrapStep::SetPixelFormat <==> j == 6,
        bootstrap_step_at(4) == BootstrapStep::ChoosePixelFormat,
        bootstrap_step_at(5) == BootstrapStep::DescribePixelFormat,
{
    reveal(bootstrap_step_at);
}

/// The state in which a bootstrap starts.
pub open spec fn bootstrap_start() -> BootstrapState {
    BootstrapState { next: 0, failure: None }
}

/// No step of the bootstrap is performed twice, so the pixel format of the window is set at
/// most once; and it is set only right after a format was chosen and described.
pub proof fn lemma_bootstrap_sets_pixel_format_once(outcomes: Seq<Result<(), Win32Error>>)
    ensures
        forall|i: int, j: int|
            0 <= i < j < bootstrap_performed(bootstrap_start(), outcomes).len() ==> #[trigger]
            bootstrap_performed(bootstrap_start(), outcomes)[i] != #[trigger] bootstrap_performed(
                bootstrap_start(),
                outcomes,
            )[j],
        forall|j: int|
            0 <= j < bootstrap_performed(bootstrap_start(), outcomes).len() && #[trigger]
            bootstrap_performed(bootstrap_start(), outcomes)[j] == BootstrapStep::SetPixelFormat
                ==> j == 6,
        bootstrap_performed(bootstrap_start(), outcomes).len() > 6 ==> bootstrap_performed(
            bootstrap_start(),
            outcomes,
        )[4] == BootstrapStep::ChoosePixelFormat && bootstrap_performed(
            bootstrap_start(),
            outcomes,
        )[5] == BootstrapStep::DescribePixelFormat,
{
    let st = bootstrap_start();
    lemma_bootstrap_in_order(st, outcomes);
    let p = bootstrap_performed(st, outcomes);
    assert forall|i: int, j: int| 0 <= i < j < p.len() implies p[i] != p[j] by {
        assert(p[i] == bootstrap_step_at(i));
        assert(p[j] == bootstrap_step_at(j));
        lemma_bootstrap_step_at_injective(i, j);
    }
    assert forall|j: int| 0 <= j < p.len() && #[trigger] p[j] == BootstrapStep::SetPixelFormat implies j
        == 6 by {
        assert(p[j] == bootstrap_step_at(j));
        lemma_set_pixel_format_position(j);
    }
    if p.len() > 6 {
        assert(p[4] == bootstrap_step_at(4));
        assert(p[5] == bootstrap_step_at(5));
        lemma_set_pixel_format_position(6);
    }
}

} // verus!
