//! The negotiation that discovers the driver's WGL extensions: a throwaway window class, window,
//! device context and legacy rendering context are acquired in turn, the extension string and
//! three extension entry points are read, and everything acquired is released again in reverse
//! order, whichever step fails.
//!
//! `Negotiator` decides; its caller performs. The caller asks for `action`, performs it, and
//! hands the outcome to `advance`, until the action is `Finish`.

use vstd::prelude::*;
use crate::win32::Win32Error;

verus! {

/// A step of the negotiation, in the order in which they are performed.
#[derive(Clone, Copy, Debug, PartialEq, Eq, Structural)]
pub enum NegotiationStep {
    /// Register the throwaway window class.
    RegisterClass,
    /// Create the 1x1 throwaway window.
    CreateWindow,
    /// Acquire the window's device context.
    GetDeviceContext,
    /// Choose a pixel format for the minimal request (see `wgl::legacy_pixel_format`).
    ChoosePixelFormat,
    /// Set the chosen pixel format on the device context.
    SetPixelFormat,
    /// Create a legacy rendering context on the device context.
    CreateLegacyContext,
    /// Make the legacy context current on this thread.
    MakeCurrent,
    /// Read the extension string.
    QueryExtensions,
    /// Look up `wglChoosePixelFormatARB`.
    ResolveChoosePixelFormat,
    /// Look up `wglCreateContextAttribsARB`.
    ResolveCreateContextAttribs,
    /// Look up `wglSwapIntervalEXT`.
    ResolveSwapInterval,
    /// Make no context current on this thread.
    ReleaseCurrent,
}

/// A resource that the negotiation acquires and must release.
#[derive(Clone, Copy, Debug, PartialEq, Eq, Structural)]
pub enum Resource {
    /// Released by unregistering the class.
    WindowClass,
    /// Released by destroying the window.
    Window,
    /// Released by releasing the device context.
    DeviceContext,
    /// Released by deleting the context.
    RenderingContext,
}

/// What the caller is to do next.
#[derive(Clone, Copy, Debug, PartialEq, Eq)]
pub enum NegotiationAction {
    /// Perform a step and report its outcome.
    Perform(NegotiationStep),
    /// Release a resource; its outcome is ignored.
    Release(Resource),
    /// The negotiation is over, with this result.
    Finish(Result<(), Win32Error>),
}

/// The number of steps of the negotiation.
pub const STEP_COUNT: usize = 12;

/// The step at position `i`.
pub open spec fn step_at(i: int) -> NegotiationStep {
    if i == 0 {
        NegotiationStep::RegisterClass
    } else if i == 1 {
        NegotiationStep::CreateWindow
    } else if i == 2 {
        NegotiationStep::GetDeviceContext
    } else if i == 3 {
        NegotiationStep::ChoosePixelFormat
    } else if i == 4 {
        NegotiationStep::SetPixelFormat
    } else if i == 5 {
        NegotiationStep::CreateLegacyContext
    } else if i == 6 {
        NegotiationStep::MakeCurrent
    } else if i == 7 {
        NegotiationStep::QueryExtensions
    } else if i == 8 {
        NegotiationStep::ResolveChoosePixelFormat
    } else if i == 9 {
        NegotiationStep::ResolveCreateContextAttribs
    } else if i == 10 {
        NegotiationStep::ResolveSwapInterval
    } else {
        NegotiationStep::ReleaseCurrent
    }
}

/// The resource that a successful step acquires, if any.
pub open spec fn acquired_by(s: NegotiationStep) -> Option<Resource> {
    match s {
        NegotiationStep::RegisterClass => Some(Resource::WindowClass),
        NegotiationStep::CreateWindow => Some(Resource::Window),
        NegotiationStep::GetDeviceContext => Some(Resource::DeviceContext),
        NegotiationStep::CreateLegacyContext => Some(Resource::RenderingContext),
        _ => None,
    }
}

/// The resources in the order of their acquisition.
pub open spec fn acquisition_order() -> Seq<Resource> {
    seq![Resource::WindowClass, Resource::Window, Resource::DeviceContext, Resource::RenderingContext]
}

/// How many resources the steps before position `i` acquire when they all succeed.
pub open spec fn acquired_before(i: int) -> int {
    if i <= 0 {
        0
    } else if i == 1 {
        1
    } else if i == 2 {
        2
    } else if i <= 5 {
        3
    } else {
        4
    }
}

/// A sequence in reverse order.
pub open spec fn reversed<A>(s: Seq<A>) -> Seq<A> {
    Seq::new(s.len(), |i: int| s[s.len() - 1 - i])
}

/// The state of a negotiation: the position of the next step, how many resources are held (the
/// first `held` of `acquisition_order()`), and the error of the step that failed, if one did.
#[derive(Clone, Copy, Debug, PartialEq, Eq, Structural)]
pub struct NegotiationState {
    pub next: usize,
    pub held: usize,
    pub failure: Option<Win32Error>,
}

impl NegotiationState {
    /// The resources held, in the order of their acquisition.
    pub open spec fn held_resources(self) -> Seq<Resource> {
        acquisition_order().take(self.held as int)
    }

    /// Whether steps are still being performed: nothing has failed and steps remain.
    pub open spec fn performing(self) -> bool {
        self.failure is None && self.next < STEP_COUNT
    }

    pub open spec fn wf(self) -> bool {
        &&& self.next <= STEP_COUNT
        &&& self.held <= acquired_before(self.next as int)
        &&& self.performing() ==> self.held == acquired_before(self.next as int)
    }

    /// What the caller is to do in this state.
    pub open spec fn action(self) -> NegotiationAction {
        if self.performing() {
            NegotiationAction::Perform(step_at(self.next as int))
        } else if self.held > 0 {
            NegotiationAction::Release(acquisition_order()[self.held - 1])
        } else {
            NegotiationAction::Finish(
                match self.failure {
                    None => Ok(()),
                    Some(e) => Err(e),
                },
            )
        }
    }

    /// The state after the current action with the given outcome. A step that succeeds moves on
    /// to the next step and adds what it acquires; a step that fails ends the steps and records
    /// its error. A release goes on to the next release whatever its outcome.
    pub open spec fn advance(self, outcome: Result<(), Win32Error>) -> NegotiationState {
        match self.action() {
            NegotiationAction::Perform(step) => match outcome {
                Err(e) => NegotiationState { failure: Some(e), ..self },
                Ok(()) => NegotiationState {
                    next: (self.next + 1) as usize,
                    held: if acquired_by(step) is Some {
                        (self.held + 1) as usize
                    } else {
                        self.held
                    },
                    failure: None,
                },
            },
            NegotiationAction::Release(_) => NegotiationState {
                held: (self.held - 1) as usize,
                ..self
            },
            NegotiationAction::Finish(_) => self,
        }
    }
}

/// A negotiation in progress.
pub struct Negotiator {
    state: NegotiationState,
}

impl View for Negotiator {
    type V = NegotiationState;

    closed spec fn view(&self) -> NegotiationState {
        self.state
    }
}

impl Negotiator {
    /// A negotiation that has done nothing yet.
    pub fn new() -> (r: Negotiator)
        ensures
            r@ == (NegotiationState { next: 0, held: 0, failure: None }),
            r@.wf(),
    {
        Negotiator { state: NegotiationState { next: 0, held: 0, failure: None } }
    }

    /// What the caller is to do next.
    pub fn action(&self) -> (r: NegotiationAction)
        requires
            self@.wf(),
        ensures
            r == self@.action(),
    {
        let st = self.state;
        if st.failure.is_none() && st.next < STEP_COUNT {
            NegotiationAction::Perform(step_at_index(st.next))
        } else if st.held > 0 {
            NegotiationAction::Release(resource_at_index(st.held - 1))
        } else {
            NegotiationAction::Finish(
                match st.failure {
                    None => Ok(()),
                    Some(e) => Err(e),
                },
            )
        }
    }

    /// Records the outcome of the action that `action` gave.
    pub fn advance(&mut self, outcome: Result<(), Win32Error>)
        requires
            old(self)@.wf(),
        ensures
            final(self)@ == old(self)@.advance(outcome),
            final(self)@.wf(),
    {
        let st = self.state;
        match self.action() {
            NegotiationAction::Perform(step) => {
                let failed = match outcome {
                    Err(e) => {
                        self.state = NegotiationState { failure: Some(e), ..st };
                        true
                    },
                    Ok(()) => false,
                };
                if !failed {
                    let acquires = match step {
                        NegotiationStep::RegisterClass
                        | NegotiationStep::CreateWindow
                        | NegotiationStep::GetDeviceContext
                        | NegotiationStep::CreateLegacyContext => true,
                        _ => false,
                    };
                    self.state = NegotiationState {
                        next: st.next + 1,
                        held: if acquires {
                            st.held + 1
                        } else {
                            st.held
                        },
                        failure: None,
                    };
                }
            },
            NegotiationAction::Release(_) => {
                self.state = NegotiationState { held: st.held - 1, ..st };
            },
            NegotiationAction::Finish(_) => {},
        }
    }
}

fn step_at_index(i: usize) -> (r: NegotiationStep)
    requires
        i < STEP_COUNT,
    ensures
        r == step_at(i as int),
{
    match i {
        0 => NegotiationStep::RegisterClass,
        1 => NegotiationStep::CreateWindow,
        2 => NegotiationStep::GetDeviceContext,
        3 => NegotiationStep::ChoosePixelFormat,
        4 => NegotiationStep::SetPixelFormat,
        5 => NegotiationStep::CreateLegacyContext,
        6 => NegotiationStep::MakeCurrent,
        7 => NegotiationStep::QueryExtensions,
        8 => NegotiationStep::ResolveChoosePixelFormat,
        9 => NegotiationStep::ResolveCreateContextAttribs,
        10 => NegotiationStep::ResolveSwapInterval,
        _ => NegotiationStep::ReleaseCurrent,
    }
}

fn resource_at_index(i: usize) -> (r: Resource)
    requires
        i < 4,
    ensures
        r == acquisition_order()[i as int],
{
    match i {
        0 => Resource::WindowClass,
        1 => Resource::Window,
        2 => Resource::DeviceContext,
        _ => Resource::RenderingContext,
    }
}


/// At most how many actions remain before `Finish`.
pub open spec fn remaining_bound(st: NegotiationState) -> int {
    if st.performing() {
        STEP_COUNT + 4 - st.next
    } else {
        st.held as int
    }
}

/// Whether the negotiation reaches `Finish` when its actions have these outcomes, in order.
pub open spec fn finishes(st: NegotiationState, outcomes: Seq<Result<(), Win32Error>>) -> bool
    decreases outcomes.len(),
{
    if st.action() is Finish {
        true
    } else if outcomes.len() == 0 {
        false
    } else {
        finishes(st.advance(outcomes[0]), outcomes.drop_first())
    }
}

/// The resources acquired along the way, in order, when the actions have these outcomes.
pub open spec fn acquired_along(st: NegotiationState, outcomes: Seq<Result<(), Win32Error>>) -> Seq<
    Resource,
>
    decreases outcomes.len(),
{
    if st.action() is Finish || outcomes.len() == 0 {
        seq![]
    } else {
        (match st.action() {
            NegotiationAction::Perform(step) => if outcomes[0] is Ok && acquired_by(step) is Some {
                seq![acquired_by(step)->0]
            } else {
                seq![]
            },
            _ => seq![],
        }) + acquired_along(st.advance(outcomes[0]), outcomes.drop_first())
    }
}

/// The resources released along the way, in order, when the actions have these outcomes.
pub open spec fn released_along(st: NegotiationState, outcomes: Seq<Result<(), Win32Error>>) -> Seq<
    Resource,
>
    decreases outcomes.len(),
{
    if st.action() is Finish || outcomes.len() == 0 {
        seq![]
    } else {
        (match st.action() {
            NegotiationAction::Release(r) => seq![r],
            _ => seq![],
        }) + released_along(st.advance(outcomes[0]), outcomes.drop_first())
    }
}

/// The steps performed along the way, in order, when the actions have these outcomes.
pub open spec fn performed_along(st: NegotiationState, outcomes: Seq<Result<(), Win32Error>>) -> Seq<
    NegotiationStep,
>
    decreases outcomes.len(),
{
    if st.action() is Finish || outcomes.len() == 0 {
        seq![]
    } else {
        (match st.action() {
            NegotiationAction::Perform(step) => seq![step],
            _ => seq![],
        }) + performed_along(st.advance(outcomes[0]), outcomes.drop_first())
    }
}

/// The state in which a negotiation starts.
pub open spec fn start() -> NegotiationState {
    NegotiationState { next: 0, held: 0, failure: None }
}

proof fn lemma_advance_wf(st: NegotiationState, outcome: Result<(), Win32Error>)
    requires
        st.wf(),
        !(st.action() is Finish),
    ensures
        st.advance(outcome).wf(),
        remaining_bound(st.advance(outcome)) < remaining_bound(st),
        !st.performing() ==> !st.advance(outcome).performing(),
{
}

proof fn lemma_finishes_from(st: NegotiationState, outcomes: Seq<Result<(), Win32Error>>)
    requires
        st.wf(),
        outcomes.len() >= remaining_bound(st),
    ensures
        finishes(st, outcomes),
    decreases outcomes.len(),
{
    if !(st.action() is Finish) {
        lemma_advance_wf(st, outcomes[0]);
        lemma_finishes_from(st.advance(outcomes[0]), outcomes.drop_first());
    }
}

/// A negotiation finishes within sixteen actions, whatever their outcomes.
pub proof fn lemma_negotiation_finishes(outcomes: Seq<Result<(), Win32Error>>)
    requires
        outcomes.len() >= STEP_COUNT + 4,
    ensures
        finishes(start(), outcomes),
{
    lemma_finishes_from(start(), outcomes);
}

proof fn lemma_release_order(st: NegotiationState, outcomes: Seq<Result<(), Win32Error>>)
    requires
        st.wf(),
        finishes(st, outcomes),
    ensures
        released_along(st, outcomes) == reversed(st.held_resources() + acquired_along(st, outcomes)),
        !st.performing() ==> acquired_along(st, outcomes) == Seq::<Resource>::empty(),
    decreases outcomes.len(),
{
    let held = st.held_resources();
    if st.action() is Finish {
        assert(held =~= Seq::<Resource>::empty());
        assert(held + Seq::<Resource>::empty() =~= Seq::<Resource>::empty());
    } else {
        let next = st.advance(outcomes[0]);
        let rest = outcomes.drop_first();
        lemma_advance_wf(st, outcomes[0]);
        lemma_release_order(next, rest);
        let acq = acquired_along(next, rest);
        match st.action() {
            NegotiationAction::Perform(step) => {
                if outcomes[0] is Ok && acquired_by(step) is Some {
                    assert(next.held_resources() =~= held.push(acquired_by(step)->0));
                    assert(held + acquired_along(st, outcomes) =~= next.held_resources() + acq);
                } else {
                    assert(next.held == st.held);
                    assert(acquired_along(st, outcomes) =~= acq);
                }
            },
            NegotiationAction::Release(r) => {
                assert(acq =~= Seq::<Resource>::empty());
                assert(acquired_along(st, outcomes) =~= Seq::<Resource>::empty());
                assert(next.held_resources() =~= held.drop_last());
                assert(held.last() == r);
                assert(released_along(st, outcomes) =~= seq![r] + released_along(next, rest));
                assert(reversed(held + Seq::<Resource>::empty()) =~= seq![r] + reversed(
                    next.held_resources() + acq,
                ));
            },
            NegotiationAction::Finish(_) => {},
        }
    }
}

/// Whatever step fails, a finished negotiation has released each resource it acquired exactly
/// once, in the reverse order of acquisition.
pub proof fn lemma_negotiation_releases_what_it_acquires(outcomes: Seq<Result<(), Win32Error>>)
    requires
        finishes(start(), outcomes),
    ensures
        released_along(start(), outcomes) == reversed(acquired_along(start(), outcomes)),
{
    lemma_release_order(start(), outcomes);
    assert(start().held_resources() + acquired_along(start(), outcomes) =~= acquired_along(
        start(),
        outcomes,
    ));
}


proof fn lemma_performed_in_order(st: NegotiationState, outcomes: Seq<Result<(), Win32Error>>)
    requires
        st.wf(),
    ensures
        st.performing() ==> st.next + performed_along(st, outcomes).len() <= STEP_COUNT,
        !st.performing() ==> performed_along(st, outcomes).len() == 0,
        forall|i: int|
            0 <= i < performed_along(st, outcomes).len() ==> #[trigger] performed_along(
                st,
                outcomes,
            )[i] == step_at(st.next + i),
    decreases outcomes.len(),
{
    if !(st.action() is Finish) && outcomes.len() > 0 {
        let next = st.advance(outcomes[0]);
        let rest = outcomes.drop_first();
        lemma_advance_wf(st, outcomes[0]);
        lemma_performed_in_order(next, rest);
        let p = performed_along(st, outcomes);
        let q = performed_along(next, rest);
        if st.performing() {
            assert(p =~= seq![step_at(st.next as int)] + q);
            if next.performing() {
                assert(next.next == st.next + 1);
            } else {
                assert(q.len() == 0);
            }
            assert forall|i: int| 0 <= i < p.len() implies #[trigger] p[i] == step_at(st.next + i) by {
                if i > 0 {
                    assert(p[i] == q[i - 1]);
                }
            }
        } else {
            assert(p =~= q);
        }
    }
}

/// Different positions hold different steps.
proof fn lemma_step_at_injective(i: int, j: int)
    requires
        0 <= i < j < STEP_COUNT,
    ensures
        step_at(i) != step_at(j),
{
}

/// No step of a negotiation is performed twice; in particular the pixel format of the throwaway
/// window is set at most once.
pub proof fn lemma_no_step_repeats(outcomes: Seq<Result<(), Win32Error>>)
    ensures
        forall|i: int, j: int|
            0 <= i < j < performed_along(start(), outcomes).len() ==> performed_along(
                start(),
                outcomes,
            )[i] != performed_along(start(), outcomes)[j],
{
    lemma_performed_in_order(start(), outcomes);
    let p = performed_along(start(), outcomes);
    assert forall|i: int, j: int| 0 <= i < j < p.len() implies p[i] != p[j] by {
        assert(p[i] == step_at(i));
        assert(p[j] == step_at(j));
        lemma_step_at_injective(i, j);
    }
}

} // verus!
