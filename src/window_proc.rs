//! The decisions of the window procedure and of the message loop. The procedure's caller reads
//! the message and the window's user data, asks `plan_message` what to do, and performs the
//! plan; the loop's caller retrieves a message and asks `message_loop_step`.

use vstd::prelude::*;
use crate::win32::{
    Win32Error, CREATESTRUCTW, MSG, WM_CLOSE, WM_CREATE, WM_DESTROY, WM_NCCREATE, WM_PAINT, WM_QUIT,
};

verus! {

/// A message to the window procedure, as far as the procedure tells messages apart.
#[derive(Clone, Copy, Debug, PartialEq, Eq, Structural)]
pub enum WindowMessage {
    /// `WM_NCCREATE`, and whether it carries a creation parameter.
    NcCreate { has_creation_param: bool },
    /// `WM_CREATE`.
    Create,
    /// `WM_PAINT`.
    Paint,
    /// `WM_CLOSE`.
    Close,
    /// `WM_DESTROY`.
    Destroy,
    /// Any other message.
    Other,
}

pub open spec fn spec_classify_message(message: u32, create: Option<CREATESTRUCTW>) -> WindowMessage {
    if message == WM_NCCREATE {
        WindowMessage::NcCreate {
            has_creation_param: match create {
                Some(cs) => cs.lpCreateParams != 0,
                None => false,
            },
        }
    } else if message == WM_CREATE {
        WindowMessage::Create
    } else if message == WM_PAINT {
        WindowMessage::Paint
    } else if message == WM_CLOSE {
        WindowMessage::Close
    } else if message == WM_DESTROY {
        WindowMessage::Destroy
    } else {
        WindowMessage::Other
    }
}

/// Tells a message apart; `create` is the creation structure that `WM_NCCREATE` points to, or
/// `None` when the pointer is null.
pub fn classify_message(message: u32, create: Option<CREATESTRUCTW>) -> (r: WindowMessage)
    ensures
        r == spec_classify_message(message, create),
{
    if message == WM_NCCREATE {
        WindowMessage::NcCreate {
            has_creation_param: match create {
                Some(cs) => cs.lpCreateParams != 0,
                None => false,
            },
        }
    } else if message == WM_CREATE {
        WindowMessage::Create
    } else if message == WM_PAINT {
        WindowMessage::Paint
    } else if message == WM_CLOSE {
        WindowMessage::Close
    } else if message == WM_DESTROY {
        WindowMessage::Destroy
    } else {
        WindowMessage::Other
    }
}

/// What reading the window's user-data slot gave.
#[derive(Clone, Copy, Debug, PartialEq, Eq, Structural)]
pub enum UserData {
    /// The slot is empty.
    Missing,
    /// The slot holds the window's data, whose one-time OpenGL setup has or has not run.
    Present { setup_ran: bool },
    /// The slot could not be read.
    LookupFailed(Win32Error),
}

/// A thing for the window procedure to do.
#[derive(Clone, Copy, Debug, PartialEq, Eq, Structural)]
pub enum WindowAction {
    /// Store the creation parameter in the window's user-data slot.
    AttachUserData,
    /// Run the one-time OpenGL object setup.
    RunGlSetup,
    /// Record in the user data that the setup has run.
    MarkSetupRan,
    /// Clear the framebuffer and draw the frame.
    DrawFrame,
    /// Swap the front and back buffers.
    SwapBuffers,
    /// Invalidate the client area, asking for the next paint.
    RequestRedraw,
    /// Report that the user-data slot is empty.
    ReportMissingUserData,
    /// Report that the user-data slot could not be read.
    ReportLookupFailure(Win32Error),
    /// Destroy the window.
    DestroyWindow,
    /// Free the OpenGL library.
    FreeGlLibrary,
    /// Delete the rendering context, reporting a failure and going on.
    DeleteRenderingContext,
    /// Release the device context, reporting a failure and going on.
    ReleaseDeviceContext,
    /// Empty the user-data slot and free the data it held.
    ReclaimUserData,
    /// Post the quit message with this exit code.
    PostQuit(i32),
}

/// What the window procedure returns.
#[derive(Clone, Copy, Debug, PartialEq, Eq, Structural)]
pub enum ProcReturn {
    /// This value.
    Value(isize),
    /// What `creation_result` makes of attaching the user data.
    CreationResult,
    /// What the system's default processing returns for the message.
    DefaultProcessing,
}

pub open spec fn spec_plan_actions(msg: WindowMessage, user_data: UserData) -> Seq<WindowAction> {
    match msg {
        WindowMessage::NcCreate { has_creation_param } => if has_creation_param {
            seq![WindowAction::AttachUserData]
        } else {
            seq![]
        },
        WindowMessage::Paint => match user_data {
            UserData::Present { setup_ran } => if setup_ran {
                seq![WindowAction::DrawFrame, WindowAction::SwapBuffers, WindowAction::RequestRedraw]
            } else {
                seq![
                    WindowAction::RunGlSetup,
                    WindowAction::MarkSetupRan,
                    WindowAction::DrawFrame,
                    WindowAction::SwapBuffers,
                    WindowAction::RequestRedraw,
                ]
            },
            UserData::Missing => seq![WindowAction::ReportMissingUserData],
            UserData::LookupFailed(e) => seq![WindowAction::ReportLookupFailure(e)],
        },
        WindowMessage::Close => seq![WindowAction::DestroyWindow],
        WindowMessage::Destroy => match user_data {
            UserData::Present { .. } => seq![
                WindowAction::FreeGlLibrary,
                WindowAction::DeleteRenderingContext,
                WindowAction::ReleaseDeviceContext,
                WindowAction::ReclaimUserData,
                WindowAction::PostQuit(0),
            ],
            UserData::Missing => seq![WindowAction::PostQuit(0)],
            UserData::LookupFailed(e) => seq![
                WindowAction::ReportLookupFailure(e),
                WindowAction::PostQuit(0),
            ],
        },
        _ => seq![],
    }
}

pub open spec fn spec_plan_return(msg: WindowMessage) -> ProcReturn {
    match msg {
        WindowMessage::NcCreate { has_creation_param } => if has_creation_param {
            ProcReturn::CreationResult
        } else {
            ProcReturn::Value(0)
        },
        WindowMessage::Other => ProcReturn::DefaultProcessing,
        _ => ProcReturn::Value(0),
    }
}

/// The actions of one message, to be performed in order, and what the procedure then returns.
pub struct MessagePlan {
    pub actions: Vec<WindowAction>,
    pub result: ProcReturn,
}

/// Decides how the window procedure handles a message:
/// - `WM_NCCREATE` attaches the creation parameter as the window's user data, and refuses the
///   window when there is none;
/// - `WM_PAINT` runs the one-time setup on the first paint, draws, swaps and asks for the next
///   paint;
/// - `WM_CLOSE` destroys the window;
/// - `WM_DESTROY` releases the library, the rendering context and the device context, reclaims
///   the user data, and posts the quit message; with no user data it only posts the quit message;
/// - any other message goes to the system's default processing.
pub fn plan_message(msg: WindowMessage, user_data: UserData) -> (r: MessagePlan)
    ensures
        r.actions@ == spec_plan_actions(msg, user_data),
        r.result == spec_plan_return(msg),
{
    let mut actions: Vec<WindowAction> = Vec::new();
    let result = match msg {
        WindowMessage::NcCreate { has_creation_param } => {
            if has_creation_param {
                actions.push(WindowAction::AttachUserData);
                ProcReturn::CreationResult
            } else {
                ProcReturn::Value(0)
            }
        },
        WindowMessage::Create => ProcReturn::Value(0),
        WindowMessage::Paint => {
            match user_data {
                UserData::Present { setup_ran } => {
                    if !setup_ran {
                        actions.push(WindowAction::RunGlSetup);
                        actions.push(WindowAction::MarkSetupRan);
                    }
                    actions.push(WindowAction::DrawFrame);
                    actions.push(WindowAction::SwapBuffers);
                    actions.push(WindowAction::RequestRedraw);
                },
                UserData::Missing => {
                    actions.push(WindowAction::ReportMissingUserData);
                },
                UserData::LookupFailed(e) => {
                    actions.push(WindowAction::ReportLookupFailure(e));
                },
            }
            ProcReturn::Value(0)
        },
        WindowMessage::Close => {
            actions.push(WindowAction::DestroyWindow);
            ProcReturn::Value(0)
        },
        WindowMessage::Destroy => {
            match user_data {
                UserData::Present { .. } => {
                    actions.push(WindowAction::FreeGlLibrary);
                    actions.push(WindowAction::DeleteRenderingContext);
                    actions.push(WindowAction::ReleaseDeviceContext);
                    actions.push(WindowAction::ReclaimUserData);
                },
                UserData::Missing => {},
                UserData::LookupFailed(e) => {
                    actions.push(WindowAction::ReportLookupFailure(e));
                },
            }
            actions.push(WindowAction::PostQuit(0));
            ProcReturn::Value(0)
        },
        WindowMessage::Other => ProcReturn::DefaultProcessing,
    };
    assert(actions@ == spec_plan_actions(msg, user_data));
    MessagePlan { actions, result }
}

/// What `WM_NCCREATE` returns once the user data was attached or not: 1 to go on creating the
/// window, 0 to refuse it.
pub fn creation_result(attached: Result<isize, Win32Error>) -> (r: isize)
    ensures
        r == if attached is Ok {
            1isize
        } else {
            0isize
        },
{
    if attached.is_ok() {
        1
    } else {
        0
    }
}


/// The window's user-data slot as the procedure's plans leave it: whether it holds the data, and
/// whether the one-time setup has run.
#[derive(Clone, Copy, Debug, PartialEq, Eq, Structural)]
pub struct SlotState {
    pub present: bool,
    pub setup_ran: bool,
}

/// What reading the slot gives.
pub open spec fn lookup(slot: SlotState) -> UserData {
    if slot.present {
        UserData::Present { setup_ran: slot.setup_ran }
    } else {
        UserData::Missing
    }
}

/// The slot after the plan for `msg` is performed: `AttachUserData` fills it with fresh data,
/// `MarkSetupRan` records the setup, `ReclaimUserData` empties it.
pub open spec fn slot_after(slot: SlotState, msg: WindowMessage) -> SlotState {
    let actions = spec_plan_actions(msg, lookup(slot));
    if actions.contains(WindowAction::AttachUserData) {
        SlotState { present: true, setup_ran: false }
    } else if actions.contains(WindowAction::ReclaimUserData) {
        SlotState { present: false, ..slot }
    } else if actions.contains(WindowAction::MarkSetupRan) {
        SlotState { setup_ran: true, ..slot }
    } else {
        slot
    }
}

/// How many of the plans for `msgs`, delivered in order from `slot`, reclaim the user data.
pub open spec fn reclaim_count(slot: SlotState, msgs: Seq<WindowMessage>) -> nat
    decreases msgs.len(),
{
    if msgs.len() == 0 {
        0
    } else {
        (if spec_plan_actions(msgs[0], lookup(slot)).contains(WindowAction::ReclaimUserData) {
            1nat
        } else {
            0nat
        }) + reclaim_count(slot_after(slot, msgs[0]), msgs.drop_first())
    }
}

/// How many of the messages attach user data: `WM_NCCREATE` with a creation parameter.
pub open spec fn attach_count(msgs: Seq<WindowMessage>) -> nat
    decreases msgs.len(),
{
    if msgs.len() == 0 {
        0
    } else {
        (if msgs[0] == (WindowMessage::NcCreate { has_creation_param: true }) {
            1nat
        } else {
            0nat
        }) + attach_count(msgs.drop_first())
    }
}

/// The slot of a window that has received no message yet.
pub open spec fn empty_slot() -> SlotState {
    SlotState { present: false, setup_ran: false }
}

proof fn lemma_reclaims_bounded(slot: SlotState, msgs: Seq<WindowMessage>)
    ensures
        reclaim_count(slot, msgs) <= attach_count(msgs) + if slot.present {
            1nat
        } else {
            0nat
        },
    decreases msgs.len(),
{
    if msgs.len() > 0 {
        let m = msgs[0];
        let actions = spec_plan_actions(m, lookup(slot));
        lemma_reclaims_bounded(slot_after(slot, m), msgs.drop_first());
        if actions.contains(WindowAction::ReclaimUserData) {
            assert(m == WindowMessage::Destroy && slot.present);
            assert(!actions.contains(WindowAction::AttachUserData));
        }
        if actions.contains(WindowAction::AttachUserData) {
            assert(m == (WindowMessage::NcCreate { has_creation_param: true }));
        }
    }
}

/// The user data is reclaimed no more often than it is attached: at most once for a window,
/// which receives one `WM_NCCREATE`, and never when that message carried no creation parameter
/// and the window was refused.
pub proof fn lemma_user_data_reclaimed_at_most_once_per_attach(msgs: Seq<WindowMessage>)
    ensures
        reclaim_count(empty_slot(), msgs) <= attach_count(msgs),
{
    lemma_reclaims_bounded(empty_slot(), msgs);
}

proof fn lemma_reclaimed_by_destroy(slot: SlotState, mid: Seq<WindowMessage>)
    requires
        slot.present,
        forall|i: int|
            0 <= i < mid.len() ==> mid[i] != WindowMessage::Destroy && !(#[trigger] mid[i] is NcCreate),
    ensures
        reclaim_count(slot, mid + seq![WindowMessage::Destroy]) == 1,
    decreases mid.len(),
{
    let msgs = mid + seq![WindowMessage::Destroy];
    if mid.len() == 0 {
        assert(msgs =~= seq![WindowMessage::Destroy]);
        assert(spec_plan_actions(WindowMessage::Destroy, lookup(slot))[3]
            == WindowAction::ReclaimUserData);
        assert(msgs.drop_first() =~= Seq::<WindowMessage>::empty());
        assert(reclaim_count(slot_after(slot, WindowMessage::Destroy), msgs.drop_first()) == 0);
    } else {
        let m = mid[0];
        assert(msgs[0] == m);
        assert(msgs.drop_first() =~= mid.drop_first() + seq![WindowMessage::Destroy]);
        let actions = spec_plan_actions(m, lookup(slot));
        assert(!actions.contains(WindowAction::ReclaimUserData));
        assert(!actions.contains(WindowAction::AttachUserData));
        assert(slot_after(slot, m).present);
        lemma_reclaimed_by_destroy(slot_after(slot, m), mid.drop_first());
        assert(reclaim_count(slot, msgs) == reclaim_count(slot_after(slot, m), msgs.drop_first()));
    }
}

/// A window that is created with its user data and later destroyed has the data reclaimed
/// exactly once.
pub proof fn lemma_user_data_reclaimed_once(mid: Seq<WindowMessage>)
    requires
        forall|i: int|
            0 <= i < mid.len() ==> mid[i] != WindowMessage::Destroy && !(#[trigger] mid[i] is NcCreate),
    ensures
        reclaim_count(
            empty_slot(),
            seq![WindowMessage::NcCreate { has_creation_param: true }] + mid + seq![
                WindowMessage::Destroy,
            ],
        ) == 1,
{
    let create = WindowMessage::NcCreate { has_creation_param: true };
    let msgs = seq![create] + mid + seq![WindowMessage::Destroy];
    assert(msgs[0] == create);
    assert(msgs.drop_first() =~= mid + seq![WindowMessage::Destroy]);
    assert(spec_plan_actions(create, lookup(empty_slot()))[0] == WindowAction::AttachUserData);
    let attached = slot_after(empty_slot(), create);
    assert(attached.present);
    assert(!spec_plan_actions(create, lookup(empty_slot())).contains(WindowAction::ReclaimUserData));
    lemma_reclaimed_by_destroy(attached, mid);
}

/// What the message loop does with what message retrieval gave.
#[derive(Clone, Copy, Debug, PartialEq, Eq, Structural)]
pub enum LoopStep {
    /// Leave the loop; the process exits with this status.
    Exit(i32),
    /// Translate key messages to character messages, then dispatch the message to its window.
    Dispatch,
    /// Retrieval failed.
    Fail(Win32Error),
}

pub open spec fn spec_message_loop_step(retrieved: Result<MSG, Win32Error>) -> LoopStep {
    match retrieved {
        Ok(msg) => if msg.message == WM_QUIT {
            LoopStep::Exit(msg.wParam as i32)
        } else {
            LoopStep::Dispatch
        },
        Err(e) => LoopStep::Fail(e),
    }
}

/// Decides one turn of the message loop: only the quit message ends it, with the exit code that
/// the message carries.
pub fn message_loop_step(retrieved: Result<MSG, Win32Error>) -> (r: LoopStep)
    ensures
        r == spec_message_loop_step(retrieved),
        r is Exit <==> (retrieved matches Ok(msg) && msg.message == WM_QUIT),
{
    match retrieved {
        Ok(msg) => {
            if msg.message == WM_QUIT {
                LoopStep::Exit(msg.wParam as i32)
            } else {
                LoopStep::Dispatch
            }
        },
        Err(e) => LoopStep::Fail(e),
    }
}

/// The quit message that `PostQuitMessage(n)` posts carries `n`, sign-extended, in `wParam`; the
/// loop leaves with exit status `n`.
pub proof fn lemma_quit_exit_code(n: i32, msg: MSG)
    requires
        msg.message == WM_QUIT,
        msg.wParam == n as usize,
    ensures
        spec_message_loop_step(Ok(msg)) == LoopStep::Exit(n),
{
    let w = msg.wParam;
    assert((n as usize) as i32 == n) by (bit_vector);
}

} // verus!
