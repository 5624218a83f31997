use triangle_from_scratch::window_proc::{
    classify_message, creation_result, message_loop_step, plan_message, LoopStep, ProcReturn,
    UserData, WindowAction, WindowMessage,
};
use triangle_from_scratch::win32::{Win32Error, CREATESTRUCTW, MSG};

fn quit(code: i32) -> MSG {
    MSG { message: 0x0012, wParam: code as usize, ..MSG::default() }
}

#[test]
fn quit_message_ends_the_loop_with_its_payload() {
    assert_eq!(message_loop_step(Ok(quit(7))), LoopStep::Exit(7));
    assert_eq!(message_loop_step(Ok(quit(0))), LoopStep::Exit(0));
    assert_eq!(message_loop_step(Ok(quit(-3))), LoopStep::Exit(-3));
}

#[test]
fn other_messages_are_dispatched() {
    for m in [0x0001u32, 0x0002, 0x000F, 0x0010, 0x0081, 0x0100, 0x0013] {
        let msg = MSG { message: m, wParam: 7, ..MSG::default() };
        assert_eq!(message_loop_step(Ok(msg)), LoopStep::Dispatch);
    }
    assert_eq!(message_loop_step(Err(Win32Error(6))), LoopStep::Fail(Win32Error(6)));
}

#[test]
fn nccreate_without_a_parameter_is_refused() {
    let m = classify_message(0x0081, None);
    assert_eq!(m, WindowMessage::NcCreate { has_creation_param: false });
    let plan = plan_message(m, UserData::Missing);
    assert!(plan.actions.is_empty());
    assert_eq!(plan.result, ProcReturn::Value(0));

    let cs = CREATESTRUCTW::default();
    assert_eq!(
        classify_message(0x0081, Some(cs)),
        WindowMessage::NcCreate { has_creation_param: false }
    );
}

#[test]
fn nccreate_with_a_parameter_attaches_it() {
    let cs = CREATESTRUCTW { lpCreateParams: 0x1000, ..CREATESTRUCTW::default() };
    let m = classify_message(0x0081, Some(cs));
    let plan = plan_message(m, UserData::Missing);
    assert_eq!(plan.actions, vec![WindowAction::AttachUserData]);
    assert_eq!(plan.result, ProcReturn::CreationResult);
    assert_eq!(creation_result(Ok(0)), 1);
    assert_eq!(creation_result(Err(Win32Error(5))), 0);
}

#[test]
fn first_paint_runs_setup_once() {
    let first = plan_message(WindowMessage::Paint, UserData::Present { setup_ran: false });
    assert_eq!(
        first.actions,
        vec![
            WindowAction::RunGlSetup,
            WindowAction::MarkSetupRan,
            WindowAction::DrawFrame,
            WindowAction::SwapBuffers,
            WindowAction::RequestRedraw,
        ]
    );
    let later = plan_message(WindowMessage::Paint, UserData::Present { setup_ran: true });
    assert_eq!(
        later.actions,
        vec![WindowAction::DrawFrame, WindowAction::SwapBuffers, WindowAction::RequestRedraw]
    );
    let missing = plan_message(WindowMessage::Paint, UserData::Missing);
    assert_eq!(missing.actions, vec![WindowAction::ReportMissingUserData]);
}

#[test]
fn destroy_reclaims_user_data_once_and_quits() {
    let plan = plan_message(WindowMessage::Destroy, UserData::Present { setup_ran: true });
    assert_eq!(
        plan.actions,
        vec![
            WindowAction::FreeGlLibrary,
            WindowAction::DeleteRenderingContext,
            WindowAction::ReleaseDeviceContext,
            WindowAction::ReclaimUserData,
            WindowAction::PostQuit(0),
        ]
    );
    let none = plan_message(WindowMessage::Destroy, UserData::Missing);
    assert_eq!(none.actions, vec![WindowAction::PostQuit(0)]);
    let failed = plan_message(WindowMessage::Destroy, UserData::LookupFailed(Win32Error(5)));
    assert_eq!(
        failed.actions,
        vec![WindowAction::ReportLookupFailure(Win32Error(5)), WindowAction::PostQuit(0)]
    );
}

#[test]
fn user_data_lifecycle_over_a_window_lifetime() {
    // Drive the plans over a message sequence, keeping the slot as the plans leave it.
    let cs = CREATESTRUCTW { lpCreateParams: 0x1000, ..CREATESTRUCTW::default() };
    let msgs = [
        classify_message(0x0081, Some(cs)),
        classify_message(0x0001, None),
        classify_message(0x000F, None),
        classify_message(0x000F, None),
        classify_message(0x0010, None),
        classify_message(0x0002, None),
        classify_message(0x0082, None),
    ];
    let (mut present, mut setup_ran) = (false, false);
    let (mut attaches, mut reclaims, mut setups) = (0, 0, 0);
    for m in msgs {
        let ud = if present { UserData::Present { setup_ran } } else { UserData::Missing };
        for a in plan_message(m, ud).actions {
            match a {
                WindowAction::AttachUserData => {
                    attaches += 1;
                    present = true;
                    setup_ran = false;
                }
                WindowAction::RunGlSetup => setups += 1,
                WindowAction::MarkSetupRan => setup_ran = true,
                WindowAction::ReclaimUserData => {
                    reclaims += 1;
                    present = false;
                }
                _ => {}
            }
        }
    }
    assert_eq!((attaches, reclaims, setups), (1, 1, 1));
}

#[test]
fn refused_window_never_reclaims() {
    let msgs = [classify_message(0x0081, None), classify_message(0x0002, None)];
    let mut reclaims = 0;
    for m in msgs {
        for a in plan_message(m, UserData::Missing).actions {
            if a == WindowAction::ReclaimUserData {
                reclaims += 1;
            }
        }
    }
    assert_eq!(reclaims, 0);
}

#[test]
fn other_messages_go_to_default_processing() {
    let plan = plan_message(classify_message(0x0100, None), UserData::Missing);
    assert!(plan.actions.is_empty());
    assert_eq!(plan.result, ProcReturn::DefaultProcessing);
    let close = plan_message(classify_message(0x0010, None), UserData::Missing);
    assert_eq!(close.actions, vec![WindowAction::DestroyWindow]);
}
