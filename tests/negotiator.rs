use triangle_from_scratch::negotiator::{
    NegotiationAction, NegotiationStep, Negotiator, Resource,
};
use triangle_from_scratch::win32::Win32Error;

/// Runs a negotiation in which the step `fail_at` fails with error 5, counting acquisitions
/// and recording the releases and the steps performed.
fn run(fail_at: Option<NegotiationStep>) -> (Vec<Resource>, Vec<Resource>, Vec<NegotiationStep>, Result<(), Win32Error>) {
    let mut n = Negotiator::new();
    let mut acquired = Vec::new();
    let mut released = Vec::new();
    let mut performed = Vec::new();
    for _ in 0..32 {
        match n.action() {
            NegotiationAction::Perform(step) => {
                performed.push(step);
                let outcome = if Some(step) == fail_at { Err(Win32Error(5)) } else { Ok(()) };
                if outcome.is_ok() {
                    match step {
                        NegotiationStep::RegisterClass => acquired.push(Resource::WindowClass),
                        NegotiationStep::CreateWindow => acquired.push(Resource::Window),
                        NegotiationStep::GetDeviceContext => acquired.push(Resource::DeviceContext),
                        NegotiationStep::CreateLegacyContext => {
                            acquired.push(Resource::RenderingContext)
                        }
                        _ => {}
                    }
                }
                n.advance(outcome);
            }
            NegotiationAction::Release(r) => {
                released.push(r);
                n.advance(Ok(()));
            }
            NegotiationAction::Finish(result) => return (acquired, released, performed, result),
        }
    }
    panic!("the negotiation did not finish");
}

#[test]
fn successful_negotiation_releases_everything_in_reverse() {
    let (acquired, released, performed, result) = run(None);
    assert_eq!(result, Ok(()));
    assert_eq!(performed.len(), 12);
    assert_eq!(
        released,
        vec![
            Resource::RenderingContext,
            Resource::DeviceContext,
            Resource::Window,
            Resource::WindowClass,
        ]
    );
    let mut reversed = acquired.clone();
    reversed.reverse();
    assert_eq!(released, reversed);
}

#[test]
fn pixel_format_failure_still_releases_earlier_resources() {
    let (acquired, released, performed, result) = run(Some(NegotiationStep::ChoosePixelFormat));
    assert_eq!(result, Err(Win32Error(5)));
    assert_eq!(acquired.len(), released.len());
    assert_eq!(
        released,
        vec![Resource::DeviceContext, Resource::Window, Resource::WindowClass]
    );
    assert!(!performed.contains(&NegotiationStep::SetPixelFormat));
}

#[test]
fn every_failure_point_releases_what_was_acquired() {
    let steps = [
        NegotiationStep::RegisterClass,
        NegotiationStep::CreateWindow,
        NegotiationStep::GetDeviceContext,
        NegotiationStep::ChoosePixelFormat,
        NegotiationStep::SetPixelFormat,
        NegotiationStep::CreateLegacyContext,
        NegotiationStep::MakeCurrent,
        NegotiationStep::QueryExtensions,
        NegotiationStep::ResolveChoosePixelFormat,
        NegotiationStep::ResolveCreateContextAttribs,
        NegotiationStep::ResolveSwapInterval,
        NegotiationStep::ReleaseCurrent,
    ];
    for step in steps {
        let (acquired, released, performed, result) = run(Some(step));
        assert_eq!(result, Err(Win32Error(5)));
        let mut reversed = acquired.clone();
        reversed.reverse();
        assert_eq!(released, reversed);
        assert_eq!(performed.last(), Some(&step));
        let sets = performed.iter().filter(|s| **s == NegotiationStep::SetPixelFormat).count();
        assert!(sets <= 1);
    }
}

#[test]
fn failed_extension_query_ends_the_negotiation() {
    let (acquired, released, performed, result) = run(Some(NegotiationStep::QueryExtensions));
    assert_eq!(result, Err(Win32Error(5)));
    assert_eq!(performed.len(), 8);
    assert_eq!(performed.last(), Some(&NegotiationStep::QueryExtensions));
    assert_eq!(acquired.len(), 4);
    assert_eq!(
        released,
        vec![
            Resource::RenderingContext,
            Resource::DeviceContext,
            Resource::Window,
            Resource::WindowClass,
        ]
    );
}

#[test]
fn failed_class_registration_releases_nothing() {
    let (acquired, released, _, result) = run(Some(NegotiationStep::RegisterClass));
    assert_eq!(result, Err(Win32Error(5)));
    assert!(acquired.is_empty());
    assert!(released.is_empty());
}

use triangle_from_scratch::bootstrap::{Bootstrap, BootstrapAction, BootstrapStep};

fn run_bootstrap(fail_at: Option<BootstrapStep>) -> (Vec<BootstrapStep>, Result<(), Win32Error>) {
    let mut b = Bootstrap::new();
    let mut performed = Vec::new();
    for _ in 0..32 {
        match b.action() {
            BootstrapAction::Perform(step) => {
                performed.push(step);
                b.advance(if Some(step) == fail_at { Err(Win32Error(8)) } else { Ok(()) });
            }
            BootstrapAction::Finish(result) => return (performed, result),
        }
    }
    panic!("the bootstrap did not finish");
}

#[test]
fn bootstrap_runs_every_step_once_in_order() {
    let (performed, result) = run_bootstrap(None);
    assert_eq!(result, Ok(()));
    assert_eq!(performed.len(), 13);
    assert_eq!(performed[0], BootstrapStep::RegisterClass);
    assert_eq!(performed[1], BootstrapStep::Negotiate);
    assert_eq!(&performed[4..7], &[
        BootstrapStep::ChoosePixelFormat,
        BootstrapStep::DescribePixelFormat,
        BootstrapStep::SetPixelFormat,
    ]);
    assert_eq!(performed[12], BootstrapStep::ShowWindow);
    let sets = performed.iter().filter(|s| **s == BootstrapStep::SetPixelFormat).count();
    assert_eq!(sets, 1);
}

#[test]
fn bootstrap_stops_at_the_first_failure() {
    let (performed, result) = run_bootstrap(Some(BootstrapStep::ChoosePixelFormat));
    assert_eq!(result, Err(Win32Error(8)));
    assert_eq!(performed.last(), Some(&BootstrapStep::ChoosePixelFormat));
    assert!(!performed.contains(&BootstrapStep::SetPixelFormat));
    let (performed, result) = run_bootstrap(Some(BootstrapStep::CreateContext));
    assert_eq!(result, Err(Win32Error(8)));
    assert_eq!(performed.len(), 8);
}
