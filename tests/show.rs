use desktop_node::{show_next, show_outcome, show_start, ShowCommand, ShowFailure, ShowStep};

fn run(outcomes: &[bool]) -> Vec<ShowStep> {
    let mut steps = vec![show_start()];
    let mut step = show_start();
    for ok in outcomes {
        step = show_next(step, *ok);
        steps.push(step);
    }
    steps
}

#[test]
fn project_show_happy_path() {
    let cmd = ShowCommand::new("S".to_string(), "P".to_string(), "/dnsaddr/cloud/tcp/4000".to_string(), false);
    assert_eq!(cmd.space_id, "S");
    assert_eq!(cmd.project_id, "P");
    let steps = run(&[true; 7]);
    assert_eq!(
        steps,
        vec![
            ShowStep::CreateTransport,
            ShowStep::LoadIdentity,
            ShowStep::ResolveRoute,
            ShowStep::OpenClient,
            ShowStep::GetProject,
            ShowStep::PrintResponse,
            ShowStep::StopContext,
            ShowStep::Done,
        ]
    );
    assert_eq!(show_outcome(ShowStep::Done), Some(Ok(())));
}

#[test]
fn project_show_bad_address() {
    let steps = run(&[true, true, false, true]);
    assert_eq!(steps[3], ShowStep::StopAfterFailure(ShowFailure::ParseAddress));
    assert_eq!(steps[4], ShowStep::Failed(ShowFailure::ParseAddress));
    assert_eq!(show_outcome(steps[4]), Some(Err(ShowFailure::ParseAddress)));
    assert_eq!(ShowFailure::ParseAddress.message(), "failed to parse address");
}

#[test]
fn failure_while_stopping_keeps_first_failure() {
    let steps = run(&[false, false]);
    assert_eq!(steps[2], ShowStep::Failed(ShowFailure::Transport));
    assert_eq!(show_next(steps[2], true), steps[2]);
}

#[test]
fn stop_failure_after_success_fails() {
    let steps = run(&[true, true, true, true, true, true, false]);
    assert_eq!(steps[7], ShowStep::Failed(ShowFailure::StopContext));
    assert_eq!(show_outcome(ShowStep::GetProject), None);
}

#[test]
fn run_with_unparseable_address_stops_the_node() {
    let cmd = ShowCommand::new("S".to_string(), "P".to_string(), "not a multiaddr".to_string(), true);
    let seen = std::cell::RefCell::new(Vec::new());
    let r = ShowCommand::run(&cmd, |c: &ShowCommand, step: ShowStep| {
        seen.borrow_mut().push(step);
        !(step == ShowStep::ResolveRoute && c.address == "not a multiaddr")
    });
    assert_eq!(r, Err(ShowFailure::ParseAddress));
    assert_eq!(
        seen.into_inner(),
        vec![
            ShowStep::CreateTransport,
            ShowStep::LoadIdentity,
            ShowStep::ResolveRoute,
            ShowStep::StopAfterFailure(ShowFailure::ParseAddress),
        ]
    );
}

#[test]
fn run_happy_path_ends_with_stop() {
    let cmd = ShowCommand::new("S".to_string(), "P".to_string(), "/dnsaddr/cloud/tcp/4000".to_string(), false);
    let seen = std::cell::RefCell::new(Vec::new());
    let r = ShowCommand::run(&cmd, |_c: &ShowCommand, step: ShowStep| {
        seen.borrow_mut().push(step);
        true
    });
    assert_eq!(r, Ok(()));
    let seen = seen.into_inner();
    assert_eq!(seen.len(), 7);
    assert_eq!(seen[6], ShowStep::StopContext);
}

#[test]
fn each_failing_step_reports_its_own_failure() {
    assert_eq!(run(&[true, false, true])[3], ShowStep::Failed(ShowFailure::Identity));
    assert_eq!(run(&[true, true, true, false, true])[5], ShowStep::Failed(ShowFailure::Client));
    assert_eq!(run(&[true, true, true, true, false, false])[6], ShowStep::Failed(ShowFailure::Request));
    assert_eq!(ShowFailure::Request.message(), "failed to get the project");
}
