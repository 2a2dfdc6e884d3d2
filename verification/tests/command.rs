use desk_scripts::command::{first, proceed, Failure, Invocation};

fn words(parts: &[&str]) -> Vec<String> {
    parts.iter().map(|part| part.to_string()).collect()
}

#[test]
fn plain_passes_output_through_and_feeds_nothing() {
    let invocation = Invocation::plain("git", words(&["add", "."]));
    assert_eq!(invocation.program, "git");
    assert_eq!(invocation.args, words(&["add", "."]));
    assert!(!invocation.capture);
    assert_eq!(invocation.input, None);
}

#[test]
fn capturing_collects_output_and_keeps_the_input() {
    let invocation = Invocation::capturing("wl-copy", Vec::new(), Some(vec![1, 2, 3]));
    assert_eq!(invocation.program, "wl-copy");
    assert!(invocation.args.is_empty());
    assert!(invocation.capture);
    assert_eq!(invocation.input, Some(vec![1, 2, 3]));
}

#[test]
fn success_hands_the_output_on() {
    let invocation = Invocation::capturing("grim", words(&["-"]), None);
    let outcome = invocation.conclude(true, "exit status: 0", vec![0x89, b'P', b'N', b'G']);
    assert_eq!(outcome, Ok(vec![0x89, b'P', b'N', b'G']));
}

#[test]
fn success_without_capture_hands_on_the_empty_output() {
    let invocation = Invocation::plain("git", words(&["push"]));
    assert_eq!(invocation.conclude(true, "exit status: 0", Vec::new()), Ok(Vec::new()));
}

#[test]
fn failure_without_capture_reports_command_and_status() {
    let invocation = Invocation::plain("git", words(&["push"]));
    let failure = invocation.conclude(false, "exit status: 1", Vec::new()).unwrap_err();
    assert_eq!(
        failure,
        Failure { command: "git".to_string(), status: "exit status: 1".to_string(), output: None }
    );
    assert_eq!(failure.message(), "Command git exited with exit status exit status: 1");
}

#[test]
fn failure_without_capture_ignores_whatever_output_is_handed_in() {
    let invocation = Invocation::plain("nh", Vec::new());
    let failure = invocation.conclude(false, "signal: 9 (SIGKILL)", b"text".to_vec()).unwrap_err();
    assert_eq!(failure.output, None);
    assert_eq!(failure.message(), "Command nh exited with exit status signal: 9 (SIGKILL)");
}

#[test]
fn failure_with_captured_text_reports_the_output() {
    let invocation = Invocation::capturing("slurp", Vec::new(), None);
    let failure =
        invocation.conclude(false, "exit status: 1", b"selection cancelled\n".to_vec()).unwrap_err();
    assert_eq!(failure.output, Some("selection cancelled\n".to_string()));
    assert_eq!(
        failure.message(),
        "Command slurp exited with exit status exit status: 1 and output selection cancelled\n"
    );
}

#[test]
fn failure_with_captured_text_decodes_utf8() {
    let invocation = Invocation::capturing("grim", Vec::new(), None);
    let failure =
        invocation.conclude(false, "exit status: 2", "größe ✓".as_bytes().to_vec()).unwrap_err();
    assert_eq!(failure.output, Some("größe ✓".to_string()));
}

#[test]
fn failure_with_captured_bytes_that_are_not_text_leaves_the_output_out() {
    let invocation = Invocation::capturing("grim", words(&["-"]), None);
    let failure = invocation.conclude(false, "exit status: 1", vec![0xff, 0xfe, 0x00]).unwrap_err();
    assert_eq!(failure.output, None);
    assert_eq!(failure.message(), "Command grim exited with exit status exit status: 1");
}

#[test]
fn failure_with_empty_captured_output_still_mentions_it() {
    let invocation = Invocation::capturing("wl-copy", Vec::new(), Some(vec![1]));
    let failure = invocation.conclude(false, "exit status: 1", Vec::new()).unwrap_err();
    assert_eq!(failure.output, Some(String::new()));
    assert_eq!(
        failure.message(),
        "Command wl-copy exited with exit status exit status: 1 and output "
    );
}

fn plan_of(length: usize) -> Vec<Invocation> {
    (0..length).map(|index| Invocation::plain(&format!("step{}", index), Vec::new())).collect()
}

fn failed() -> Failure {
    Failure { command: "nh".to_string(), status: "exit status: 1".to_string(), output: None }
}

#[test]
fn a_plan_starts_with_its_first_command() {
    assert_eq!(first(&plan_of(5)), Some(0));
    assert_eq!(first(&plan_of(1)), Some(0));
    assert_eq!(first(&Vec::new()), None);
}

#[test]
fn a_command_that_succeeded_leads_to_the_next() {
    let plan = plan_of(5);
    assert_eq!(proceed(&plan, 0, Ok(Vec::new())), Ok(Some(1)));
    assert_eq!(proceed(&plan, 1, Ok(b"ignored".to_vec())), Ok(Some(2)));
    assert_eq!(proceed(&plan, 3, Ok(Vec::new())), Ok(Some(4)));
}

#[test]
fn the_last_command_ends_the_plan() {
    assert_eq!(proceed(&plan_of(5), 4, Ok(Vec::new())), Ok(None));
    assert_eq!(proceed(&plan_of(1), 0, Ok(Vec::new())), Ok(None));
    assert_eq!(proceed(&plan_of(2), 7, Ok(Vec::new())), Ok(None));
    assert_eq!(proceed(&plan_of(2), usize::MAX, Ok(Vec::new())), Ok(None));
    assert_eq!(proceed(&Vec::new(), 0, Ok(Vec::new())), Ok(None));
}

#[test]
fn a_command_that_failed_ends_the_plan_with_its_failure() {
    let plan = plan_of(5);
    for done in 0..5 {
        assert_eq!(proceed(&plan, done, Err(failed())), Err(failed()));
    }
}

#[test]
fn a_plan_runs_in_order_up_to_the_first_failure() {
    let plan = plan_of(5);
    let mut ran = Vec::new();
    let mut due = first(&plan);
    let mut ending = Ok(());
    while let Some(index) = due {
        ran.push(index);
        let outcome = plan[index].conclude(index != 2, "exit status: 1", Vec::new());
        match proceed(&plan, index, outcome) {
            Ok(next) => due = next,
            Err(failure) => {
                ending = Err(failure);
                due = None;
            }
        }
    }
    assert_eq!(ran, vec![0, 1, 2]);
    assert_eq!(ending.unwrap_err().message(), "Command step2 exited with exit status exit status: 1");
}

#[test]
fn a_plan_without_failure_runs_to_its_end() {
    let plan = plan_of(4);
    let mut ran = Vec::new();
    let mut due = first(&plan);
    while let Some(index) = due {
        ran.push(index);
        due = proceed(&plan, index, plan[index].conclude(true, "exit status: 0", Vec::new())).unwrap();
    }
    assert_eq!(ran, vec![0, 1, 2, 3]);
}
