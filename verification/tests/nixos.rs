use desk_scripts::command::Invocation;
use desk_scripts::nixos::{nixos_configure, nixos_update};

fn passed_through(program: &str, args: &[&str]) -> Invocation {
    Invocation {
        program: program.to_string(),
        args: args.iter().map(|arg| arg.to_string()).collect(),
        capture: false,
        input: None,
    }
}

#[test]
fn configure_edits_stages_rebuilds_commits_and_pushes() {
    let plan = nixos_configure("hx", false, "laptop");
    assert_eq!(
        plan,
        vec![
            passed_through("hx", &[]),
            passed_through("git", &["add", "."]),
            passed_through("nh", &["os", "switch", "-H", "laptop", "."]),
            passed_through("git", &["commit", "-a"]),
            passed_through("git", &["push"]),
        ]
    );
}

#[test]
fn configure_with_update_adds_one_word_to_the_rebuild() {
    let plan = nixos_configure("nvim", true, "desktop");
    assert_eq!(plan.len(), 5);
    assert_eq!(plan[2], passed_through("nh", &["os", "switch", "-H", "desktop", ".", "update"]));
    assert_eq!(plan[0], passed_through("nvim", &[]));
    assert_eq!(plan[4], passed_through("git", &["push"]));
}

#[test]
fn configure_takes_the_editor_name_as_one_word() {
    let plan = nixos_configure("code --wait", false, "pc");
    assert_eq!(plan[0].program, "code --wait");
    assert!(plan[0].args.is_empty());
}

#[test]
fn update_stages_and_rebuilds_with_updated_inputs() {
    let plan = nixos_update("laptop");
    assert_eq!(
        plan,
        vec![
            passed_through("git", &["add", "."]),
            passed_through("nh", &["os", "switch", "-H", "laptop", ".", "--update"]),
        ]
    );
}

#[test]
fn the_device_name_is_passed_as_it_is() {
    let plan = nixos_update("my host");
    assert_eq!(plan[1].args[3], "my host");
    let plan = nixos_update("");
    assert_eq!(plan[1].args[3], "");
}
