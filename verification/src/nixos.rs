//! Rebuilding a NixOS configuration that is kept under git.
//!
//! Both plans are meant to be run from the directory of the flake, one
//! command after the other, stopping at the first that fails.

use crate::command::{plain, texts, Invocation, InvocationView};
use vstd::prelude::*;

verus! {

/// The view of each invocation of `plan`, in order.
pub open spec fn views(plan: Seq<Invocation>) -> Seq<InvocationView> {
    plan.map_values(|invocation: Invocation| invocation@)
}

/// What `nh` is given to rebuild and switch to the configuration of `device`
/// from the flake in the current directory, followed by `extra` where there
/// is one.
pub open spec fn switch_args(device: Seq<char>, extra: Option<Seq<char>>) -> Seq<Seq<char>> {
    seq!["os"@, "switch"@, "-H"@, device, "."@] + match extra {
        Some(word) => seq![word],
        None => Seq::empty(),
    }
}

/// Edit, stage, rebuild, commit, push.
pub open spec fn configure_plan(
    editor_name: Seq<char>,
    update: bool,
    device: Seq<char>,
) -> Seq<InvocationView> {
    seq![
        plain(editor_name, Seq::empty()),
        plain("git"@, seq!["add"@, "."@]),
        plain(
            "nh"@,
            switch_args(
                device,
                if update {
                    Some("update"@)
                } else {
                    None
                },
            ),
        ),
        plain("git"@, seq!["commit"@, "-a"@]),
        plain("git"@, seq!["push"@]),
    ]
}

/// Stage, then rebuild with updated inputs.
pub open spec fn update_plan(device: Seq<char>) -> Seq<InvocationView> {
    seq![plain("git"@, seq!["add"@, "."@]), plain("nh"@, switch_args(device, Some("--update"@)))]
}

fn git_add() -> (invocation: Invocation)
    ensures
        invocation@ == plain("git"@, seq!["add"@, "."@]),
{
    let mut args: Vec<String> = Vec::new();
    args.push("add".to_owned());
    args.push(".".to_owned());
    assert(texts(args@) =~= seq!["add"@, "."@]);
    Invocation::plain("git", args)
}

fn nh_switch(device: &str, extra: Option<&str>) -> (invocation: Invocation)
    ensures
        invocation@ == plain(
            "nh"@,
            switch_args(
                device@,
                match extra {
                    Some(word) => Some(word@),
                    None => None,
                },
            ),
        ),
{
    let mut args: Vec<String> = Vec::new();
    args.push("os".to_owned());
    args.push("switch".to_owned());
    args.push("-H".to_owned());
    args.push(device.to_owned());
    args.push(".".to_owned());
    match extra {
        Some(word) => {
            args.push(word.to_owned());
            assert(texts(args@) =~= switch_args(device@, Some(word@)));
        },
        None => {
            assert(texts(args@) =~= switch_args(device@, None));
        },
    }
    Invocation::plain("nh", args)
}

/// The commands that open the configuration in the editor, stage what was
/// changed, rebuild and switch to it for `device`, and then commit and push.
/// With `update`, the rebuild is given the extra word `update`.
pub fn nixos_configure(editor_name: &str, update: bool, device: &str) -> (plan: Vec<Invocation>)
    ensures
        views(plan@) == configure_plan(editor_name@, update, device@),
{
    let mut plan: Vec<Invocation> = Vec::new();
    let no_args: Vec<String> = Vec::new();
    assert(texts(no_args@) =~= Seq::empty());
    plan.push(Invocation::plain(editor_name, no_args));
    plan.push(git_add());
    let extra = if update {
        Some("update")
    } else {
        None
    };
    plan.push(nh_switch(device, extra));
    let mut commit: Vec<String> = Vec::new();
    commit.push("commit".to_owned());
    commit.push("-a".to_owned());
    assert(texts(commit@) =~= seq!["commit"@, "-a"@]);
    plan.push(Invocation::plain("git", commit));
    let mut push: Vec<String> = Vec::new();
    push.push("push".to_owned());
    assert(texts(push@) =~= seq!["push"@]);
    plan.push(Invocation::plain("git", push));
    assert(views(plan@) =~= configure_plan(editor_name@, update, device@));
    plan
}

/// The commands that stage what was changed and rebuild and switch to the
/// configuration of `device` with its inputs updated.
pub fn nixos_update(device: &str) -> (plan: Vec<Invocation>)
    ensures
        views(plan@) == update_plan(device@),
{
    let mut plan: Vec<Invocation> = Vec::new();
    plan.push(git_add());
    plan.push(nh_switch(device, Some("--update")));
    assert(views(plan@) =~= update_plan(device@));
    plan
}

} // verus!
