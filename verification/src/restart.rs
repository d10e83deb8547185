//! The plan for restarting processes after a run.
//!
//! Each name is handled alone and in list order: end what runs under the
//! name, wait for the system to settle, start the command that the name
//! stands for. Whether a step works out is of no concern to the plan: its
//! driver goes on to the next step either way.

use vstd::prelude::*;
use crate::text::{same_text, trim, trimmed};

verus! {

/// How long to wait between ending a process and starting it again, in
/// milliseconds.
pub const SETTLE_MILLIS: u64 = 100;

/// One step of a restart plan.
#[derive(Debug, PartialEq, Eq)]
pub enum Step {
    /// End every running process of this name.
    Kill(String),
    /// Wait this many milliseconds.
    Wait(u64),
    /// Start this command, and do not wait for it.
    Launch(String),
}

/// A step in mathematical terms.
pub enum StepView {
    Kill(Seq<char>),
    Wait(u64),
    Launch(Seq<char>),
}

impl View for Step {
    type V = StepView;

    open spec fn view(&self) -> StepView {
        match *self {
            Step::Kill(name) => StepView::Kill(name@),
            Step::Wait(millis) => StepView::Wait(millis),
            Step::Launch(command) => StepView::Launch(command@),
        }
    }
}

impl DeepView for Step {
    type V = StepView;

    open spec fn deep_view(&self) -> StepView {
        self@
    }
}

/// The short name that stands for another command.
pub open spec fn alias() -> Seq<char> {
    seq!['z', 'e', 'd']
}

/// The command that [`alias`] stands for.
pub open spec fn aliased() -> Seq<char> {
    seq!['z', 'e', 'd', 'i', 't', 'o', 'r']
}

/// The command to start for `name`: the aliased command where `name`, white
/// space at its ends set aside, is the alias; else `name` as it is.
pub open spec fn command_of(name: Seq<char>) -> Seq<char> {
    if trimmed(name) == alias() {
        aliased()
    } else {
        name
    }
}

/// The plan for `names` with `settle` milliseconds of waiting: three steps
/// for each name, in list order.
pub open spec fn plan_of(names: Seq<Seq<char>>, settle: u64) -> Seq<StepView> {
    Seq::new(
        3 * names.len(),
        |k: int|
            if k % 3 == 0 {
                StepView::Kill(names[k / 3])
            } else if k % 3 == 1 {
                StepView::Wait(settle)
            } else {
                StepView::Launch(command_of(names[k / 3]))
            },
    )
}

/// The command to start for `name`.
pub fn command_for(name: &str) -> (command: String)
    ensures
        command@ == command_of(name@),
{
    proof {
        reveal_strlit("zed");
        reveal_strlit("zeditor");
        assert("zed"@ =~= alias());
        assert("zeditor"@ =~= aliased());
    }
    if same_text(trim(name), "zed") {
        "zeditor".to_owned()
    } else {
        name.to_owned()
    }
}

/// The steps that restart each of `names`, waiting `settle` milliseconds
/// between ending a process and starting its command.
pub fn restart_with(names: &Vec<String>, settle: u64) -> (plan: Vec<Step>)
    ensures
        plan.deep_view() == plan_of(names.deep_view(), settle),
{
    let mut plan: Vec<Step> = Vec::new();
    let mut i: usize = 0;
    while i < names.len()
        invariant
            i <= names.len(),
            plan.len() == 3 * i,
            forall|k: int|
                0 <= k < plan.len() ==> plan[k]@ == plan_of(names.deep_view(), settle)[k],
        decreases names.len() - i,
    {
        let name = names[i].as_str();
        assert(names.deep_view()[i as int] == name@);
        plan.push(Step::Kill(name.to_owned()));
        plan.push(Step::Wait(settle));
        plan.push(Step::Launch(command_for(name)));
        i += 1;
    }
    assert(plan.deep_view() =~= plan_of(names.deep_view(), settle));
    plan
}

/// The steps that restart each of `names` with the usual settling time.
pub fn restart(names: &Vec<String>) -> (plan: Vec<Step>)
    ensures
        plan.deep_view() == plan_of(names.deep_view(), SETTLE_MILLIS),
{
    restart_with(names, SETTLE_MILLIS)
}

/// A plan deals with the names one after the other: the steps for the name
/// at position `i` are the three from position `3 * i`, and they end the
/// process, wait, and start the command, in this order.
pub proof fn law_plan_in_list_order(names: Seq<Seq<char>>, settle: u64, i: int)
    requires
        0 <= i < names.len(),
    ensures
        plan_of(names, settle).len() == 3 * names.len(),
        plan_of(names, settle)[3 * i] == StepView::Kill(names[i]),
        plan_of(names, settle)[3 * i + 1] == StepView::Wait(settle),
        plan_of(names, settle)[3 * i + 2] == StepView::Launch(command_of(names[i])),
{
}

} // verus!
