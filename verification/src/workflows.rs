//! Workflows: named sequences of steps fired by a trigger. Reading workflow
//! files and running steps is the surrounding application's work; the
//! manager stores, looks up, and matches workflows by trigger kind.

use vstd::prelude::*;
use std::collections::HashMap;

use crate::kvlist::{find_key, has_key, KvList};

verus! {

/// What fires a workflow.
#[derive(Clone, Debug, PartialEq)]
pub enum WorkflowTrigger {
    Command { pattern: String },
    KeyBinding { key: String, modifiers: Vec<String> },
    FileChange { pattern: String },
    Schedule { cron: String },
    Manual,
}

/// One thing a workflow step does.
#[derive(Clone, Debug, PartialEq)]
pub enum WorkflowAction {
    RunCommand { command: String, args: Vec<String> },
    SendKeys { keys: String },
    ShowNotification { message: String },
    SetVariable { name: String, value: String },
    CallScript { script: String, language: String },
    HttpRequest { url: String, method: String, body: Option<String> },
    FileOperation { operation: String, path: String },
}

/// One step of a workflow.
#[derive(Clone, Debug, PartialEq)]
pub struct WorkflowStep {
    pub name: String,
    pub action: WorkflowAction,
    pub condition: Option<String>,
    pub timeout: Option<u64>,
}

/// A named workflow.
#[derive(Clone, Debug, PartialEq)]
pub struct Workflow {
    pub name: String,
    pub description: Option<String>,
    pub author: Option<String>,
    pub version: String,
    pub trigger: WorkflowTrigger,
    pub steps: Vec<WorkflowStep>,
    pub variables: Option<HashMap<String, String>>,
}

/// Whether two triggers are of the same kind, whatever their payloads.
pub open spec fn same_trigger_kind(a: WorkflowTrigger, b: WorkflowTrigger) -> bool {
    match (a, b) {
        (WorkflowTrigger::Command { .. }, WorkflowTrigger::Command { .. }) => true,
        (WorkflowTrigger::KeyBinding { .. }, WorkflowTrigger::KeyBinding { .. }) => true,
        (WorkflowTrigger::FileChange { .. }, WorkflowTrigger::FileChange { .. }) => true,
        (WorkflowTrigger::Schedule { .. }, WorkflowTrigger::Schedule { .. }) => true,
        (WorkflowTrigger::Manual, WorkflowTrigger::Manual) => true,
        _ => false,
    }
}

/// The indices of the workflows whose trigger kind matches, in order.
pub open spec fn matching_indices(s: Seq<(String, Workflow)>, t: WorkflowTrigger) -> Seq<int>
    decreases s.len(),
{
    if s.len() == 0 {
        Seq::<int>::empty()
    } else {
        let rest = matching_indices(s.drop_last(), t);
        if same_trigger_kind(s.last().1.trigger, t) {
            rest.push(s.len() - 1)
        } else {
            rest
        }
    }
}

/// Holds every known workflow by name.
pub struct WorkflowManager {
    /// The workflows, by name.
    pub workflows: KvList<Workflow>,
}

impl WorkflowManager {
    pub open spec fn wf(self) -> bool {
        self.workflows.wf()
    }

    /// An empty manager; built-in and discovered workflows are added
    /// through `add_workflow`.
    pub fn new() -> (r: Self)
        ensures
            r.wf(),
            r.workflows.entries@.len() == 0,
    {
        WorkflowManager { workflows: KvList::new() }
    }

    /// Adds or replaces a workflow under its own name.
    pub fn add_workflow(&mut self, workflow: Workflow)
        requires
            old(self).wf(),
        ensures
            final(self).wf(),
            has_key(final(self).workflows.entries@, workflow.name@),
    {
        let name = workflow.name.clone();
        let ghost k = name@;
        self.workflows.insert(name, workflow);
        proof {
            crate::kvlist::lemma_find_key(old(self).workflows.entries@, k);
            if has_key(old(self).workflows.entries@, k) {
                let i = find_key(old(self).workflows.entries@, k);
                crate::kvlist::lemma_has_entry_witness(self.workflows.entries@, k, i);
            } else {
                crate::kvlist::lemma_has_entry_witness(
                    self.workflows.entries@,
                    k,
                    self.workflows.entries@.len() - 1,
                );
            }
        }
    }

    /// The workflow called `name`, if known.
    pub fn get_workflow(&self, name: &str) -> (r: Option<&Workflow>)
        ensures
            has_key(self.workflows.entries@, name@) ==> r == Some(
                &self.workflows.entries@[find_key(self.workflows.entries@, name@)].1,
            ),
            !has_key(self.workflows.entries@, name@) ==> r == None::<&Workflow>,
    {
        self.workflows.get(name)
    }

    /// The names of all known workflows, in the order they were added.
    pub fn list_workflows(&self) -> (r: Vec<&String>)
        ensures
            r@.len() == self.workflows.entries@.len(),
            forall|j: int| 0 <= j < r@.len() ==> r@[j]@ == self.workflows.entries@[j].0@,
    {
        self.workflows.keys()
    }

    /// Every workflow whose trigger is of the same kind as `trigger`, in
    /// the order they were added.
    pub fn find_workflows_by_trigger(&self, trigger: &WorkflowTrigger) -> (r: Vec<&Workflow>)
        ensures
            r@.len() == matching_indices(self.workflows.entries@, *trigger).len(),
            forall|j: int|
                0 <= j < matching_indices(self.workflows.entries@, *trigger).len() ==> 0
                    <= #[trigger] matching_indices(self.workflows.entries@, *trigger)[j]
                    < self.workflows.entries@.len() && r@[j] == self.workflows.entries@[matching_indices(
                    self.workflows.entries@,
                    *trigger,
                )[j]].1,
    {
        let ghost s = self.workflows.entries@;
        let mut r: Vec<&Workflow> = Vec::new();
        let mut i: usize = 0;
        proof {
            assert(matching_indices(s.take(0), *trigger) =~= Seq::<int>::empty());
        }
        while i < self.workflows.entries.len()
            invariant
                i <= s.len(),
                s == self.workflows.entries@,
                r@.len() == matching_indices(s.take(i as int), *trigger).len(),
                forall|j: int|
                    0 <= j < matching_indices(s.take(i as int), *trigger).len() ==> 0 <= #[trigger] matching_indices(
                        s.take(i as int),
                        *trigger,
                    )[j] < s.len() && r@[j] == s[matching_indices(s.take(i as int), *trigger)[j]].1,
            decreases s.len() - i,
        {
            proof {
                assert(s.take(i + 1).drop_last() =~= s.take(i as int));
                assert(s.take(i + 1).last() == s[i as int]);
            }
            let w = &self.workflows.entries[i].1;
            if trigger_kind_eq(&w.trigger, trigger) {
                r.push(w);
                proof {
                    let idx1 = matching_indices(s.take(i + 1), *trigger);
                    let idx0 = matching_indices(s.take(i as int), *trigger);
                    assert(idx1 == idx0.push(i as int));
                    assert forall|j: int| 0 <= j < idx1.len() implies 0 <= idx1[j] < s.len()
                        && r@[j] == s[idx1[j]].1 by {
                        if j < idx0.len() {
                            assert(0 <= matching_indices(s.take(i as int), *trigger)[j] < s.len());
                            assert(idx1[j] == idx0[j]);
                        } else {
                            assert(idx1[j] == i as int);
                        }
                    }
                    assert forall|j: int|
                        0 <= j < matching_indices(s.take(i + 1), *trigger).len() implies 0
                        <= #[trigger] matching_indices(s.take(i + 1), *trigger)[j] < s.len()
                        && r@[j] == s[matching_indices(s.take(i + 1), *trigger)[j]].1 by {
                        assert(0 <= idx1[j] < s.len() && r@[j] == s[idx1[j]].1);
                    }
                }
            }
            i = i + 1;
        }
        proof {
            assert(s.take(s.len() as int) =~= s);
            assert(matching_indices(s, *trigger) == matching_indices(
                s.take(s.len() as int),
                *trigger,
            ));
        }
        r
    }
}

/// Whether two triggers are of the same kind.
fn trigger_kind_eq(a: &WorkflowTrigger, b: &WorkflowTrigger) -> (r: bool)
    ensures
        r == same_trigger_kind(*a, *b),
{
    match (a, b) {
        (WorkflowTrigger::Command { .. }, WorkflowTrigger::Command { .. }) => true,
        (WorkflowTrigger::KeyBinding { .. }, WorkflowTrigger::KeyBinding { .. }) => true,
        (WorkflowTrigger::FileChange { .. }, WorkflowTrigger::FileChange { .. }) => true,
        (WorkflowTrigger::Schedule { .. }, WorkflowTrigger::Schedule { .. }) => true,
        (WorkflowTrigger::Manual, WorkflowTrigger::Manual) => true,
        _ => false,
    }
}

} // verus!
