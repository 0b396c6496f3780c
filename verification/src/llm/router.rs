//! Routing task types to model names, with per-type overrides.

use vstd::prelude::*;

verus! {

/// Task types that can be routed to different models.
#[derive(Clone, Copy, Debug, PartialEq, Eq, Hash)]
pub enum TaskType {
    CodeGeneration,
    ArchitectureDesign,
    Debugging,
    GeneralQuery,
    Orchestration,
}

/// The default model of each task type.
pub open spec fn default_model_of(t: TaskType) -> Seq<char> {
    match t {
        TaskType::CodeGeneration => "kilo-code"@,
        TaskType::ArchitectureDesign => "kilo-architect"@,
        TaskType::Debugging => "kilo-debug"@,
        TaskType::GeneralQuery => "kilo-ask"@,
        TaskType::Orchestration => "kilo-orchestrator"@,
    }
}

/// The slot of each task type in a router's table.
pub open spec fn slot(t: TaskType) -> int {
    match t {
        TaskType::CodeGeneration => 0,
        TaskType::ArchitectureDesign => 1,
        TaskType::Debugging => 2,
        TaskType::GeneralQuery => 3,
        TaskType::Orchestration => 4,
    }
}

impl TaskType {
    /// The model a task of this type goes to by default.
    pub fn default_model(&self) -> (r: &'static str)
        ensures
            r@ == default_model_of(*self),
    {
        match self {
            TaskType::CodeGeneration => "kilo-code",
            TaskType::ArchitectureDesign => "kilo-architect",
            TaskType::Debugging => "kilo-debug",
            TaskType::GeneralQuery => "kilo-ask",
            TaskType::Orchestration => "kilo-orchestrator",
        }
    }

    fn slot(&self) -> (r: usize)
        ensures
            r == slot(*self),
    {
        match self {
            TaskType::CodeGeneration => 0,
            TaskType::ArchitectureDesign => 1,
            TaskType::Debugging => 2,
            TaskType::GeneralQuery => 3,
            TaskType::Orchestration => 4,
        }
    }

    fn of_slot(i: usize) -> (r: TaskType)
        requires
            i < 5,
        ensures
            slot(r) == i,
    {
        if i == 0 {
            TaskType::CodeGeneration
        } else if i == 1 {
            TaskType::ArchitectureDesign
        } else if i == 2 {
            TaskType::Debugging
        } else if i == 3 {
            TaskType::GeneralQuery
        } else {
            TaskType::Orchestration
        }
    }
}

/// Routes tasks to LLM models: a configured override, else the type's default.
pub struct TaskRouter {
    model_map: Vec<Option<String>>,
}

impl TaskRouter {
    /// One table slot per task type.
    pub closed spec fn wf(&self) -> bool {
        self.model_map@.len() == 5
    }

    /// The configured overrides.
    pub closed spec fn view(&self) -> Map<TaskType, Seq<char>> {
        Map::new(
            |t: TaskType| self.model_map@[slot(t)] is Some,
            |t: TaskType| self.model_map@[slot(t)]->0@,
        )
    }

    /// Creates a router from custom mappings; a later mapping of the same
    /// task type replaces an earlier one.
    pub fn new(model_map: Vec<(TaskType, String)>) -> (r: Self)
        ensures
            r.wf(),
            forall|t: TaskType| r.view().contains_key(t) <==> exists|i: int|
                0 <= i < model_map@.len() && (#[trigger] model_map@[i]).0 == t,
            forall|i: int| 0 <= i < model_map@.len()
                && (forall|j: int| i < j < model_map@.len() ==> model_map@[j].0 != (#[trigger] model_map@[i]).0)
                ==> r.view()[model_map@[i].0] == model_map@[i].1@,
    {
        let mut r = TaskRouter::empty();
        let mut k: usize = 0;
        let ghost src = model_map@;
        let n = model_map.len();
        let mut rest = model_map;
        while k < n
            invariant
                r.wf(),
                n == src.len(),
                k <= src.len(),
                forall|t: TaskType| r.view().contains_key(t) <==> exists|i: int|
                    0 <= i < k && (#[trigger] src[i]).0 == t,
                forall|i: int| 0 <= i < k
                    && (forall|j: int| i < j < k ==> src[j].0 != (#[trigger] src[i]).0)
                    ==> r.view()[src[i].0] == src[i].1@,
                rest@ == src.subrange(k as int, src.len() as int),
            decreases n - k,
        {
            let (t, m) = rest.remove(0);
            assert(src[k as int] == (t, m));
            r.set_model(t, m);
            proof {
                assert forall|i: int| 0 <= i < k + 1
                    && (forall|j: int| i < j < k + 1 ==> src[j].0 != (#[trigger] src[i]).0)
                    implies r.view()[src[i].0] == src[i].1@ by {
                    if i < k {
                        assert(src[k as int].0 != src[i].0);
                    }
                }
                assert forall|u: TaskType| r.view().contains_key(u) <==> exists|i: int|
                    0 <= i < k + 1 && (#[trigger] src[i]).0 == u by {
                    if u == t {
                        assert(src[k as int].0 == u);
                    }
                }
            }
            k += 1;
        }
        r
    }

    /// A router with no overrides.
    pub fn empty() -> (r: Self)
        ensures
            r.wf(),
            r.view() == Map::<TaskType, Seq<char>>::empty(),
    {
        let mut v: Vec<Option<String>> = Vec::new();
        v.push(None);
        v.push(None);
        v.push(None);
        v.push(None);
        v.push(None);
        let r = TaskRouter { model_map: v };
        assert(r.view() =~= Map::<TaskType, Seq<char>>::empty());
        r
    }

    /// The model for a task type: its override, else its default model.
    pub fn route(&self, task_type: TaskType) -> (r: String)
        requires
            self.wf(),
        ensures
            r@ == if self.view().contains_key(task_type) {
                self.view()[task_type]
            } else {
                default_model_of(task_type)
            },
    {
        match &self.model_map[task_type.slot()] {
            Some(m) => m.clone(),
            None => task_type.default_model().to_string(),
        }
    }

    /// Sets the model for a task type.
    pub fn set_model(&mut self, task_type: TaskType, model: String)
        requires
            old(self).wf(),
        ensures
            final(self).wf(),
            final(self).view() == old(self).view().insert(task_type, model@),
    {
        let i = task_type.slot();
        self.model_map.set(i, Some(model));
        proof {
            assert forall|t: TaskType| slot(t) == i implies t == task_type by {}
        }
        assert(self.view() =~= old(self).view().insert(task_type, model@));
    }

    /// All configured mappings, in task-type order, each type once.
    pub fn mappings(&self) -> (r: Vec<(TaskType, String)>)
        requires
            self.wf(),
        ensures
            forall|i: int| 0 <= i < r@.len() ==> self.view().contains_key((#[trigger] r@[i]).0)
                && self.view()[r@[i].0] == r@[i].1@,
            forall|t: TaskType| self.view().contains_key(t) ==> exists|i: int|
                0 <= i < r@.len() && (#[trigger] r@[i]).0 == t,
            forall|i: int, j: int| 0 <= i < j < r@.len() ==> slot((#[trigger] r@[i]).0) < slot((#[trigger] r@[j]).0),
    {
        let mut out: Vec<(TaskType, String)> = Vec::new();
        let mut i: usize = 0;
        while i < 5
            invariant
                self.wf(),
                i <= 5,
                forall|k: int| 0 <= k < out@.len() ==> self.view().contains_key((#[trigger] out@[k]).0)
                    && self.view()[out@[k].0] == out@[k].1@,
                forall|t: TaskType| self.view().contains_key(t) && slot(t) < i ==> exists|k: int|
                    0 <= k < out@.len() && (#[trigger] out@[k]).0 == t,
                forall|k: int| 0 <= k < out@.len() ==> slot((#[trigger] out@[k]).0) < i,
                forall|k: int, l: int| 0 <= k < l < out@.len() ==> slot((#[trigger] out@[k]).0) < slot((#[trigger] out@[l]).0),
            decreases 5 - i,
        {
            let t = TaskType::of_slot(i);
            let ghost before = out@;
            match &self.model_map[i] {
                Some(m) => {
                    out.push((t, m.clone()));
                    assert(out@[out@.len() - 1].0 == t);
                },
                None => {},
            }
            proof {
                assert forall|u: TaskType| slot(u) == i implies u == t by {}
                assert forall|u: TaskType| self.view().contains_key(u) && slot(u) < i + 1 implies exists|k: int|
                    0 <= k < out@.len() && (#[trigger] out@[k]).0 == u by {
                    if slot(u) < i {
                        let k = choose|k: int| 0 <= k < before.len() && (#[trigger] before[k]).0 == u;
                        assert(out@[k] == before[k]);
                    } else {
                        assert(u == t);
                        assert(out@[out@.len() - 1].0 == u);
                    }
                }
            }
            i += 1;
        }
        proof {
            assert forall|u: TaskType| slot(u) < 5 by {}
        }
        out
    }
}

/// Law: routing gives the last model set for a type, and leaves the other
/// types as they were.
pub proof fn law_set_then_route(m: Map<TaskType, Seq<char>>, t: TaskType, model: Seq<char>, other: TaskType)
    requires
        other != t,
    ensures
        m.insert(t, model)[t] == model,
        m.insert(t, model).contains_key(other) == m.contains_key(other),
        m.contains_key(other) ==> m.insert(t, model)[other] == m[other],
{
}

impl Default for TaskRouter {
    /// A router with no overrides: every task goes to its default model.
    fn default() -> (r: Self)
        ensures
            r.wf(),
            r.view() == Map::<TaskType, Seq<char>>::empty(),
    {
        TaskRouter::empty()
    }
}

} // verus!
