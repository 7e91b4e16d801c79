use crate::ast::{functions_view, FunctionModel, ImagineFile, ImagineFunction, ImagineStage};
use crate::task::{function_output, strings_view};
use vstd::prelude::*;

verus! {

/// The functions of `fs` whose stage is `stage`, in their order in `fs`.
pub open spec fn in_stage(fs: Seq<FunctionModel>, stage: ImagineStage) -> Seq<FunctionModel>
    decreases fs.len(),
{
    if fs.len() == 0 {
        seq![]
    } else if fs.last().stage == stage {
        in_stage(fs.drop_last(), stage).push(fs.last())
    } else {
        in_stage(fs.drop_last(), stage)
    }
}

/// The lines that the functions of a phase write when the phase runs, one function after another.
pub open spec fn phase_output(fs: Seq<FunctionModel>) -> Seq<Seq<char>>
    decreases fs.len(),
{
    if fs.len() == 0 {
        seq![]
    } else {
        phase_output(fs.drop_last()) + function_output(fs.last())
    }
}

/// The script tasks of the two phases, each queue in registration order.
pub ghost struct TaskGraphModel {
    pub update: Seq<FunctionModel>,
    pub last: Seq<FunctionModel>,
}

/// The graph that a script file routes into: each function in the queue of its stage,
/// in source order.
pub open spec fn routed(fs: Seq<FunctionModel>) -> TaskGraphModel {
    TaskGraphModel {
        update: in_stage(fs, ImagineStage::Update),
        last: in_stage(fs, ImagineStage::Last),
    }
}

/// The lines written by one tick of a graph: the `Update` phase, then the `Last` phase.
pub open spec fn tick_output(g: TaskGraphModel) -> Seq<Seq<char>> {
    phase_output(g.update) + phase_output(g.last)
}

/// The script-defined tasks held by the host's schedule: one queue per phase.
#[derive(Debug)]
pub struct TaskGraph {
    pub update: Vec<ImagineFunction>,
    pub last: Vec<ImagineFunction>,
}

impl View for TaskGraph {
    type V = TaskGraphModel;

    open spec fn view(&self) -> TaskGraphModel {
        TaskGraphModel { update: functions_view(self.update@), last: functions_view(self.last@) }
    }
}

/// Runs the functions of one phase queue in order.
fn run_phase(queue: &Vec<ImagineFunction>) -> (r: Vec<String>)
    ensures
        strings_view(r@) == phase_output(functions_view(queue@)),
{
    let mut out: Vec<String> = Vec::new();
    let mut k: usize = 0;
    while k < queue.len()
        invariant
            k <= queue.len(),
            strings_view(out@) == phase_output(functions_view(queue@).take(k as int)),
        decreases queue.len() - k,
    {
        let lines = queue[k].run();
        let ghost before = out@;
        let mut j: usize = 0;
        while j < lines.len()
            invariant
                j <= lines.len(),
                strings_view(out@) == strings_view(before) + strings_view(lines@).take(j as int),
            decreases lines.len() - j,
        {
            let ghost prev = out@;
            out.push(lines[j].clone());
            assert(strings_view(out@) =~= strings_view(prev).push(lines@[j as int]@));
            assert(strings_view(lines@).take(j + 1) =~= strings_view(lines@).take(j as int).push(
                lines@[j as int]@,
            ));
            assert((strings_view(before) + strings_view(lines@).take(j as int)).push(lines@[j as int]@)
                =~= strings_view(before) + strings_view(lines@).take(j + 1));
            j += 1;
        }
        assert(strings_view(lines@).take(j as int) =~= strings_view(lines@));
        let ghost fs = functions_view(queue@);
        assert(fs.take(k + 1).drop_last() =~= fs.take(k as int));
        assert(fs.take(k + 1).last() == queue@[k as int]@);
        k += 1;
    }
    assert(functions_view(queue@).take(k as int) =~= functions_view(queue@));
    out
}

impl TaskGraph {
    /// A graph with no script tasks.
    pub fn new() -> (r: TaskGraph)
        ensures
            r@.update.len() == 0,
            r@.last.len() == 0,
    {
        TaskGraph { update: Vec::new(), last: Vec::new() }
    }

    /// Number of script tasks in the graph, over both phases.
    pub fn task_count(&self) -> (r: usize)
        requires
            self.update.len() + self.last.len() <= usize::MAX,
        ensures
            r == self@.update.len() + self@.last.len(),
    {
        self.update.len() + self.last.len()
    }

    /// Runs one tick: every `Update` task in order, then every `Last` task in order.
    pub fn run_tick(&self) -> (r: Vec<String>)
        ensures
            strings_view(r@) == tick_output(self@),
    {
        let mut out = run_phase(&self.update);
        let mut tail = run_phase(&self.last);
        let ghost a = out@;
        let ghost b = tail@;
        out.append(&mut tail);
        assert(strings_view(out@) =~= strings_view(a) + strings_view(b));
        out
    }
}

impl ImagineFile {
    /// Registers each function of the file into the queue of its stage, after what
    /// the queues already hold and in source order.
    pub fn apply(self, graph: &mut TaskGraph)
        ensures
            final(graph)@.update == old(graph)@.update + in_stage(self@, ImagineStage::Update),
            final(graph)@.last == old(graph)@.last + in_stage(self@, ImagineStage::Last),
    {
        let ghost all = self@;
        let mut items = self.items;
        let ghost n = items.len();
        let mut k: usize = 0;
        assert(all.take(0) =~= Seq::<FunctionModel>::empty());
        assert(old(graph)@.update + Seq::<FunctionModel>::empty() =~= old(graph)@.update);
        assert(old(graph)@.last + Seq::<FunctionModel>::empty() =~= old(graph)@.last);
        while items.len() > 0
            invariant
                k + items.len() == n,
                all.len() == n,
                functions_view(items@) == all.subrange(k as int, n as int),
                graph@.update == old(graph)@.update + in_stage(all.take(k as int), ImagineStage::Update),
                graph@.last == old(graph)@.last + in_stage(all.take(k as int), ImagineStage::Last),
            decreases items.len(),
        {
            let ghost prev = items@;
            assert(functions_view(prev)[0] == prev[0]@);
            let f = items.remove(0);
            assert(functions_view(items@) =~= functions_view(prev).subrange(1, prev.len() as int));
            assert(f@ == all[k as int]);
            assert(all.take(k + 1).drop_last() =~= all.take(k as int));
            let ghost before_update = graph@.update;
            let ghost before_last = graph@.last;
            match f.stage {
                ImagineStage::Update => {
                    graph.update.push(f);
                    assert(graph@.update =~= before_update.push(f@));
                },
                ImagineStage::Last => {
                    graph.last.push(f);
                    assert(graph@.last =~= before_last.push(f@));
                },
            }
            k += 1;
        }
        assert(all.take(k as int) =~= all);
    }
}

} // verus!
