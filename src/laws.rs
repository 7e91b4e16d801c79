//! Properties that hold across the parser, the router and the reloader.
use crate::ast::{FunctionModel, ImagineFile, ImagineStage};
use crate::grammar::file_rule;
use crate::parser::{parse_outcome, ParseError};
use crate::reload::reload_result;
use crate::schedule::{in_stage, routed, tick_output, TaskGraphModel};
use vstd::prelude::*;

verus! {

/// Parsing is deterministic: two parses of the same text both succeed with the
/// same functions, or both fail with the same error.
pub proof fn lemma_parse_deterministic(
    text: Seq<char>,
    r1: Result<ImagineFile, ParseError>,
    r2: Result<ImagineFile, ParseError>,
)
    requires
        parse_outcome(text, r1),
        parse_outcome(text, r2),
    ensures
        r1 is Ok <==> r2 is Ok,
        r1 is Ok ==> r1->Ok_0@ == r2->Ok_0@,
        r1 is Err ==> r1->Err_0 == r2->Err_0,
{
}

/// Routing keeps source order: the queue of a stage for two runs of functions one
/// after the other is the queue for the first followed by the queue for the second.
pub proof fn lemma_routing_keeps_order(a: Seq<FunctionModel>, b: Seq<FunctionModel>, stage: ImagineStage)
    ensures
        in_stage(a + b, stage) == in_stage(a, stage) + in_stage(b, stage),
    decreases b.len(),
{
    if b.len() == 0 {
        assert(a + b =~= a);
        assert(in_stage(a, stage) + in_stage(b, stage) =~= in_stage(a, stage));
    } else {
        lemma_routing_keeps_order(a, b.drop_last(), stage);
        assert((a + b).drop_last() =~= a + b.drop_last());
        assert((a + b).last() == b.last());
        if b.last().stage == stage {
            assert(in_stage(a, stage) + in_stage(b.drop_last(), stage).push(b.last()) =~= (in_stage(
                a,
                stage,
            ) + in_stage(b.drop_last(), stage)).push(b.last()));
        }
    }
}

/// Stage correctness: the queue of a stage holds only functions of that stage, and
/// the two queues together hold every function once.
pub proof fn lemma_stage_correct(fs: Seq<FunctionModel>)
    ensures
        forall|i: int|
            0 <= i < routed(fs).update.len() ==> #[trigger] routed(fs).update[i].stage
                == ImagineStage::Update,
        forall|i: int|
            0 <= i < routed(fs).last.len() ==> #[trigger] routed(fs).last[i].stage
                == ImagineStage::Last,
        routed(fs).update.len() + routed(fs).last.len() == fs.len(),
    decreases fs.len(),
{
    if fs.len() > 0 {
        lemma_stage_correct(fs.drop_last());
    }
}

/// A reload from a text that does not parse leaves the live graph exactly as it was.
pub proof fn lemma_failed_reload_keeps_graph(live: TaskGraphModel, text: Seq<char>)
    requires
        file_rule(text) is Err,
    ensures
        reload_result(live, text) == live,
{
}

/// A reload from a text that parses replaces the live graph whole: what runs
/// afterwards is that text's functions in their stages, whatever was live before.
pub proof fn lemma_reload_replaces(live1: TaskGraphModel, live2: TaskGraphModel, text: Seq<char>)
    requires
        file_rule(text) is Ok,
    ensures
        reload_result(live1, text) == reload_result(live2, text),
        reload_result(live1, text) == routed(file_rule(text)->Ok_0),
        tick_output(reload_result(live1, text)) == tick_output(routed(file_rule(text)->Ok_0)),
{
}

} // verus!
