use crate::ast::{FunctionModel, ImagineFunction, ImagineStatement, StatementModel};
use crate::tick::{check_tick, corrected_last_run, Tick};
use vstd::prelude::*;

verus! {

/// The line that one statement writes.
pub open spec fn statement_output(st: StatementModel) -> Seq<char> {
    match st {
        StatementModel::Print { text } => text,
    }
}

/// The lines that a function writes when it runs: one per statement, in order.
pub open spec fn function_output(f: FunctionModel) -> Seq<Seq<char>> {
    f.body.map_values(|st: StatementModel| statement_output(st))
}

pub open spec fn strings_view(v: Seq<String>) -> Seq<Seq<char>> {
    v.map_values(|s: String| s@)
}

impl ImagineFunction {
    /// The function's declared name, used as its label.
    pub fn name(&self) -> (r: String)
        ensures
            r@ == self.name@,
    {
        self.name.clone()
    }

    /// A script task may run on any worker thread.
    pub fn is_send(&self) -> (r: bool)
        ensures
            r,
    {
        true
    }

    /// A script task never needs sole access to the host's state.
    pub fn is_exclusive(&self) -> (r: bool)
        ensures
            !r,
    {
        false
    }

    /// A script task buffers no writes for later.
    pub fn has_deferred(&self) -> (r: bool)
        ensures
            !r,
    {
        false
    }

    /// A script task takes no host parameters, so they are always valid.
    pub fn validate_param(&self) -> (r: bool)
        ensures
            r,
    {
        true
    }

    /// Runs the function: the lines its statements write, in order.
    pub fn run(&self) -> (r: Vec<String>)
        ensures
            strings_view(r@) == function_output(self@),
    {
        let mut out: Vec<String> = Vec::new();
        let mut k: usize = 0;
        while k < self.body.len()
            invariant
                k <= self.body.len(),
                strings_view(out@) == function_output(self@).take(k as int),
            decreases self.body.len() - k,
        {
            match &self.body[k] {
                ImagineStatement::Print { text } => {
                    out.push(text.clone());
                },
            }
            assert(function_output(self@).take(k + 1) =~= function_output(self@).take(k as int).push(
                function_output(self@)[k as int],
            ));
            assert(strings_view(out@) =~= strings_view(out@).take(k as int).push(out@[k as int]@));
            k += 1;
        }
        assert(function_output(self@).take(k as int) =~= function_output(self@));
        out
    }

    /// Applies the host's wrap-around correction to the stored last-run tick.
    pub fn check_change_tick(&mut self, this_run: Tick)
        ensures
            final(self).last_run == corrected_last_run(old(self).last_run, this_run),
            final(self).last_run.is_recent_at(this_run),
            final(self)@ == old(self)@,
    {
        check_tick(&mut self.last_run, this_run);
    }

    pub fn get_last_run(&self) -> (r: Tick)
        ensures
            r == self.last_run,
    {
        self.last_run
    }

    pub fn set_last_run(&mut self, last_run: Tick)
        ensures
            final(self).last_run == last_run,
            final(self)@ == old(self)@,
    {
        self.last_run = last_run;
    }
}

} // verus!
