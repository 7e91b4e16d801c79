use crate::ast::{FunctionModel, ImagineFile};
use crate::grammar::{file_rule, Expected};
use crate::parser::ParseError;
use crate::schedule::{routed, TaskGraph, TaskGraphModel};
use vstd::prelude::*;

verus! {

/// Why a reload left the live graph as it was.
#[derive(Debug)]
pub enum BuildError {
    /// The script text could not be read; the message says why.
    Io { message: String },
    /// The script text does not match the grammar.
    Parse(ParseError),
}

/// What the reload button shows.
#[derive(Clone, Copy, Debug, PartialEq, Eq, Structural)]
pub enum ButtonLabel {
    /// Shown while a press has asked for a reload.
    Reloading,
    /// Shown otherwise.
    ReloadMods,
}

/// The live graph after a reload from `text`: the graph that `text` routes into
/// where it parses, the graph that was live otherwise.
pub open spec fn reload_result(live: TaskGraphModel, text: Seq<char>) -> TaskGraphModel {
    match file_rule(text) {
        Ok(fs) => routed(fs),
        Err(_) => live,
    }
}

/// Holds the live script task graph and replaces it, whole, on reload.
#[derive(Debug)]
pub struct HotReloader {
    /// The script tasks that the host schedule runs.
    pub live: TaskGraph,
    /// Whether a reload has been asked for and not yet built.
    pub in_flight: bool,
}

/// Builds the graph that a script text routes into.
fn build_graph(source: &str) -> (r: Result<TaskGraph, ParseError>)
    ensures
        match r {
            Ok(g) => file_rule(source@) is Ok && g@ == routed(file_rule(source@)->Ok_0),
            Err(err) => file_rule(source@) == Err::<Seq<FunctionModel>, (int, Expected)>(
                (err.offset as int, err.expected),
            ),
        },
{
    match ImagineFile::parse(source) {
        Ok(file) => {
            let mut graph = TaskGraph::new();
            let ghost fs = file@;
            file.apply(&mut graph);
            assert(graph@.update =~= routed(fs).update);
            assert(graph@.last =~= routed(fs).last);
            Ok(graph)
        },
        Err(err) => Err(err),
    }
}

impl HotReloader {
    /// The startup build: parses the script text and routes its functions into a
    /// fresh live graph. A text that does not parse gives its parse error.
    pub fn cold_build(source: &str) -> (r: Result<HotReloader, ParseError>)
        ensures
            match r {
                Ok(m) => file_rule(source@) is Ok && m.live@ == routed(file_rule(source@)->Ok_0)
                    && !m.in_flight,
                Err(err) => file_rule(source@) == Err::<Seq<FunctionModel>, (int, Expected)>(
                    (err.offset as int, err.expected),
                ),
            },
    {
        match build_graph(source) {
            Ok(live) => Ok(HotReloader { live, in_flight: false }),
            Err(err) => Err(err),
        }
    }

    /// Asks for a reload. Gives `true` where a build should start now, and `false`
    /// where one was already asked for, so that repeated requests make one build.
    pub fn request_reload(&mut self) -> (start: bool)
        ensures
            start == !old(self).in_flight,
            final(self).in_flight,
            final(self).live == old(self).live,
    {
        let start = !self.in_flight;
        self.in_flight = true;
        start
    }

    /// The reload button's reaction to its interaction state: a press asks for a
    /// reload and shows that it is under way; otherwise the button invites a reload.
    pub fn button_clicked(&mut self, pressed: bool) -> (r: ButtonLabel)
        ensures
            pressed ==> r == ButtonLabel::Reloading && final(self).in_flight,
            !pressed ==> r == ButtonLabel::ReloadMods && final(self).in_flight == old(self).in_flight,
            final(self).live == old(self).live,
    {
        if pressed {
            self.request_reload();
            ButtonLabel::Reloading
        } else {
            ButtonLabel::ReloadMods
        }
    }

    /// The hot build, given what reading the script gave: the text, or why it could
    /// not be read. The new graph is built apart from the live one and replaces it
    /// whole only where the text parses; on any failure the live graph is untouched.
    pub fn hot_build(&mut self, source: Result<String, String>) -> (r: Result<(), BuildError>)
        ensures
            !final(self).in_flight,
            match source {
                Err(message) => r matches Err(BuildError::Io { message: m }) && m@ == message@
                    && final(self).live == old(self).live,
                Ok(text) => final(self).live@ == reload_result(old(self).live@, text@) && match file_rule(
                    text@,
                ) {
                    Ok(_) => r is Ok,
                    Err((offset, expected)) => r matches Err(BuildError::Parse(err))
                        && err.offset == offset && err.expected == expected
                        && final(self).live == old(self).live,
                },
            },
    {
        self.in_flight = false;
        match source {
            Err(message) => Err(BuildError::Io { message }),
            Ok(text) => match build_graph(text.as_str()) {
                Ok(shadow) => {
                    self.live = shadow;
                    Ok(())
                },
                Err(err) => Err(BuildError::Parse(err)),
            },
        }
    }
}

} // verus!
