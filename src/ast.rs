use crate::tick::Tick;
use vstd::prelude::*;

verus! {

/// The host phase that a script function runs in.
#[derive(Clone, Copy, Debug, PartialEq, Eq, Structural)]
pub enum ImagineStage {
    Update,
    Last,
}

/// One statement of a script function body.
#[derive(Debug)]
pub enum ImagineStatement {
    Print { text: String },
}

/// What a statement means: the line of text that `print` writes.
pub ghost enum StatementModel {
    Print { text: Seq<char> },
}

impl View for ImagineStatement {
    type V = StatementModel;

    open spec fn view(&self) -> StatementModel {
        match self {
            ImagineStatement::Print { text } => StatementModel::Print { text: text@ },
        }
    }
}

/// What a parsed function means: its phase, its name and its statements in order.
pub ghost struct FunctionModel {
    pub stage: ImagineStage,
    pub name: Seq<char>,
    pub body: Seq<StatementModel>,
}

/// A parsed script function, together with the change-detection tick that the
/// host keeps for it once it is scheduled.
#[derive(Debug)]
pub struct ImagineFunction {
    pub stage: ImagineStage,
    pub name: String,
    pub body: Vec<ImagineStatement>,
    pub last_run: Tick,
}

pub open spec fn statements_view(body: Seq<ImagineStatement>) -> Seq<StatementModel> {
    body.map_values(|st: ImagineStatement| st@)
}

impl View for ImagineFunction {
    type V = FunctionModel;

    open spec fn view(&self) -> FunctionModel {
        FunctionModel { stage: self.stage, name: self.name@, body: statements_view(self.body@) }
    }
}

pub open spec fn functions_view(items: Seq<ImagineFunction>) -> Seq<FunctionModel> {
    items.map_values(|f: ImagineFunction| f@)
}

/// A parsed script file: its functions in source order.
#[derive(Debug)]
pub struct ImagineFile {
    pub items: Vec<ImagineFunction>,
}

impl View for ImagineFile {
    type V = Seq<FunctionModel>;

    open spec fn view(&self) -> Seq<FunctionModel> {
        functions_view(self.items@)
    }
}

} // verus!
