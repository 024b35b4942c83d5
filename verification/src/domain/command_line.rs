use vstd::prelude::*;

verus! {

/// A program to run with its arguments.
#[derive(Debug, Clone)]
pub struct CommandLine {
    pub program: String,
    pub args: Vec<String>,
}

/// A command line as text: the program and the arguments.
pub struct CommandLineModel {
    pub program: Seq<char>,
    pub args: Seq<Seq<char>>,
}

impl View for CommandLine {
    type V = CommandLineModel;

    open spec fn view(&self) -> CommandLineModel {
        CommandLineModel { program: self.program@, args: self.args@.map_values(|a: String| a@) }
    }
}

} // verus!
