use vstd::prelude::*;

verus! {

/// A smart action as the user interface describes it. Each element of
/// `args` is one argument's map, given as its key-value pairs; the key
/// `arg` names the option and the other key holds its value; as in a map,
/// each key occurs once.
pub struct SmartAction {
    pub name: String,
    pub value: String,
    pub description: String,
    pub args: Vec<Vec<(String, String)>>,
}

/// The arguments of a smart action as text.
pub open spec fn args_view(args: Seq<Vec<(String, String)>>) -> Seq<Seq<(Seq<char>, Seq<char>)>> {
    args.map_values(|m: Vec<(String, String)>| m@.map_values(|p: (String, String)| (p.0@, p.1@)))
}

/// What the application keeps of the current smart action: the value
/// that selects it in the script, and its arguments.
pub struct SmartActionState {
    pub value: String,
    pub args: Vec<Vec<(String, String)>>,
}

impl SmartActionState {
    /// The state of a newly selected smart action.
    pub fn new(smart_action: SmartAction) -> (r: Self)
        ensures
            r.value == smart_action.value,
            r.args == smart_action.args,
    {
        SmartActionState { value: smart_action.value, args: smart_action.args }
    }
}

/// How a smart action's process ended.
#[derive(Debug, Clone, Copy, PartialEq, Eq, Structural)]
pub enum SmartActionStatus {
    COMPLETED,
    FAILED,
}

} // verus!
