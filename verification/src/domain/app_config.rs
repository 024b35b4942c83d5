use vstd::prelude::*;
use vstd::string::StringExecFns;

verus! {

/// Where the smart-actions script lives: its folder and its file name.
#[derive(Debug, Clone)]
pub struct AppConfig {
    pub smart_actions_folder: String,
    pub smart_actions_executable: String,
}

/// The path of the smart-actions script inside `folder`.
pub open spec fn script_path(folder: Seq<char>) -> Seq<char> {
    folder + "/smart-actions.sh"@
}

/// The path of the smart-actions script inside `folder`.
pub(crate) fn script_path_in(folder: &String) -> (r: String)
    ensures
        r@ == script_path(folder@),
{
    let mut p = folder.clone();
    p.append("/smart-actions.sh");
    p
}

} // verus!
