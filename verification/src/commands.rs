//! What the user interface's startup request computes: the script to ask,
//! the actions it lists, and the metadata gathered from their configurations.
use crate::domain::action_config::{parse_action_config, ActionConfig, ActionConfigModel};
use crate::domain::app_config::AppConfig;
use crate::domain::command_line::CommandLine;
use crate::domain::json_value::{
    action_names_from_value, action_names_of, json_of_text, opt_view, read_json, JsonValue,
};
use crate::domain::language::{language_code, Language};
use crate::domain::ActionsMetadata;
use crate::domain::startup_ui_metadata::StartupUIMetadata;
use crate::ordered_map::{
    action_map_entries, action_map_insert, entries_insert, keys_distinct,
    lemma_entries_insert_distinct, lemma_entries_insert_map,
};
use std::io::Error;
use vstd::prelude::*;
use vstd::string::StringExecFns;

verus! {

/// The names that are present, in order.
pub open spec fn present_names(items: Seq<Option<Seq<char>>>) -> Seq<Seq<char>>
    decreases items.len(),
{
    if items.len() == 0 {
        Seq::<Seq<char>>::empty()
    } else {
        let prev = present_names(items.drop_last());
        match items.last() {
            Some(n) => prev.push(n),
            None => prev,
        }
    }
}

/// How many of the items hold a name.
pub open spec fn count_present(items: Seq<Option<Seq<char>>>) -> nat
    decreases items.len(),
{
    if items.len() == 0 {
        0
    } else {
        count_present(items.drop_last()) + if items.last() is Some {
            1nat
        } else {
            0nat
        }
    }
}

/// Every item that holds a name gives that name, in order, and an item
/// without one gives nothing: the names of two lists one after the other
/// are the names of the first followed by those of the second; one more
/// item with a name adds exactly that name at the end, one without adds
/// nothing; and there are as many names as items that hold one.
pub proof fn lemma_present_names_keep_every_name(
    xs: Seq<Option<Seq<char>>>,
    ys: Seq<Option<Seq<char>>>,
    n: Seq<char>,
)
    ensures
        present_names(xs + ys) == present_names(xs) + present_names(ys),
        present_names(xs.push(Some(n))) == present_names(xs).push(n),
        present_names(xs.push(None)) == present_names(xs),
        present_names(seq![Some(n)]) == seq![n],
        present_names(xs).len() == count_present(xs),
    decreases ys.len(), xs.len(),
{
    assert(xs.push(Some(n)).drop_last() =~= xs);
    assert(xs.push(None::<Seq<char>>).drop_last() =~= xs);
    assert(seq![Some(n)].drop_last() =~= Seq::<Option<Seq<char>>>::empty());
    assert(seq![Some(n)].last() == Some(n));
    assert(present_names(Seq::<Option<Seq<char>>>::empty()).push(n) =~= seq![n]);
    if ys.len() == 0 {
        assert(xs + ys =~= xs);
        assert(present_names(xs) + present_names(ys) =~= present_names(xs));
    } else {
        lemma_present_names_keep_every_name(xs, ys.drop_last(), n);
        assert((xs + ys).drop_last() =~= xs + ys.drop_last());
        assert((xs + ys).last() == ys.last());
        match ys.last() {
            Some(m) => {
                assert(present_names(xs) + present_names(ys) =~= (present_names(xs)
                    + present_names(ys.drop_last())).push(m));
            },
            None => {},
        }
    }
    if xs.len() > 0 {
        lemma_present_names_keep_every_name(xs.drop_last(), seq![], n);
    }
}

/// The action names that the script's JSON answer lists, in order: the
/// present `action_name`s of the array's elements; none when the answer
/// could not be read as JSON or is not an array.
pub open spec fn listed_action_names(parsed: Option<JsonValue>) -> Seq<Seq<char>> {
    match parsed {
        Some(v) => match action_names_of(v) {
            Some(items) => present_names(items),
            None => Seq::<Seq<char>>::empty(),
        },
        None => Seq::<Seq<char>>::empty(),
    }
}

/// The path of the script: its folder, a slash and its file name.
pub fn startup_script_path(config: &AppConfig) -> (r: String)
    ensures
        r@ == config.smart_actions_folder@ + "/"@ + config.smart_actions_executable@,
{
    let mut p = config.smart_actions_folder.clone();
    p.append("/");
    p.append(config.smart_actions_executable.as_str());
    p
}

/// The command that asks the script for the list of actions.
pub fn get_actions_command(script_path: &str) -> (r: CommandLine)
    ensures
        r@.program == script_path@,
        r@.args == seq!["get_actions_json"@],
{
    let mut args: Vec<String> = Vec::new();
    args.push(String::from_str("get_actions_json"));
    let r = CommandLine { program: String::from_str(script_path), args };
    assert(r@.args =~= seq!["get_actions_json"@]);
    r
}

/// The command that asks the script for an action's configuration.
pub fn print_config_command(script_path: &str, action_name: &str) -> (r: CommandLine)
    ensures
        r@.program == script_path@,
        r@.args == seq![action_name@, "--print-config"@],
{
    let mut args: Vec<String> = Vec::new();
    args.push(String::from_str(action_name));
    args.push(String::from_str("--print-config"));
    let r = CommandLine { program: String::from_str(script_path), args };
    assert(r@.args =~= seq![action_name@, "--print-config"@]);
    r
}

/// The action names listed in the script's JSON answer, read by the
/// JSON reader (`None` when it could not be read), in order; none when the
/// answer is not an array.
pub fn startup_action_names(parsed: Option<&JsonValue>) -> (r: Vec<String>)
    ensures
        r@.map_values(|s: String| s@) == listed_action_names(
            match parsed {
                Some(v) => Some(*v),
                None => None,
            },
        ),
{
    let mut names: Vec<String> = Vec::new();
    let v = match parsed {
        Some(v) => v,
        None => {
            assert(names@.map_values(|s: String| s@) =~= Seq::<Seq<char>>::empty());
            return names;
        },
    };
    let items = match action_names_from_value(v) {
        Some(items) => items,
        None => {
            assert(names@.map_values(|s: String| s@) =~= Seq::<Seq<char>>::empty());
            return names;
        },
    };
    let ghost iv = items@.map_values(|o: Option<String>| opt_view(o));
    let mut i: usize = 0;
    assert(names@.map_values(|s: String| s@) =~= present_names(iv.subrange(0, 0)));
    while i < items.len()
        invariant
            iv == items@.map_values(|o: Option<String>| opt_view(o)),
            i <= items.len(),
            names@.map_values(|s: String| s@) == present_names(iv.subrange(0, i as int)),
        decreases items.len() - i,
    {
        assert(iv.subrange(0, i + 1).drop_last() =~= iv.subrange(0, i as int));
        assert(iv.subrange(0, i + 1).last() == iv[i as int]);
        match &items[i] {
            Some(n) => {
                let ghost prev = names@.map_values(|s: String| s@);
                names.push(n.clone());
                assert(names@.map_values(|s: String| s@) =~= prev.push(n@));
            },
            None => {},
        }
        i = i + 1;
    }
    assert(iv.subrange(0, items.len() as int) =~= iv);
    names
}

/// The action names listed in the script's JSON answer `text`, in order;
/// none when the text is not JSON or not a JSON array.
pub fn action_names_from_text(text: &str) -> (r: Vec<String>)
    ensures
        r@.map_values(|s: String| s@) == listed_action_names(json_of_text(text@)),
{
    let parsed = read_json(text);
    match &parsed {
        Some(v) => startup_action_names(Some(v)),
        None => startup_action_names(None),
    }
}

/// The configurations by name that the script's answers give, read in
/// order: each answer is parsed and recorded under its action's name, a
/// name given again replacing the earlier configuration in place.
pub open spec fn action_config_entries(outputs: Seq<(Seq<char>, Seq<char>)>) -> Seq<(Seq<char>, ActionConfigModel)>
    decreases outputs.len(),
{
    if outputs.len() == 0 {
        Seq::empty()
    } else {
        entries_insert(
            action_config_entries(outputs.drop_last()),
            outputs.last().0,
            parse_action_config(outputs.last().1),
        )
    }
}

/// Whatever the script answers, the startup metadata names each action
/// once.
pub proof fn lemma_action_config_entries_distinct(outputs: Seq<(Seq<char>, Seq<char>)>)
    ensures
        keys_distinct(action_config_entries(outputs)),
    decreases outputs.len(),
{
    if outputs.len() > 0 {
        lemma_action_config_entries_distinct(outputs.drop_last());
        lemma_entries_insert_distinct(
            action_config_entries(outputs.drop_last()),
            outputs.last().0,
            parse_action_config(outputs.last().1),
        );
    }
}

/// The startup metadata: whether sounds are enabled (not when that could
/// not be read), the language's code, and for each action, in order, the
/// configuration parsed from what the script printed for it.
pub fn build_startup_ui_metadata(
    is_audio_enabled: Result<bool, Error>,
    current_language: Language,
    action_outputs: Vec<(String, String)>,
) -> (r: StartupUIMetadata)
    ensures
        r.audio_enabled() == (is_audio_enabled matches Ok(b) && b),
        r.language() == language_code(current_language),
        r.action_entries().map_values(|e: (Seq<char>, ActionConfig)| (e.0, e.1@))
            == action_config_entries(
            action_outputs@.map_values(|p: (String, String)| (p.0@, p.1@)),
        ),
{
    let audio = match is_audio_enabled {
        Ok(b) => b,
        Err(_) => false,
    };
    let mut metadata = StartupUIMetadata::new(audio, String::from_str(current_language.code()));
    let ghost ov = action_outputs@.map_values(|p: (String, String)| (p.0@, p.1@));
    let mut i: usize = 0;
    assert(metadata.action_entries().map_values(|e: (Seq<char>, ActionConfig)| (e.0, e.1@))
        =~= action_config_entries(ov.subrange(0, 0)));
    while i < action_outputs.len()
        invariant
            ov == action_outputs@.map_values(|p: (String, String)| (p.0@, p.1@)),
            i <= action_outputs.len(),
            metadata.audio_enabled() == audio,
            metadata.language() == language_code(current_language),
            metadata.action_entries().map_values(|e: (Seq<char>, ActionConfig)| (e.0, e.1@))
                == action_config_entries(ov.subrange(0, i as int)),
        decreases action_outputs.len() - i,
    {
        let name = action_outputs[i].0.clone();
        let config = ActionConfig::parse_from_string(action_outputs[i].1.as_str());
        let ghost before = metadata.action_entries();
        metadata.insert_action(name, config);
        proof {
            lemma_entries_insert_map(before, name@, config, |c: ActionConfig| c@);
            assert(ov.subrange(0, i + 1).drop_last() =~= ov.subrange(0, i as int));
            assert(ov.subrange(0, i + 1).last() == ov[i as int]);
            let g1 = |e: (Seq<char>, ActionConfig)| (e.0, e.1@);
            let g2 = |p: (Seq<char>, ActionConfig)| (p.0, (|c: ActionConfig| c@)(p.1));
            assert(metadata.action_entries().map_values(g1) =~= metadata.action_entries().map_values(g2));
            assert(before.map_values(g1) =~= before.map_values(g2));
        }
        i = i + 1;
    }
    assert(ov.subrange(0, action_outputs.len() as int) =~= ov);
    metadata
}

/// The actions whose configuration the first form of the startup request
/// asks for, in order.
pub open spec fn fixed_action_names() -> Seq<Seq<char>> {
    seq!["dictate_text"@, "ai_reply_text"@, "audio_to_text"@]
}

/// The actions whose configuration the first form of the startup request
/// asks for, in order.
pub fn fixed_startup_action_names() -> (r: Vec<String>)
    ensures
        r@.map_values(|s: String| s@) == fixed_action_names(),
{
    let mut r: Vec<String> = Vec::new();
    r.push(String::from_str("dictate_text"));
    r.push(String::from_str("ai_reply_text"));
    r.push(String::from_str("audio_to_text"));
    assert(r@.map_values(|s: String| s@) =~= fixed_action_names());
    r
}

/// The command that the first form of the startup request runs to get an
/// action's configuration: the script in its fixed place.
pub fn fixed_print_config_command(action_name: &str) -> (r: CommandLine)
    ensures
        r@.program == "bash"@,
        r@.args == seq!["/opt/FasterWhisper/smart-actions.sh"@, action_name@, "--print-config"@],
{
    let mut args: Vec<String> = Vec::new();
    args.push(String::from_str("/opt/FasterWhisper/smart-actions.sh"));
    args.push(String::from_str(action_name));
    args.push(String::from_str("--print-config"));
    let r = CommandLine { program: String::from_str("bash"), args };
    assert(r@.args =~= seq!["/opt/FasterWhisper/smart-actions.sh"@, action_name@, "--print-config"@]);
    r
}

/// The actions' metadata of the first form of the startup request: for
/// each action, in order, the configuration parsed from what the script
/// printed for it.
pub fn build_actions_metadata(action_outputs: Vec<(String, String)>) -> (r: ActionsMetadata)
    ensures
        action_map_entries(r.actions).map_values(|e: (Seq<char>, ActionConfig)| (e.0, e.1@))
            == action_config_entries(
            action_outputs@.map_values(|p: (String, String)| (p.0@, p.1@)),
        ),
{
    let mut metadata = ActionsMetadata::new();
    let ghost ov = action_outputs@.map_values(|p: (String, String)| (p.0@, p.1@));
    let mut i: usize = 0;
    assert(action_map_entries(metadata.actions).map_values(|e: (Seq<char>, ActionConfig)| (e.0, e.1@))
        =~= action_config_entries(ov.subrange(0, 0)));
    while i < action_outputs.len()
        invariant
            ov == action_outputs@.map_values(|p: (String, String)| (p.0@, p.1@)),
            i <= action_outputs.len(),
            action_map_entries(metadata.actions).map_values(|e: (Seq<char>, ActionConfig)| (e.0, e.1@))
                == action_config_entries(ov.subrange(0, i as int)),
        decreases action_outputs.len() - i,
    {
        let name = action_outputs[i].0.clone();
        let config = ActionConfig::parse_from_string(action_outputs[i].1.as_str());
        let ghost before = action_map_entries(metadata.actions);
        action_map_insert(&mut metadata.actions, name, config);
        proof {
            lemma_entries_insert_map(before, name@, config, |c: ActionConfig| c@);
            assert(ov.subrange(0, i + 1).drop_last() =~= ov.subrange(0, i as int));
            assert(ov.subrange(0, i + 1).last() == ov[i as int]);
            let g1 = |e: (Seq<char>, ActionConfig)| (e.0, e.1@);
            let g2 = |p: (Seq<char>, ActionConfig)| (p.0, (|c: ActionConfig| c@)(p.1));
            assert(action_map_entries(metadata.actions).map_values(g1) =~= action_map_entries(
                metadata.actions,
            ).map_values(g2));
            assert(before.map_values(g1) =~= before.map_values(g2));
        }
        i = i + 1;
    }
    assert(ov.subrange(0, action_outputs.len() as int) =~= ov);
    metadata
}

} // verus!
