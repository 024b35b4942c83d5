use smart_actions::domain::ActionConfig;

fn entries(m: &indexmap::IndexMap<String, String>) -> Vec<(String, String)> {
    m.iter().map(|(k, v)| (k.clone(), v.clone())).collect()
}

fn pairs(p: &[(&str, &str)]) -> Vec<(String, String)> {
    p.iter().map(|(k, v)| (k.to_string(), v.to_string())).collect()
}

#[test]
fn parse_empty_text_gives_empty_config() {
    let c = ActionConfig::parse_from_string("");
    assert_eq!(c.name, "");
    assert_eq!(c.description, "");
    assert!(c.defaults.is_empty());
    assert!(c.options.is_empty());
    assert!(c.mandatory_options.is_empty());
    assert!(c.examples.is_empty());
}

#[test]
fn parse_full_config() {
    let text = "# Dictate text\n\
NAME=\"Dictate Text\"\n\
DESCRIPTION = Record an audio and convert it to text.\n\
\n\
DEFAULTS_model=medium\n\
DEFAULTS_task=transcribe\n\
OPTIONS_model=\"tiny base small medium large\"\n\
MANDATORY_OPTIONS=\"model  task\"\n\
EXAMPLES_1=\"smart-actions.sh dictate_text -m medium\"\n";
    let c = ActionConfig::parse_from_string(text);
    assert_eq!(c.name, "Dictate Text");
    assert_eq!(c.description, "Record an audio and convert it to text.");
    assert_eq!(
        entries(&c.defaults),
        pairs(&[("model", "medium"), ("task", "transcribe")])
    );
    assert_eq!(
        entries(&c.options),
        pairs(&[("model", "tiny base small medium large")])
    );
    assert_eq!(c.mandatory_options, vec!["model".to_string(), "task".to_string()]);
    assert_eq!(
        entries(&c.examples),
        pairs(&[("1", "smart-actions.sh dictate_text -m medium")])
    );
}

#[test]
fn parse_skips_comments_blank_lines_and_lines_without_equals() {
    let c = ActionConfig::parse_from_string("   \n# NAME=hidden\n  #NAME=also\nNAME\nfoo bar\nNAME=shown");
    assert_eq!(c.name, "shown");
}

#[test]
fn parse_later_key_replaces_earlier_in_place() {
    let c = ActionConfig::parse_from_string(
        "DEFAULTS_a=1\nDEFAULTS_b=2\nDEFAULTS_a=3\nNAME=x\nNAME=y",
    );
    assert_eq!(entries(&c.defaults), pairs(&[("a", "3"), ("b", "2")]));
    assert_eq!(c.name, "y");
}

#[test]
fn parse_splits_at_first_equals_and_trims() {
    let c = ActionConfig::parse_from_string("  DESCRIPTION  =  a = b  \r\nEXAMPLES_x== y");
    assert_eq!(c.description, "a = b");
    assert_eq!(entries(&c.examples), pairs(&[("x", "= y")]));
}

#[test]
fn parse_strips_every_surrounding_quote_after_trimming() {
    let c = ActionConfig::parse_from_string("NAME = \"\"quoted\"\" \nDESCRIPTION=\" spaced \"");
    assert_eq!(c.name, "quoted");
    assert_eq!(c.description, " spaced ");
}

#[test]
fn parse_unknown_keys_and_bare_prefixes() {
    let c = ActionConfig::parse_from_string("UNKNOWN=1\nname=lower\nDEFAULTS_=empty\nOPTIONS_x=");
    assert_eq!(c.name, "");
    assert_eq!(entries(&c.defaults), pairs(&[("", "empty")]));
    assert_eq!(entries(&c.options), pairs(&[("x", "")]));
}

#[test]
fn parse_mandatory_options_split_on_unicode_whitespace() {
    let c = ActionConfig::parse_from_string("MANDATORY_OPTIONS=a\u{3000}b\tc\u{2003}\u{2003}d");
    assert_eq!(c.mandatory_options, vec!["a", "b", "c", "d"]);
    let c = ActionConfig::parse_from_string("MANDATORY_OPTIONS=\"\"");
    assert!(c.mandatory_options.is_empty());
    let c = ActionConfig::parse_from_string("MANDATORY_OPTIONS=x y\nMANDATORY_OPTIONS=z");
    assert_eq!(c.mandatory_options, vec!["z"]);
}

#[test]
fn parse_trims_unicode_whitespace_around_lines() {
    let c = ActionConfig::parse_from_string("\u{a0}\u{2028}NAME=ünïcödé\u{3000}\n\u{85}# c");
    assert_eq!(c.name, "ünïcödé");
}

fn all_fields(c: &ActionConfig) -> (String, String, Vec<(String, String)>, Vec<(String, String)>, Vec<String>, Vec<(String, String)>) {
    (
        c.name.clone(),
        c.description.clone(),
        entries(&c.defaults),
        entries(&c.options),
        c.mandatory_options.clone(),
        entries(&c.examples),
    )
}

#[test]
fn parse_inert_lines_change_nothing() {
    let base = "NAME=n\nDEFAULTS_a=1\nMANDATORY_OPTIONS=a b";
    let expected = all_fields(&ActionConfig::parse_from_string(base));
    for inert in ["", "   ", "# NAME=x", "no equals here", "UNKNOWN=1", " name = lower", "DEFAULT_a=2"] {
        let first = format!("{}\n{}", inert, base);
        let middle = format!("NAME=n\n{}\nDEFAULTS_a=1\nMANDATORY_OPTIONS=a b", inert);
        let last = format!("{}\n{}", base, inert);
        for text in [first, middle, last] {
            assert_eq!(all_fields(&ActionConfig::parse_from_string(&text)), expected);
        }
    }
}
