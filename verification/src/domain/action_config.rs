//! The configuration that a smart action prints with `--print-config`, and
//! its parser.
use crate::ordered_map::{
    entries_insert, is_insertion, keys_distinct, lemma_entries_insert_distinct,
    lemma_entries_insert_effect, new_string_map, string_map_entries, string_map_insert,
};
use crate::text::{
    find_char, has_prefix, index_of, is_unicode_whitespace, lemma_index_of_first,
    lemma_strip_surrounding, range_eq_str, range_starts_with, split_lines,
    split_whitespace_range, str_chars, strip_range, trim, trim_quotes, words,
};
use indexmap::IndexMap;
use vstd::prelude::*;
use vstd::string::StrSliceExecFns;

verus! {

/// Name, description, defaults, options, mandatory options and examples of
/// a smart action.
pub struct ActionConfig {
    pub name: String,
    pub description: String,
    pub defaults: IndexMap<String, String>,
    pub options: IndexMap<String, String>,
    pub mandatory_options: Vec<String>,
    pub examples: IndexMap<String, String>,
}

/// An `ActionConfig` as text: each map as its entries in order.
pub struct ActionConfigModel {
    pub name: Seq<char>,
    pub description: Seq<char>,
    pub defaults: Seq<(Seq<char>, Seq<char>)>,
    pub options: Seq<(Seq<char>, Seq<char>)>,
    pub mandatory_options: Seq<Seq<char>>,
    pub examples: Seq<(Seq<char>, Seq<char>)>,
}

impl View for ActionConfig {
    type V = ActionConfigModel;

    open spec fn view(&self) -> ActionConfigModel {
        ActionConfigModel {
            name: self.name@,
            description: self.description@,
            defaults: string_map_entries(self.defaults),
            options: string_map_entries(self.options),
            mandatory_options: self.mandatory_options@.map_values(|s: String| s@),
            examples: string_map_entries(self.examples),
        }
    }
}

/// The configuration before any line is read: empty texts and no entries.
pub open spec fn empty_action_config() -> ActionConfigModel {
    ActionConfigModel {
        name: Seq::empty(),
        description: Seq::empty(),
        defaults: Seq::empty(),
        options: Seq::empty(),
        mandatory_options: Seq::empty(),
        examples: Seq::empty(),
    }
}

/// The effect of one `KEY = value` pair: `NAME` and `DESCRIPTION` replace
/// the texts, `MANDATORY_OPTIONS` replaces the list by the words of the
/// value, and a key beginning with `DEFAULTS_`, `OPTIONS_` or `EXAMPLES_`
/// inserts the rest of the key with the value into that map. Any other key
/// changes nothing.
pub open spec fn apply_key_value(m: ActionConfigModel, key: Seq<char>, value: Seq<char>) -> ActionConfigModel {
    if key == "NAME"@ {
        ActionConfigModel { name: value, ..m }
    } else if key == "DESCRIPTION"@ {
        ActionConfigModel { description: value, ..m }
    } else if has_prefix(key, "DEFAULTS_"@) {
        ActionConfigModel {
            defaults: entries_insert(m.defaults, key.skip("DEFAULTS_"@.len() as int), value),
            ..m
        }
    } else if has_prefix(key, "OPTIONS_"@) {
        ActionConfigModel {
            options: entries_insert(m.options, key.skip("OPTIONS_"@.len() as int), value),
            ..m
        }
    } else if key == "MANDATORY_OPTIONS"@ {
        ActionConfigModel { mandatory_options: words(value), ..m }
    } else if has_prefix(key, "EXAMPLES_"@) {
        ActionConfigModel {
            examples: entries_insert(m.examples, key.skip("EXAMPLES_"@.len() as int), value),
            ..m
        }
    } else {
        m
    }
}

/// The effect of one line: once trimmed, an empty line, a comment (`#`) or
/// a line without `=` changes nothing; otherwise the text before the first
/// `=`, trimmed, is the key, and the text after it, trimmed and stripped of
/// surrounding double quotes, is the value.
pub open spec fn apply_config_line(m: ActionConfigModel, raw: Seq<char>) -> ActionConfigModel {
    let line = trim(raw);
    if line.len() == 0 || line[0] == '#' {
        m
    } else {
        let p = index_of(line, '=');
        if p < 0 {
            m
        } else {
            apply_key_value(
                m,
                trim(line.subrange(0, p)),
                trim_quotes(trim(line.subrange(p + 1, line.len() as int))),
            )
        }
    }
}

/// The effect of the lines, in order.
pub open spec fn apply_config_lines(m: ActionConfigModel, lines: Seq<Seq<char>>) -> ActionConfigModel
    decreases lines.len(),
{
    if lines.len() == 0 {
        m
    } else {
        apply_config_line(apply_config_lines(m, lines.drop_last()), lines.last())
    }
}

/// The configuration that a text describes, read line by line.
pub open spec fn parse_action_config(contents: Seq<char>) -> ActionConfigModel {
    apply_config_lines(empty_action_config(), split_lines(contents))
}

/// The maps of a configuration have distinct keys.
pub open spec fn maps_have_distinct_keys(m: ActionConfigModel) -> bool {
    keys_distinct(m.defaults) && keys_distinct(m.options) && keys_distinct(m.examples)
}

/// Reading lines keeps the keys of each map distinct.
proof fn lemma_lines_keep_keys_distinct(m: ActionConfigModel, lines: Seq<Seq<char>>)
    requires
        maps_have_distinct_keys(m),
    ensures
        maps_have_distinct_keys(apply_config_lines(m, lines)),
    decreases lines.len(),
{
    if lines.len() > 0 {
        lemma_lines_keep_keys_distinct(m, lines.drop_last());
        let prev = apply_config_lines(m, lines.drop_last());
        let line = trim(lines.last());
        let p = index_of(line, '=');
        if line.len() > 0 && line[0] != '#' && p >= 0 {
            let key = trim(line.subrange(0, p));
            let value = trim_quotes(trim(line.subrange(p + 1, line.len() as int)));
            lemma_entries_insert_distinct(prev.defaults, key.skip("DEFAULTS_"@.len() as int), value);
            lemma_entries_insert_distinct(prev.options, key.skip("OPTIONS_"@.len() as int), value);
            lemma_entries_insert_distinct(prev.examples, key.skip("EXAMPLES_"@.len() as int), value);
        }
    }
}

/// Whatever the text, each map of the configuration read from it has no
/// key twice: a key given again replaces the earlier value in place.
pub proof fn lemma_parsed_keys_distinct(contents: Seq<char>)
    ensures
        maps_have_distinct_keys(parse_action_config(contents)),
{
    lemma_lines_keep_keys_distinct(empty_action_config(), split_lines(contents));
}

/// A line that changes no configuration: once trimmed it is empty, a
/// comment, has no `=`, or its key is none that the configuration knows.
pub open spec fn inert_line(raw: Seq<char>) -> bool {
    let line = trim(raw);
    let p = index_of(line, '=');
    ||| line.len() == 0
    ||| line[0] == '#'
    ||| p < 0
    ||| {
        let key = trim(line.subrange(0, p));
        &&& key != "NAME"@
        &&& key != "DESCRIPTION"@
        &&& key != "MANDATORY_OPTIONS"@
        &&& !has_prefix(key, "DEFAULTS_"@)
        &&& !has_prefix(key, "OPTIONS_"@)
        &&& !has_prefix(key, "EXAMPLES_"@)
    }
}

proof fn lemma_split_lines_nonempty(s: Seq<char>)
    ensures
        split_lines(s).len() >= 1,
    decreases s.len(),
{
    if s.len() > 0 {
        lemma_split_lines_nonempty(s.drop_last());
    }
}

/// A line feed between two texts separates their lines.
proof fn lemma_split_lines_concat(s: Seq<char>, t: Seq<char>)
    ensures
        split_lines(s + seq!['\n'] + t) == split_lines(s) + split_lines(t),
    decreases t.len(),
{
    let u = s + seq!['\n'] + t;
    lemma_split_lines_nonempty(s);
    if t.len() == 0 {
        assert(u.drop_last() =~= s);
        assert(split_lines(u) =~= split_lines(s) + split_lines(t));
    } else {
        let t2 = t.drop_last();
        assert(u.drop_last() =~= s + seq!['\n'] + t2);
        lemma_split_lines_concat(s, t2);
        lemma_split_lines_nonempty(t2);
        let prev = split_lines(s) + split_lines(t2);
        if t.last() == '\n' {
            assert(split_lines(u) =~= split_lines(s) + split_lines(t));
        } else {
            let pt = split_lines(t2);
            assert(split_lines(t) == pt.update(pt.len() - 1, pt.last().push(t.last())));
            assert(prev.last() == pt.last());
            assert(split_lines(u) =~= split_lines(s) + split_lines(t));
        }
    }
}

/// A text without line feeds is one line.
proof fn lemma_split_lines_single(l: Seq<char>)
    requires
        !l.contains('\n'),
    ensures
        split_lines(l) == seq![l],
    decreases l.len(),
{
    if l.len() == 0 {
        assert(l =~= Seq::<char>::empty());
        assert(split_lines(l) =~= seq![l]);
    } else {
        let l2 = l.drop_last();
        assert(!l2.contains('\n')) by {
            if l2.contains('\n') {
                let i = choose|i: int| 0 <= i < l2.len() && l2[i] == '\n';
                assert(l[i] == '\n');
            }
        }
        lemma_split_lines_single(l2);
        assert(l[l.len() - 1] != '\n');
        assert(l2.push(l.last()) =~= l);
        assert(split_lines(l) =~= seq![l]);
    }
}

/// Reading lines one after the other reads them in turn.
proof fn lemma_apply_lines_concat(m: ActionConfigModel, x: Seq<Seq<char>>, y: Seq<Seq<char>>)
    ensures
        apply_config_lines(m, x + y) == apply_config_lines(apply_config_lines(m, x), y),
    decreases y.len(),
{
    if y.len() == 0 {
        assert(x + y =~= x);
    } else {
        assert((x + y).drop_last() =~= x + y.drop_last());
        lemma_apply_lines_concat(m, x, y.drop_last());
    }
}

/// Reading nothing gives the empty configuration; and a line that changes
/// no configuration — blank, a comment, without `=`, or with a key the
/// configuration does not know — changes nothing wherever it is inserted:
/// between two lines, first, or last.
pub proof fn lemma_inert_line_changes_nothing(a: Seq<char>, l: Seq<char>, b: Seq<char>)
    requires
        !l.contains('\n'),
        inert_line(l),
    ensures
        parse_action_config(Seq::<char>::empty()) == empty_action_config(),
        parse_action_config(a + seq!['\n'] + l + seq!['\n'] + b) == parse_action_config(
            a + seq!['\n'] + b,
        ),
        parse_action_config(l + seq!['\n'] + b) == parse_action_config(b),
        parse_action_config(a + seq!['\n'] + l) == parse_action_config(a),
{
    let e = empty_action_config();
    assert(split_lines(Seq::<char>::empty()) =~= seq![Seq::<char>::empty()]);
    assert(seq![Seq::<char>::empty()].drop_last() =~= Seq::<Seq<char>>::empty());
    let empty = Seq::<char>::empty();
    assert(apply_config_lines(e, Seq::<Seq<char>>::empty()) == e);
    assert(trim(empty) =~= empty);
    assert(apply_config_lines(e, seq![empty]) == apply_config_line(e, empty));
    assert(apply_config_line(e, empty) == e);
    lemma_split_lines_single(l);
    assert(apply_config_line(e, l) == e);
    assert(seq![l].drop_last() =~= Seq::<Seq<char>>::empty());
    assert(seq![l].last() == l);
    assert(apply_config_lines(e, seq![l]) == apply_config_line(e, l));
    // l first
    lemma_split_lines_concat(l, b);
    lemma_apply_lines_concat(e, seq![l], split_lines(b));
    assert(seq![l].drop_last() =~= Seq::<Seq<char>>::empty());
    // l between
    assert(a + seq!['\n'] + l + seq!['\n'] + b =~= a + seq!['\n'] + (l + seq!['\n'] + b));
    lemma_split_lines_concat(a, l + seq!['\n'] + b);
    lemma_split_lines_concat(a, b);
    let sa = split_lines(a);
    lemma_apply_lines_concat(e, sa + seq![l], split_lines(b));
    lemma_apply_lines_concat(e, sa, split_lines(b));
    assert(sa + (seq![l] + split_lines(b)) =~= (sa + seq![l]) + split_lines(b));
    assert((sa + seq![l]).drop_last() =~= sa);
    // l last
    lemma_split_lines_concat(a, l);
    assert((sa + seq![l]).last() == l);
}

/// A line `KEY=value` whose key and value are already trimmed — the key
/// neither begins nor ends with whitespace, does not begin with `#` and
/// holds no `=`; the value neither begins nor ends with whitespace or a
/// double quote — and holds no line feed.
pub open spec fn plain_pair(key: Seq<char>, value: Seq<char>) -> bool {
    &&& key.len() > 0
    &&& !is_unicode_whitespace(key[0])
    &&& key[0] != '#'
    &&& !is_unicode_whitespace(key.last())
    &&& forall|i: int| 0 <= i < key.len() ==> #[trigger] key[i] != '=' && key[i] != '\n'
    &&& forall|i: int| 0 <= i < value.len() ==> #[trigger] value[i] != '\n'
    &&& value.len() > 0 ==> {
        &&& !is_unicode_whitespace(value[0])
        &&& !is_unicode_whitespace(value.last())
        &&& value[0] != '"'
        &&& value.last() != '"'
    }
}

/// A line that reads `KEY=value` applies that pair and nothing else, and
/// a line appended after a text is applied to what the text describes:
/// reading `contents`, a line feed and `KEY=value` gives what `contents`
/// gives, with the pair applied.
pub proof fn lemma_appended_pair_applies(contents: Seq<char>, key: Seq<char>, value: Seq<char>)
    requires
        plain_pair(key, value),
    ensures
        apply_config_line(parse_action_config(contents), key + seq!['='] + value)
            == apply_key_value(parse_action_config(contents), key, value),
        parse_action_config(contents + seq!['\n'] + (key + seq!['='] + value)) == apply_key_value(
            parse_action_config(contents),
            key,
            value,
        ),
{
    let l = key + seq!['='] + value;
    let e = Seq::<char>::empty();
    let m = parse_action_config(contents);
    // the line is already trimmed
    assert(l[0] == key[0]);
    if value.len() > 0 {
        assert(l.last() == value.last());
    } else {
        assert(l.last() == '=');
    }
    lemma_strip_surrounding(e, l, e, false);
    assert(e + l + e =~= l);
    assert(trim(l) == l);
    // the key ends at the first `=`
    let p = key.len() as int;
    assert forall|j: int| 0 <= j < p implies l[j] != '=' by {
        assert(l[j] == key[j]);
    }
    lemma_index_of_first(l, '=', p);
    assert(l.subrange(0, p) =~= key);
    assert(l.subrange(p + 1, l.len() as int) =~= value);
    lemma_strip_surrounding(e, key, e, false);
    assert(e + key + e =~= key);
    lemma_strip_surrounding(e, value, e, false);
    lemma_strip_surrounding(e, value, e, true);
    assert(e + value + e =~= value);
    assert(apply_config_line(m, l) == apply_key_value(m, key, value));
    // the line is the last one read
    assert(!l.contains('\n')) by {
        if l.contains('\n') {
            let i = choose|i: int| 0 <= i < l.len() && l[i] == '\n';
            if i < p {
                assert(l[i] == key[i]);
            } else if i > p {
                assert(l[i] == value[i - p - 1]);
            }
        }
    }
    lemma_split_lines_concat(contents, l);
    lemma_split_lines_single(l);
    let lines = split_lines(contents) + seq![l];
    assert(lines.drop_last() =~= split_lines(contents));
    assert(lines.last() == l);
}

/// A key beginning with `DEFAULTS_`, `OPTIONS_` or `EXAMPLES_` changes
/// only its own map, and changes it only at the entry of the rest of the
/// key: the map afterwards is the map before with `(rest, value)`
/// inserted, so every entry with another key read earlier is still there,
/// at its place, and a new key comes after all of them.
pub proof fn lemma_prefixed_key_inserts(m: ActionConfigModel, rest: Seq<char>, value: Seq<char>)
    ensures
        ({
            let r = apply_key_value(m, "DEFAULTS_"@ + rest, value);
            &&& r.defaults == entries_insert(m.defaults, rest, value)
            &&& is_insertion(m.defaults, r.defaults, rest, value)
            &&& r.name == m.name && r.description == m.description
            &&& r.options == m.options && r.mandatory_options == m.mandatory_options
            &&& r.examples == m.examples
        }),
        ({
            let r = apply_key_value(m, "OPTIONS_"@ + rest, value);
            &&& r.options == entries_insert(m.options, rest, value)
            &&& is_insertion(m.options, r.options, rest, value)
            &&& r.name == m.name && r.description == m.description
            &&& r.defaults == m.defaults && r.mandatory_options == m.mandatory_options
            &&& r.examples == m.examples
        }),
        ({
            let r = apply_key_value(m, "EXAMPLES_"@ + rest, value);
            &&& r.examples == entries_insert(m.examples, rest, value)
            &&& is_insertion(m.examples, r.examples, rest, value)
            &&& r.name == m.name && r.description == m.description
            &&& r.defaults == m.defaults && r.options == m.options
            &&& r.mandatory_options == m.mandatory_options
        }),
{
    reveal_strlit("NAME");
    reveal_strlit("DESCRIPTION");
    reveal_strlit("DEFAULTS_");
    reveal_strlit("OPTIONS_");
    reveal_strlit("MANDATORY_OPTIONS");
    reveal_strlit("EXAMPLES_");
    let kd = "DEFAULTS_"@ + rest;
    let ko = "OPTIONS_"@ + rest;
    let ke = "EXAMPLES_"@ + rest;
    assert(kd[0] == 'D' && ko[0] == 'O' && ke[0] == 'E');
    assert(kd.subrange(0, 9) =~= "DEFAULTS_"@);
    assert(kd.skip(9) =~= rest);
    assert(kd != "NAME"@ && kd != "DESCRIPTION"@) by {
        assert("NAME"@[0] == 'N');
        assert("DESCRIPTION"@[1] == 'E' && kd[1] == 'E');
        assert("DESCRIPTION"@.len() == 11);
        assert("DESCRIPTION"@[2] == 'S' && kd[2] == 'F');
    }
    assert(ko.subrange(0, 8) =~= "OPTIONS_"@);
    assert(ko.skip(8) =~= rest);
    assert(ko != "NAME"@ && ko != "DESCRIPTION"@ && ko != "MANDATORY_OPTIONS"@) by {
        assert("NAME"@[0] == 'N');
        assert("DESCRIPTION"@[0] == 'D');
        assert("MANDATORY_OPTIONS"@[0] == 'M');
    }
    assert(!has_prefix(ko, "DEFAULTS_"@)) by {
        if has_prefix(ko, "DEFAULTS_"@) {
            assert(ko.subrange(0, 9)[0] == 'O');
        }
    }
    assert(ke.subrange(0, 9) =~= "EXAMPLES_"@);
    assert(ke.skip(9) =~= rest);
    assert(ke != "NAME"@ && ke != "DESCRIPTION"@ && ke != "MANDATORY_OPTIONS"@) by {
        assert("NAME"@[0] == 'N');
        assert("DESCRIPTION"@[0] == 'D');
        assert("MANDATORY_OPTIONS"@[0] == 'M');
    }
    assert(!has_prefix(ke, "DEFAULTS_"@)) by {
        if has_prefix(ke, "DEFAULTS_"@) {
            assert(ke.subrange(0, 9)[0] == 'E');
        }
    }
    assert(!has_prefix(ke, "OPTIONS_"@)) by {
        if has_prefix(ke, "OPTIONS_"@) {
            assert(ke.subrange(0, 8)[0] == 'E');
        }
    }
    lemma_entries_insert_effect(m.defaults, rest, value);
    lemma_entries_insert_effect(m.options, rest, value);
    lemma_entries_insert_effect(m.examples, rest, value);
}

/// Each `OPTIONS_<k>=<v>` line adds to the options read before it: after
/// such a line, the options are those read from the text before it with
/// `(k, v)` inserted — every option with another key is still there, at
/// its place, a new key comes last — and nothing else of the configuration
/// changes. So lines with different keys give one option each, in order.
pub proof fn lemma_option_line_adds_option(contents: Seq<char>, k: Seq<char>, v: Seq<char>)
    requires
        plain_pair("OPTIONS_"@ + k, v),
    ensures
        ({
            let before = parse_action_config(contents);
            let after = parse_action_config(contents + seq!['\n'] + ("OPTIONS_"@ + k + seq!['='] + v));
            &&& is_insertion(before.options, after.options, k, v)
            &&& after.name == before.name && after.description == before.description
            &&& after.defaults == before.defaults
            &&& after.mandatory_options == before.mandatory_options
            &&& after.examples == before.examples
        }),
{
    lemma_appended_pair_applies(contents, "OPTIONS_"@ + k, v);
    lemma_prefixed_key_inserts(parse_action_config(contents), k, v);
}

impl ActionConfig {
    /// Reads a configuration from the `KEY=value` lines of `contents`.
    pub fn parse_from_string(contents: &str) -> (r: Self)
        ensures
            r@ == parse_action_config(contents@),
    {
        let chars = str_chars(contents);
        let mut cfg = ActionConfig {
            name: String::new(),
            description: String::new(),
            defaults: new_string_map(),
            options: new_string_map(),
            mandatory_options: Vec::new(),
            examples: new_string_map(),
        };
        assert(cfg@.mandatory_options =~= Seq::<Seq<char>>::empty());
        let n = chars.len();
        let mut line_start: usize = 0;
        let mut i: usize = 0;
        let ghost mut done: Seq<Seq<char>> = Seq::empty();
        assert(contents@.subrange(0, 0) =~= Seq::<char>::empty());
        assert(split_lines(Seq::<char>::empty()) =~= done.push(chars@.subrange(0, 0)));
        while i < n
            invariant
                chars@ == contents@,
                n == chars.len(),
                line_start <= i <= n,
                split_lines(chars@.subrange(0, i as int)) == done.push(
                    chars@.subrange(line_start as int, i as int),
                ),
                cfg@ == apply_config_lines(empty_action_config(), done),
            decreases n - i,
        {
            let ghost prefix = chars@.subrange(0, i + 1);
            assert(prefix.drop_last() =~= chars@.subrange(0, i as int));
            assert(prefix.last() == chars@[i as int]);
            if chars[i] == '\n' {
                cfg.apply_line(contents, &chars, line_start, i);
                proof {
                    let cur = chars@.subrange(line_start as int, i as int);
                    assert(done.push(cur).drop_last() =~= done);
                    done = done.push(cur);
                    assert(chars@.subrange(i + 1, i + 1) =~= Seq::<char>::empty());
                }
                line_start = i + 1;
            } else {
                proof {
                    let cur = chars@.subrange(line_start as int, i as int);
                    let c = chars@[i as int];
                    assert(cur.push(c) =~= chars@.subrange(line_start as int, i + 1));
                    assert(done.push(cur).update(done.len() as int, cur.push(c)) =~= done.push(
                        cur.push(c),
                    ));
                }
            }
            i = i + 1;
        }
        cfg.apply_line(contents, &chars, line_start, n);
        proof {
            let last = chars@.subrange(line_start as int, n as int);
            assert(chars@.subrange(0, n as int) =~= contents@);
            assert(done.push(last).drop_last() =~= done);
        }
        cfg
    }

    /// Applies the line `contents[lo..hi]`, where `chars` holds the
    /// characters of `contents`.
    fn apply_line(&mut self, contents: &str, chars: &Vec<char>, lo: usize, hi: usize)
        requires
            chars@ == contents@,
            lo <= hi <= chars.len(),
        ensures
            final(self)@ == apply_config_line(old(self)@, chars@.subrange(lo as int, hi as int)),
    {
        let ghost raw = chars@.subrange(lo as int, hi as int);
        let (a, b) = strip_range(chars, lo, hi, false);
        let ghost line = chars@.subrange(a as int, b as int);
        if a == b || chars[a] == '#' {
            return;
        }
        let eq = match find_char(chars, a, b, '=') {
            Some(p) => p,
            None => {
                return;
            },
        };
        let ghost p = eq - a;
        assert(line.subrange(0, p) =~= chars@.subrange(a as int, eq as int));
        assert(line.subrange(p + 1, line.len() as int) =~= chars@.subrange(eq + 1, b as int));
        let (k0, k1) = strip_range(chars, a, eq, false);
        let (v0, v1) = strip_range(chars, eq + 1, b, false);
        let (w0, w1) = strip_range(chars, v0, v1, true);
        let ghost key = chars@.subrange(k0 as int, k1 as int);
        let ghost value = chars@.subrange(w0 as int, w1 as int);
        assert(key == trim(line.subrange(0, p)));
        assert(value == trim_quotes(trim(line.subrange(p + 1, line.len() as int))));
        self.apply_key_value(contents, chars, k0, k1, w0, w1);
    }

    /// Applies the pair whose key is `contents[k0..k1]` and whose value is
    /// `contents[v0..v1]`.
    fn apply_key_value(
        &mut self,
        contents: &str,
        chars: &Vec<char>,
        k0: usize,
        k1: usize,
        v0: usize,
        v1: usize,
    )
        requires
            chars@ == contents@,
            k0 <= k1 <= chars.len(),
            v0 <= v1 <= chars.len(),
        ensures
            final(self)@ == apply_key_value(
                old(self)@,
                chars@.subrange(k0 as int, k1 as int),
                chars@.subrange(v0 as int, v1 as int),
            ),
    {
        let ghost key = chars@.subrange(k0 as int, k1 as int);
        let ghost value = chars@.subrange(v0 as int, v1 as int);
        if range_eq_str(chars, k0, k1, "NAME") {
            self.name = contents.substring_char(v0, v1).to_owned();
        } else if range_eq_str(chars, k0, k1, "DESCRIPTION") {
            self.description = contents.substring_char(v0, v1).to_owned();
        } else if range_starts_with(chars, k0, k1, "DEFAULTS_") {
            let skip = "DEFAULTS_".unicode_len();
            let k = contents.substring_char(k0 + skip, k1).to_owned();
            assert(k@ =~= key.skip("DEFAULTS_"@.len() as int));
            let v = contents.substring_char(v0, v1).to_owned();
            string_map_insert(&mut self.defaults, k, v);
        } else if range_starts_with(chars, k0, k1, "OPTIONS_") {
            let skip = "OPTIONS_".unicode_len();
            let k = contents.substring_char(k0 + skip, k1).to_owned();
            assert(k@ =~= key.skip("OPTIONS_"@.len() as int));
            let v = contents.substring_char(v0, v1).to_owned();
            string_map_insert(&mut self.options, k, v);
        } else if range_eq_str(chars, k0, k1, "MANDATORY_OPTIONS") {
            self.mandatory_options = split_whitespace_range(contents, chars, v0, v1);
        } else if range_starts_with(chars, k0, k1, "EXAMPLES_") {
            let skip = "EXAMPLES_".unicode_len();
            let k = contents.substring_char(k0 + skip, k1).to_owned();
            assert(k@ =~= key.skip("EXAMPLES_"@.len() as int));
            let v = contents.substring_char(v0, v1).to_owned();
            string_map_insert(&mut self.examples, k, v);
        }
    }
}

} // verus!
