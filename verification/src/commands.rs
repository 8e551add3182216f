//! Saved commands: search, label and host filtering, ordering, and the
//! parameter/env-block rendering used when a command is run.

use vstd::prelude::*;

use crate::ids::{is_hyphenated_uuid, new_uuid};
use crate::str_map::StrSet;
use crate::text::{
    any_contains_ci, any_contains_ci_exec, chars_of, concat2, contains_ci, contains_ci_exec,
    line_one, line_one_exec, list_contains, lower, lower_chars, opt_view, owned, push_char,
    push_replaced, replace_char, strs_view, trim, trimmed, contains, lemma_lower_idempotent, lemma_trim_lower,
};
use crate::order::strictly_sorted;

verus! {

/// How a saved command is sent to the terminal by default.
#[derive(Debug, Clone, Copy, PartialEq, Eq, Structural)]
pub enum CommandRunMode {
    Run,
    Insert,
    RunInNewPane,
}

/// A fixed-choice parameter declared on a saved command.
///
/// The command body references the parameter via `$NAME` or `${NAME}`.
/// At runtime the user is prompted for all declared parameters, which are
/// injected as `export` statements.
#[derive(Debug, PartialEq, Eq)]
pub struct CommandParameter {
    pub name: String,
    pub label: String,
    pub choices: Vec<String>,
    pub default: Option<String>,
    pub description: String,
}

/// Mathematical model of a [`CommandParameter`].
pub struct CommandParameterView {
    pub name: Seq<char>,
    pub label: Seq<char>,
    pub choices: Seq<Seq<char>>,
    pub default: Option<Seq<char>>,
    pub description: Seq<char>,
}

impl View for CommandParameter {
    type V = CommandParameterView;

    open spec fn view(&self) -> CommandParameterView {
        CommandParameterView {
            name: self.name@,
            label: self.label@,
            choices: strs_view(self.choices@),
            default: opt_view(self.default),
            description: self.description@,
        }
    }
}

impl Clone for CommandParameter {
    fn clone(&self) -> (r: Self)
        ensures
            r@ == self@,
    {
        let choices = self.choices.clone();
        assert(strs_view(choices@) =~= strs_view(self.choices@));
        CommandParameter {
            name: self.name.clone(),
            label: self.label.clone(),
            choices,
            default: self.default.clone(),
            description: self.description.clone(),
        }
    }
}

/// A saved command snippet.
#[derive(Debug, PartialEq, Eq)]
pub struct SavedCommand {
    pub uuid: String,
    pub title: String,
    pub body: String,
    pub default_run_mode: CommandRunMode,
    /// Host keys this command is scoped to. Empty means global (visible everywhere).
    pub host_tags: Vec<String>,
    pub parameters: Vec<CommandParameter>,
    pub description: String,
    pub labels: Vec<String>,
    /// Key sequence after the leader key (e.g. `["d", "k"]`).
    /// Duplicates across commands are intentional for host-scoped resolution.
    pub shortcut_keys: Vec<String>,
}

/// Mathematical model of a [`SavedCommand`].
pub struct SavedCommandView {
    pub uuid: Seq<char>,
    pub title: Seq<char>,
    pub body: Seq<char>,
    pub default_run_mode: CommandRunMode,
    pub host_tags: Seq<Seq<char>>,
    pub parameters: Seq<CommandParameterView>,
    pub description: Seq<char>,
    pub labels: Seq<Seq<char>>,
    pub shortcut_keys: Seq<Seq<char>>,
}

/// Views of a list of commands.
pub open spec fn commands_view(v: Seq<SavedCommand>) -> Seq<SavedCommandView> {
    v.map_values(|c: SavedCommand| c@)
}

impl View for SavedCommand {
    type V = SavedCommandView;

    open spec fn view(&self) -> SavedCommandView {
        SavedCommandView {
            uuid: self.uuid@,
            title: self.title@,
            body: self.body@,
            default_run_mode: self.default_run_mode,
            host_tags: strs_view(self.host_tags@),
            parameters: self.parameters@.map_values(|p: CommandParameter| p@),
            description: self.description@,
            labels: strs_view(self.labels@),
            shortcut_keys: strs_view(self.shortcut_keys@),
        }
    }
}

/// A copy of a list of strings with the same contents.
pub fn clone_strings(v: &Vec<String>) -> (r: Vec<String>)
    ensures
        strs_view(r@) == strs_view(v@),
{
    let r = v.clone();
    assert(strs_view(r@) =~= strs_view(v@));
    r
}

impl Clone for SavedCommand {
    fn clone(&self) -> (r: Self)
        ensures
            r@ == self@,
    {
        let parameters = self.parameters.clone();
        assert(parameters@.map_values(|p: CommandParameter| p@) =~= self.parameters@.map_values(
            |p: CommandParameter| p@,
        ));
        SavedCommand {
            uuid: self.uuid.clone(),
            title: self.title.clone(),
            body: self.body.clone(),
            default_run_mode: self.default_run_mode,
            host_tags: clone_strings(&self.host_tags),
            parameters,
            description: self.description.clone(),
            labels: clone_strings(&self.labels),
            shortcut_keys: clone_strings(&self.shortcut_keys),
        }
    }
}

/// The text sent to the terminal for a run mode.
pub open spec fn input_for_spec(body: Seq<char>, run_mode: CommandRunMode) -> Seq<char> {
    match run_mode {
        CommandRunMode::Insert => body,
        _ => body.push('\n'),
    }
}

/// Search over title, body, description, host tags and labels.
pub open spec fn matches_query_spec(c: SavedCommandView, query: Seq<char>) -> bool {
    let q = trim(query);
    q.len() == 0 || {
        let l = lower(q);
        ||| contains_ci(c.title, l)
        ||| contains_ci(c.body, l)
        ||| contains_ci(c.description, l)
        ||| any_contains_ci(c.host_tags, l)
        ||| any_contains_ci(c.labels, l)
    }
}

/// Visibility of a host-scoped item on a host.
pub open spec fn visible_on(host_tags: Seq<Seq<char>>, host_key: Seq<char>) -> bool {
    host_tags.len() == 0 || host_tags.contains(host_key)
}

/// The commands visible on a host, in order.
pub open spec fn visible_commands(saved: Seq<SavedCommandView>, host_key: Seq<char>) -> Seq<SavedCommandView>
    decreases saved.len(),
{
    if saved.len() == 0 {
        Seq::empty()
    } else {
        let rest = visible_commands(saved.drop_last(), host_key);
        if visible_on(saved.last().host_tags, host_key) {
            rest.push(saved.last())
        } else {
            rest
        }
    }
}

/// Shell escaping with `'\''` for embedded quotes.
pub open spec fn shell_escape_spec(s: Seq<char>) -> Seq<char> {
    seq!['\''] + replace_char(s, '\'', "'\\''"@) + seq!['\'']
}

/// The effective default of a parameter.
pub open spec fn resolve_default_spec(p: CommandParameterView) -> Seq<char> {
    match p.default {
        Some(d) if p.choices.contains(d) => d,
        _ => if p.choices.len() > 0 {
            p.choices[0]
        } else {
            Seq::empty()
        },
    }
}

/// The `export NAME='value'` lines for the given parameter values.
pub open spec fn export_lines(values: Seq<(Seq<char>, Seq<char>)>) -> Seq<char>
    decreases values.len(),
{
    if values.len() == 0 {
        Seq::empty()
    } else {
        export_lines(values.drop_last()) + "export "@ + values.last().0 + seq!['='] + shell_escape_spec(
            values.last().1,
        ) + seq!['\n']
    }
}

/// Views of name/value pairs.
pub open spec fn pairs_view(v: Seq<(String, String)>) -> Seq<(Seq<char>, Seq<char>)> {
    v.map_values(|p: (String, String)| (p.0@, p.1@))
}

/// The env-var injection block around a command body.
pub open spec fn env_block_spec(body: Seq<char>, values: Seq<(Seq<char>, Seq<char>)>) -> Seq<char> {
    seq!['(', '\n'] + export_lines(values) + body + (if body.len() > 0 && body.last() == '\n' {
        Seq::empty()
    } else {
        seq!['\n']
    }) + seq![')']
}

/// Index of the first item whose uuid is `u`.
pub open spec fn first_with_uuid(items: Seq<SavedCommand>, u: Seq<char>) -> Option<int> {
    if exists|i: int| 0 <= i < items.len() && items[i].uuid@ == u {
        Some(choose|i: int| 0 <= i < items.len() && items[i].uuid@ == u && forall|j: int| 0 <= j < i ==> items[j].uuid@ != u)
    } else {
        None
    }
}

fn default_run_mode() -> (m: CommandRunMode)
    ensures
        m == CommandRunMode::Run,
{
    CommandRunMode::Run
}

impl SavedCommand {
    /// A new command with a fresh uuid and no tags, parameters or labels.
    pub fn new(title: &str, body: &str) -> (c: Self)
        ensures
            is_hyphenated_uuid(c@.uuid),
            c@.title == title@,
            c@.body == body@,
            c.default_run_mode == CommandRunMode::Run,
            c@.host_tags.len() == 0,
            c@.parameters.len() == 0,
            c@.description.len() == 0,
            c@.labels.len() == 0,
            c@.shortcut_keys.len() == 0,
    {
        SavedCommand {
            uuid: new_uuid(),
            title: owned(title),
            body: owned(body),
            default_run_mode: default_run_mode(),
            host_tags: Vec::new(),
            parameters: Vec::new(),
            description: String::new(),
            labels: Vec::new(),
            shortcut_keys: Vec::new(),
        }
    }

    /// A copy with a fresh uuid and a "(copy)" title suffix.
    pub fn duplicate(&self) -> (c: Self)
        ensures
            c@.title == self@.title + " (copy)"@,
            c@.body == self@.body,
            c.default_run_mode == self.default_run_mode,
            c@.host_tags == self@.host_tags,
            c@.parameters == self@.parameters,
            c@.description == self@.description,
            c@.labels == self@.labels,
            c@.shortcut_keys == self@.shortcut_keys,
    {
        let mut c = self.clone();
        c.uuid = new_uuid();
        c.title = concat2(self.title.as_str(), " (copy)");
        c
    }

    /// Whether this command has declared parameters.
    pub fn has_parameters(&self) -> (b: bool)
        ensures
            b == (self.parameters@.len() > 0),
    {
        self.parameters.len() != 0
    }

    /// The first line of the body, trimmed.
    pub fn preview(&self) -> (s: String)
        ensures
            s@ == trim(line_one(self.body@)),
    {
        owned(trimmed(line_one_exec(self.body.as_str())))
    }

    /// The text to send to the terminal for `run_mode`.
    pub fn input_for(&self, run_mode: CommandRunMode) -> (s: String)
        ensures
            s@ == input_for_spec(self.body@, run_mode),
    {
        match run_mode {
            CommandRunMode::Insert => self.body.clone(),
            _ => {
                let mut s = self.body.clone();
                push_char(&mut s, '\n');
                s
            },
        }
    }
}

/// Whether `command` matches a search query (case-insensitive, blank matches all).
pub fn matches_query(command: &SavedCommand, query: &str) -> (b: bool)
    ensures
        b == matches_query_spec(command@, query@),
{
    let q = trimmed(query);
    let qc = chars_of(q);
    if qc.len() == 0 {
        return true;
    }
    let l = lower_chars(qc.as_slice());
    contains_ci_exec(command.title.as_str(), l.as_slice()) || contains_ci_exec(
        command.body.as_str(),
        l.as_slice(),
    ) || contains_ci_exec(command.description.as_str(), l.as_slice()) || any_contains_ci_exec(
        command.host_tags.as_slice(),
        l.as_slice(),
    ) || any_contains_ci_exec(command.labels.as_slice(), l.as_slice())
}

/// Returns `true` if the command has at least one label in `active_labels`;
/// an empty filter matches every command.
pub fn matches_labels(command: &SavedCommand, active_labels: &[String]) -> (b: bool)
    ensures
        b == (active_labels@.len() == 0 || exists|i: int|
            0 <= i < command.labels@.len() && strs_view(active_labels@).contains(
                #[trigger] command.labels@[i]@,
            )),
{
    if active_labels.len() == 0 {
        return true;
    }
    let mut i: usize = 0;
    while i < command.labels.len()
        invariant
            i <= command.labels.len(),
            forall|j: int| 0 <= j < i ==> !strs_view(active_labels@).contains(#[trigger] command.labels@[j]@),
        decreases command.labels.len() - i,
    {
        if list_contains(active_labels, command.labels[i].as_str()) {
            return true;
        }
        i = i + 1;
    }
    false
}

/// All distinct labels of the commands, in ascending order.
pub fn collect_labels(commands: &[SavedCommand]) -> (labels: Vec<String>)
    ensures
        strictly_sorted(strs_view(labels@)),
        forall|l: Seq<char>| strs_view(labels@).contains(l) <==> exists|i: int|
            0 <= i < commands@.len() && (#[trigger] commands@[i])@.labels.contains(l),
{
    let mut set = StrSet::new();
    let mut i: usize = 0;
    while i < commands.len()
        invariant
            i <= commands.len(),
            forall|l: Seq<char>| set@.dom().contains(l) <==> exists|k: int|
                0 <= k < i && (#[trigger] commands@[k])@.labels.contains(l),
        decreases commands.len() - i,
    {
        let c = &commands[i];
        let mut j: usize = 0;
        while j < c.labels.len()
            invariant
                i < commands.len(),
                c == commands@[i as int],
                j <= c.labels.len(),
                forall|l: Seq<char>| set@.dom().contains(l) <==> (exists|k: int|
                    0 <= k < i && (#[trigger] commands@[k])@.labels.contains(l)) || exists|m: int|
                    0 <= m < j && (#[trigger] c.labels@[m])@ == l,
            decreases c.labels.len() - j,
        {
            set.insert_key(c.labels[j].clone());
            j = j + 1;
        }
        proof {
            assert forall|l: Seq<char>| set@.dom().contains(l) <==> exists|k: int|
                0 <= k < i + 1 && (#[trigger] commands@[k])@.labels.contains(l) by {
                if set@.dom().contains(l) {
                    if exists|m: int| 0 <= m < c.labels@.len() && (#[trigger] c.labels@[m])@ == l {
                        let m = choose|m: int| 0 <= m < c.labels@.len() && (#[trigger] c.labels@[m])@ == l;
                        assert(commands@[i as int]@.labels[m] == l);
                    }
                }
                if exists|k: int| 0 <= k < i + 1 && (#[trigger] commands@[k])@.labels.contains(l) {
                    let k = choose|k: int| 0 <= k < i + 1 && (#[trigger] commands@[k])@.labels.contains(l);
                    if k == i {
                        let m = choose|m: int| 0 <= m < c@.labels.len() && c@.labels[m] == l;
                        assert(c.labels@[m]@ == l);
                    }
                }
            }
        }
        i = i + 1;
    }
    let ks = set.key_list();
    assert forall|l: Seq<char>| strs_view(ks@).contains(l) <==> set@.dom().contains(l) by {
        assert(strs_view(ks@).to_set().contains(l) == strs_view(ks@).contains(l));
    }
    ks
}

/// Whether a command is visible on a host key (untagged commands are global).
pub fn is_visible_on(command: &SavedCommand, host_key: &str) -> (b: bool)
    ensures
        b == visible_on(command@.host_tags, host_key@),
{
    command.host_tags.len() == 0 || list_contains(command.host_tags.as_slice(), host_key)
}

/// The saved commands visible on `host_key`, in their original order.
pub fn visible_for_host(saved: &[SavedCommand], host_key: &str) -> (r: Vec<SavedCommand>)
    ensures
        commands_view(r@) == visible_commands(commands_view(saved@), host_key@),
{
    let mut r: Vec<SavedCommand> = Vec::new();
    let mut i: usize = 0;
    while i < saved.len()
        invariant
            i <= saved.len(),
            commands_view(r@) == visible_commands(commands_view(saved@.take(i as int)), host_key@),
        decreases saved.len() - i,
    {
        let ghost before = r@;
        let vis = is_visible_on(&saved[i], host_key);
        if vis {
            r.push(saved[i].clone());
        }
        proof {
            let t = commands_view(saved@.take(i + 1));
            assert(t.drop_last() =~= commands_view(saved@.take(i as int)));
            assert(t.last() == saved@[i as int]@);
            assert(commands_view(r@) =~= visible_commands(t, host_key@));
        }
        i = i + 1;
    }
    assert(saved@.take(saved.len() as int) =~= saved@);
    r
}

/// Move the item with `source_uuid` to the position of `target_uuid`;
/// nothing changes when either uuid is absent.
pub fn reorder(items: &mut Vec<SavedCommand>, source_uuid: &str, target_uuid: &str)
    ensures
        match (first_with_uuid(old(items)@, source_uuid@), first_with_uuid(old(items)@, target_uuid@)) {
            (Some(s), Some(t)) => final(items)@ == old(items)@.remove(s).insert(t, old(items)@[s]),
            _ => final(items)@ == old(items)@,
        },
        final(items)@.to_multiset() == old(items)@.to_multiset(),
{
    let src = position_of(items.as_slice(), source_uuid);
    let tgt = position_of(items.as_slice(), target_uuid);
    match (src, tgt) {
        (Some(s), Some(t)) => move_item(items, s, t),
        _ => {},
    }
}

/// Move the element at `s` to position `t` (removing then re-inserting it).
pub fn move_item<T>(items: &mut Vec<T>, s: usize, t: usize)
    requires
        s < old(items)@.len(),
        t < old(items)@.len(),
    ensures
        final(items)@ == old(items)@.remove(s as int).insert(t as int, old(items)@[s as int]),
        final(items)@.to_multiset() == old(items)@.to_multiset(),
{
    let ghost orig = items@;
    let item = items.remove(s);
    items.insert(t, item);
    proof {
        lemma_remove_insert_multiset(orig, s as int, t as int);
    }
}

proof fn lemma_remove_insert_multiset<A>(s: Seq<A>, i: int, j: int)
    requires
        0 <= i < s.len(),
        0 <= j < s.len(),
    ensures
        s.remove(i).insert(j, s[i]).to_multiset() == s.to_multiset(),
{
    broadcast use vstd::seq_lib::group_to_multiset_ensures;
    broadcast use vstd::multiset::group_multiset_axioms;

    let r = s.remove(i);
    assert(r.to_multiset() == s.to_multiset().remove(s[i]));
    assert(r.insert(j, s[i]).to_multiset() == r.to_multiset().insert(s[i]));
    assert(s.to_multiset().contains(s[i]));
    assert(r.insert(j, s[i]).to_multiset() =~= s.to_multiset());
}

/// First index of an item with the given uuid.
pub(crate) fn position_of(items: &[SavedCommand], u: &str) -> (r: Option<usize>)
    ensures
        match r {
            Some(i) => first_with_uuid(items@, u@) == Some(i as int) && i < items@.len(),
            None => first_with_uuid(items@, u@) is None,
        },
{
    let mut i: usize = 0;
    while i < items.len()
        invariant
            i <= items.len(),
            forall|j: int| 0 <= j < i ==> items@[j].uuid@ != u@,
        decreases items.len() - i,
    {
        if crate::text::str_eq(items[i].uuid.as_str(), u) {
            proof {
                let w = choose|k: int| 0 <= k < items@.len() && items@[k].uuid@ == u@ && forall|j: int| 0 <= j < k ==> items@[j].uuid@ != u@;
                if w > i {
                    assert(items@[i as int].uuid@ == u@);
                }
            }
            return Some(i);
        }
        i = i + 1;
    }
    None
}

/// Shell-escape a value for safe inclusion in a single-quoted string.
pub fn shell_escape(value: &str) -> (s: String)
    ensures
        s@ == shell_escape_spec(value@),
{
    let mut out = String::new();
    push_char(&mut out, '\'');
    push_replaced(&mut out, value, '\'', "'\\''");
    push_char(&mut out, '\'');
    assert(out@ =~= shell_escape_spec(value@));
    out
}

/// The effective default value of a parameter: its declared default when
/// that is one of the choices, else the first choice, else empty.
pub fn resolve_default(param: &CommandParameter) -> (s: &str)
    ensures
        s@ == resolve_default_spec(param@),
{
    if let Some(d) = &param.default {
        if list_contains(param.choices.as_slice(), d.as_str()) {
            return d.as_str();
        }
    }
    if param.choices.len() > 0 {
        assert(param@.choices[0] == param.choices@[0]@);
        param.choices[0].as_str()
    } else {
        proof {
            reveal_strlit("");
        }
        ""
    }
}

/// Wrap `body` in a subshell that exports each parameter value in order.
pub fn render_env_block(body: &str, values: &[(String, String)]) -> (s: String)
    ensures
        s@ == env_block_spec(body@, pairs_view(values@)),
{
    let mut result = String::new();
    push_char(&mut result, '(');
    push_char(&mut result, '\n');
    let mut i: usize = 0;
    while i < values.len()
        invariant
            i <= values.len(),
            result@ == seq!['(', '\n'] + export_lines(pairs_view(values@.take(i as int))),
        decreases values.len() - i,
    {
        let ghost before = result@;
        result.append("export ");
        result.append(values[i].0.as_str());
        push_char(&mut result, '=');
        let esc = shell_escape(values[i].1.as_str());
        result.append(esc.as_str());
        push_char(&mut result, '\n');
        proof {
            let t = pairs_view(values@.take(i + 1));
            assert(t.drop_last() =~= pairs_view(values@.take(i as int)));
            assert(t.last() == (values@[i as int].0@, values@[i as int].1@));
            assert(result@ =~= seq!['(', '\n'] + export_lines(t));
        }
        i = i + 1;
    }
    assert(values@.take(values.len() as int) =~= values@);
    result.append(body);
    let bc = chars_of(body);
    if !(bc.len() > 0 && bc[bc.len() - 1] == '\n') {
        push_char(&mut result, '\n');
    }
    push_char(&mut result, ')');
    assert(result@ =~= env_block_spec(body@, pairs_view(values@)));
    result
}

/// Whether `i` is the first position of `d` among `choices`.
pub open spec fn is_first_match(choices: Seq<Seq<char>>, d: Seq<char>, i: int) -> bool {
    0 <= i < choices.len() && choices[i] == d && forall|j: int| 0 <= j < i ==> choices[j] != d
}

/// The choice index a parameter form starts on: the declared default's
/// first position among the choices, else the first.
pub fn resolve_default_index(param: &CommandParameter) -> (r: u32)
    ensures
        match param@.default {
            Some(d) => if param@.choices.contains(d) {
                exists|i: int| #[trigger] is_first_match(param@.choices, d, i) && r == i as u32
            } else {
                r == 0
            },
            None => r == 0,
        },
{
    if let Some(d) = &param.default {
        let mut i: usize = 0;
        while i < param.choices.len()
            invariant
                i <= param.choices@.len(),
                param.default == Some(*d),
                forall|j: int| 0 <= j < i ==> param.choices@[j]@ != d@,
            decreases param.choices.len() - i,
        {
            if crate::text::str_eq(param.choices[i].as_str(), d.as_str()) {
                let r = #[verifier::truncate] (i as u32);
                proof {
                    let k = i as int;
                    assert forall|j: int| 0 <= j < k implies param@.choices[j] != d@ by {
                        assert(param@.choices[j] == param.choices@[j]@);
                    }
                    assert(is_first_match(param@.choices, d@, k));
                    assert(param@.choices[k] == d@);
                }
                return r;
            }
            i = i + 1;
        }
    }
    0
}

/// The run mode at a position of the run-mode menu (Run, Insert, Run in
/// new pane); anything else is Run.
pub open spec fn run_mode_at(index: u32) -> CommandRunMode {
    if index == 1 {
        CommandRunMode::Insert
    } else if index == 2 {
        CommandRunMode::RunInNewPane
    } else {
        CommandRunMode::Run
    }
}

/// The position of a run mode in the run-mode menu.
pub open spec fn run_mode_position(run_mode: CommandRunMode) -> u32 {
    match run_mode {
        CommandRunMode::Run => 0,
        CommandRunMode::Insert => 1,
        CommandRunMode::RunInNewPane => 2,
    }
}

/// The run mode at a position of the run-mode menu.
pub fn run_mode_from_index(index: u32) -> (m: CommandRunMode)
    ensures
        m == run_mode_at(index),
{
    match index {
        1 => CommandRunMode::Insert,
        2 => CommandRunMode::RunInNewPane,
        _ => CommandRunMode::Run,
    }
}

/// The position of a run mode in the run-mode menu.
pub fn run_mode_index(run_mode: CommandRunMode) -> (i: u32)
    ensures
        i == run_mode_position(run_mode),
{
    match run_mode {
        CommandRunMode::Run => 0,
        CommandRunMode::Insert => 1,
        CommandRunMode::RunInNewPane => 2,
    }
}

/// Showing a command's run mode in the menu and reading the menu back
/// gives the same run mode.
pub proof fn law_run_mode_menu_round_trip(run_mode: CommandRunMode)
    ensures
        run_mode_at(run_mode_position(run_mode)) == run_mode,
{
}

/// Command search ignores the letter case of the query: a query and its
/// lower-cased form match the same commands.
pub proof fn law_command_search_ignores_query_case(c: SavedCommandView, q: Seq<char>)
    ensures
        matches_query_spec(c, q) == matches_query_spec(c, lower(q)),
{
    lemma_trim_lower(q);
    lemma_lower_idempotent(trim(q));
}

/// Command search finds a command whose title, body, description, a host
/// tag or a label holds the trimmed query, letter case ignored on both
/// sides; a blank query matches every command.
pub proof fn law_command_search_finds_text(c: SavedCommandView, q: Seq<char>)
    ensures
        trim(q).len() == 0 ==> matches_query_spec(c, q),
        contains(lower(c.title), lower(trim(q))) ==> matches_query_spec(c, q),
        contains(lower(c.body), lower(trim(q))) ==> matches_query_spec(c, q),
        contains(lower(c.description), lower(trim(q))) ==> matches_query_spec(c, q),
        forall|i: int| 0 <= i < c.host_tags.len() && contains(lower(#[trigger] c.host_tags[i]), lower(trim(q)))
            ==> matches_query_spec(c, q),
        forall|i: int| 0 <= i < c.labels.len() && contains(lower(#[trigger] c.labels[i]), lower(trim(q)))
            ==> matches_query_spec(c, q),
{
}

} // verus!
