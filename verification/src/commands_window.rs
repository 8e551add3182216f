//! The command editor form: turning the typed fields into a saved
//! command, with the parameter rows it declares.

use vstd::prelude::*;

use crate::commands::{first_with_uuid, position_of, run_mode_at, run_mode_from_index, CommandParameter, CommandParameterView, SavedCommand};
use crate::form_dialog::entry_value;
use crate::ids::is_hyphenated_uuid;
use crate::text::{list_items, list_items_exec, non_empty, owned, str_eq, strs_view, trim, trimmed};

verus! {

pub const COMMAND_TITLE_REQUIRED: &'static str = "Command title is required";
pub const COMMAND_BODY_REQUIRED: &'static str = "Command body is required";
pub const PARAMETER_NAME_REQUIRED: &'static str = "Parameter variable name is required";
pub const PARAMETER_LABEL_REQUIRED: &'static str = "Parameter label is required";

/// The texts typed into one parameter row of the editor: variable name,
/// label, description, comma-separated choices and default value.
#[derive(Debug, Clone, PartialEq, Eq)]
pub struct ParameterFields {
    pub name: String,
    pub label: String,
    pub description: String,
    pub choices: String,
    pub default: String,
}

/// The parameter a row declares, or the message refusing it: name and
/// label are required; every field is trimmed; choices are the non-blank
/// comma-separated items; a blank default is no default.
pub open spec fn parsed_parameter(f: ParameterFields) -> Result<CommandParameterView, Seq<char>> {
    if trim(f.name@).len() == 0 {
        Err(PARAMETER_NAME_REQUIRED@)
    } else if trim(f.label@).len() == 0 {
        Err(PARAMETER_LABEL_REQUIRED@)
    } else {
        Ok(
            CommandParameterView {
                name: trim(f.name@),
                label: trim(f.label@),
                choices: list_items(trim(f.choices@)),
                default: non_empty(Some(f.default@)),
                description: trim(f.description@),
            },
        )
    }
}

/// Every row of `rows` declares a parameter.
pub open spec fn all_parsed(rows: Seq<ParameterFields>) -> bool {
    forall|i: int| 0 <= i < rows.len() ==> (#[trigger] parsed_parameter(rows[i])) is Ok
}

/// `e` is the message of the first row of `rows` that declares none.
pub open spec fn first_refusal(rows: Seq<ParameterFields>, e: Seq<char>) -> bool {
    exists|i: int|
        0 <= i < rows.len() && #[trigger] parsed_parameter(rows[i]) == Err::<CommandParameterView, Seq<char>>(e)
            && forall|j: int| 0 <= j < i ==> (#[trigger] parsed_parameter(rows[j])) is Ok
}

/// `params` are the parameters the rows declare, in order.
pub open spec fn declares(rows: Seq<ParameterFields>, params: Seq<CommandParameterView>) -> bool {
    &&& params.len() == rows.len()
    &&& forall|i: int| 0 <= i < rows.len() ==> #[trigger] parsed_parameter(rows[i]) == Ok::<
        CommandParameterView,
        Seq<char>,
    >(params[i])
}

/// The parameter one row declares.
pub fn parse_parameter(f: &ParameterFields) -> (r: Result<CommandParameter, String>)
    ensures
        match r {
            Ok(p) => parsed_parameter(*f) == Ok::<CommandParameterView, Seq<char>>(p@),
            Err(e) => parsed_parameter(*f) == Err::<CommandParameterView, Seq<char>>(e@),
        },
{
    let name = trimmed(f.name.as_str());
    if name.unicode_len() == 0 {
        return Err(owned(PARAMETER_NAME_REQUIRED));
    }
    let label = trimmed(f.label.as_str());
    if label.unicode_len() == 0 {
        return Err(owned(PARAMETER_LABEL_REQUIRED));
    }
    let description = trimmed(f.description.as_str());
    let choices = list_items_exec(trimmed(f.choices.as_str()));
    let default = entry_value(f.default.as_str());
    let p = CommandParameter {
        name: owned(name),
        label: owned(label),
        choices,
        default,
        description: owned(description),
    };
    Ok(p)
}

/// The parameters declared by the editor's rows, in order, or the message
/// of the first row that declares none.
pub fn extract_parameters(rows: &[ParameterFields]) -> (r: Result<Vec<CommandParameter>, String>)
    ensures
        r is Ok <==> all_parsed(rows@),
        r matches Ok(v) ==> declares(rows@, v@.map_values(|p: CommandParameter| p@)),
        r matches Err(e) ==> first_refusal(rows@, e@),
{
    let mut params: Vec<CommandParameter> = Vec::new();
    let mut i: usize = 0;
    while i < rows.len()
        invariant
            i <= rows@.len(),
            params@.len() == i,
            forall|j: int| 0 <= j < i ==> #[trigger] parsed_parameter(rows@[j]) == Ok::<
                CommandParameterView,
                Seq<char>,
            >(params@[j]@),
        decreases rows@.len() - i,
    {
        match parse_parameter(&rows[i]) {
            Ok(p) => params.push(p),
            Err(e) => {
                assert(parsed_parameter(rows@[i as int]) == Err::<CommandParameterView, Seq<char>>(e@));
                return Err(e);
            },
        }
        i = i + 1;
    }
    let ghost views = params@.map_values(|p: CommandParameter| p@);
    assert forall|j: int| 0 <= j < rows@.len() implies #[trigger] parsed_parameter(rows@[j]) == Ok::<
        CommandParameterView,
        Seq<char>,
    >(views[j]) by {}
    Ok(params)
}

fn copy_strings(v: &[String]) -> (r: Vec<String>)
    ensures
        r@ == v@,
{
    let mut out: Vec<String> = Vec::new();
    let mut i: usize = 0;
    while i < v.len()
        invariant
            i <= v@.len(),
            out@ == v@.take(i as int),
        decreases v@.len() - i,
    {
        out.push(v[i].clone());
        assert(out@ =~= v@.take(i + 1));
        i = i + 1;
    }
    assert(v@.take(v@.len() as int) =~= v@);
    out
}

/// A saved command from the editor's fields: title, description,
/// comma-separated labels, body, the position picked in the run-mode
/// list, the host keys checked in its tag picker, its parameter rows and
/// its captured shortcut keys, keeping `existing_uuid` when an existing
/// command is edited. Title and body are required (the body is stored as
/// typed); then each parameter row must declare a parameter.
pub fn build_command(
    title: &str,
    description: &str,
    labels: &str,
    body: &str,
    run_mode_index: u32,
    host_tags: Vec<String>,
    parameter_rows: &[ParameterFields],
    existing_uuid: Option<String>,
    shortcut_keys: &[String],
) -> (r: Result<SavedCommand, String>)
    ensures
        trim(title@).len() == 0 ==> (r matches Err(e) && e@ == COMMAND_TITLE_REQUIRED@),
        trim(title@).len() > 0 && trim(body@).len() == 0 ==> (r matches Err(e) && e@ == COMMAND_BODY_REQUIRED@),
        trim(title@).len() > 0 && trim(body@).len() > 0 ==> (r matches Err(e) ==> first_refusal(
            parameter_rows@,
            e@,
        )),
        r is Ok <==> trim(title@).len() > 0 && trim(body@).len() > 0 && all_parsed(parameter_rows@),
        r matches Ok(c) ==> {
            &&& c@.title == trim(title@)
            &&& c@.body == body@
            &&& c.default_run_mode == run_mode_at(run_mode_index)
            &&& c@.host_tags == strs_view(host_tags@)
            &&& declares(parameter_rows@, c@.parameters)
            &&& c@.description == trim(description@)
            &&& c@.labels == list_items(labels@)
            &&& c@.shortcut_keys == strs_view(shortcut_keys@)
            &&& match existing_uuid {
                Some(u) => c@.uuid == u@,
                None => is_hyphenated_uuid(c@.uuid),
            }
        },
{
    let title = trimmed(title);
    if title.unicode_len() == 0 {
        return Err(owned(COMMAND_TITLE_REQUIRED));
    }
    if trimmed(body).unicode_len() == 0 {
        return Err(owned(COMMAND_BODY_REQUIRED));
    }
    let parameters = match extract_parameters(parameter_rows) {
        Ok(p) => p,
        Err(e) => return Err(e),
    };
    let labels = list_items_exec(labels);
    let mut command = SavedCommand::new(title, body);
    if let Some(uuid) = existing_uuid {
        command.uuid = uuid;
    }
    command.default_run_mode = run_mode_from_index(run_mode_index);
    command.host_tags = host_tags;
    command.parameters = parameters;
    command.description = owned(trimmed(description));
    command.labels = labels;
    command.shortcut_keys = copy_strings(shortcut_keys);
    Ok(command)
}

/// Keys a shortcut sequence holds at most.
pub const MAX_SEQUENCE_KEYS: usize = 2;

/// What the shortcut capture dialog does after a key press.
#[derive(Debug, Clone, Copy, PartialEq, Eq, Structural)]
pub enum CaptureStep {
    /// Keep capturing.
    Continue,
    /// Close without changing the command's sequence.
    Cancel,
    /// Close, taking the captured keys as the sequence when there are any.
    Confirm,
}

/// The step a key press leads to in the capture dialog.
pub open spec fn capture_step(key_name: Seq<char>) -> CaptureStep {
    if key_name == "Escape"@ {
        CaptureStep::Cancel
    } else if key_name == "Return"@ || key_name == "KP_Enter"@ {
        CaptureStep::Confirm
    } else {
        CaptureStep::Continue
    }
}

/// A key press in the shortcut capture dialog, by key name: Escape
/// cancels, Enter confirms, a key without a name is ignored, and any
/// other key is added to the sequence while it has room.
pub fn capture_key(captured: &mut Vec<String>, key_name: &str) -> (r: CaptureStep)
    ensures
        r == capture_step(key_name@),
        (r is Continue && key_name@.len() > 0 && old(captured)@.len() < MAX_SEQUENCE_KEYS) ==> strs_view(
            final(captured)@,
        ) == strs_view(old(captured)@).push(key_name@),
        !(r is Continue && key_name@.len() > 0 && old(captured)@.len() < MAX_SEQUENCE_KEYS) ==> final(captured)@
            == old(captured)@,
{
    if str_eq(key_name, "Escape") {
        return CaptureStep::Cancel;
    }
    if str_eq(key_name, "Return") || str_eq(key_name, "KP_Enter") {
        return CaptureStep::Confirm;
    }
    if key_name.unicode_len() > 0 && captured.len() < MAX_SEQUENCE_KEYS {
        captured.push(owned(key_name));
        assert(strs_view(captured@) =~= strs_view(old(captured)@).push(key_name@));
    }
    CaptureStep::Continue
}

/// Put a saved command into the list: it replaces the first command with
/// the same id, or is appended when there is none.
pub fn save_into(items: &mut Vec<SavedCommand>, cmd: SavedCommand)
    ensures
        match first_with_uuid(old(items)@, cmd.uuid@) {
            Some(i) => final(items)@ == old(items)@.update(i, cmd),
            None => final(items)@ == old(items)@.push(cmd),
        },
{
    match position_of(items.as_slice(), cmd.uuid.as_str()) {
        Some(i) => {
            items[i] = cmd;
        },
        None => items.push(cmd),
    }
}

} // verus!
