//! The parameter prompt shown before a parameterised command runs: the
//! values picked in its drop-downs and the preview of what will be sent.

use vstd::prelude::*;

use crate::commands::{env_block_spec, pairs_view, render_env_block, CommandParameter, CommandParameterView};

verus! {

/// The value picked for a parameter: the choice at the selected position,
/// or empty text when nothing valid is selected.
pub open spec fn chosen_value(p: CommandParameterView, selected: u32) -> Seq<char> {
    if (selected as nat) < p.choices.len() {
        p.choices[selected as int]
    } else {
        Seq::empty()
    }
}

/// Name/value pairs of the prompt: each parameter paired with its row
/// (the row's name and selected position), up to the shorter list.
pub open spec fn collected_values(params: Seq<CommandParameterView>, rows: Seq<(Seq<char>, u32)>) -> Seq<
    (Seq<char>, Seq<char>),
> {
    let n = if params.len() <= rows.len() {
        params.len()
    } else {
        rows.len()
    };
    Seq::new(n, |i: int| (rows[i].0, chosen_value(params[i], rows[i].1)))
}

/// Views of the prompt rows.
pub open spec fn rows_view(rows: Seq<(String, u32)>) -> Seq<(Seq<char>, u32)> {
    rows.map_values(|r: (String, u32)| (r.0@, r.1))
}

/// Views of a list of parameters.
pub open spec fn params_view(params: Seq<CommandParameter>) -> Seq<CommandParameterView> {
    params.map_values(|p: CommandParameter| p@)
}

/// The values picked in the prompt, as name/value pairs for the
/// environment block.
pub fn collect_values(parameters: &[CommandParameter], rows: &[(String, u32)]) -> (r: Vec<(String, String)>)
    ensures
        pairs_view(r@) == collected_values(params_view(parameters@), rows_view(rows@)),
{
    let n = if parameters.len() <= rows.len() {
        parameters.len()
    } else {
        rows.len()
    };
    let ghost want = collected_values(params_view(parameters@), rows_view(rows@));
    let mut out: Vec<(String, String)> = Vec::new();
    let mut i: usize = 0;
    while i < n
        invariant
            i <= n,
            n <= parameters@.len(),
            n <= rows@.len(),
            want == collected_values(params_view(parameters@), rows_view(rows@)),
            want.len() == n,
            pairs_view(out@) == want.take(i as int),
        decreases n - i,
    {
        let p = &parameters[i];
        let selected = rows[i].1;
        let value = if (selected as usize) < p.choices.len() {
            p.choices[selected as usize].clone()
        } else {
            String::new()
        };
        let ghost before = out@;
        out.push((rows[i].0.clone(), value));
        proof {
            assert(params_view(parameters@)[i as int] == parameters@[i as int]@);
            assert(rows_view(rows@)[i as int] == (rows@[i as int].0@, rows@[i as int].1));
            assert(value@ == chosen_value(parameters@[i as int]@, selected));
            assert(pairs_view(out@) =~= pairs_view(before).push((rows@[i as int].0@, value@)));
        }
        assert(pairs_view(out@) =~= want.take(i + 1));
        i = i + 1;
    }
    assert(want.take(n as int) =~= want);
    out
}

/// The text the command sends with the picked values: the body wrapped
/// in its environment block.
pub fn preview_text(body: &str, parameters: &[CommandParameter], rows: &[(String, u32)]) -> (s: String)
    ensures
        s@ == env_block_spec(body@, collected_values(params_view(parameters@), rows_view(rows@))),
{
    let values = collect_values(parameters, rows);
    render_env_block(body, values.as_slice())
}

} // verus!
