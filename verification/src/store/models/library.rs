//! Library document model (`library.json`): places and commands.

use vstd::prelude::*;

use super::commands::{command_run_mode, stored_run_mode, RunMode};
use crate::commands::{clone_strings, CommandParameter, SavedCommand, SavedCommandView};
use crate::places::{Place, PlaceView};
use crate::text::strs_view;
use crate::store::envelope::Schema;

verus! {

pub const SCHEMA: Schema = Schema::Library;
pub const CURRENT_VERSION: u32 = 1;

/// A stored place.
#[derive(Debug, Clone, PartialEq, Eq)]
pub struct PlaceRecord {
    pub id: String,
    pub name: String,
    pub path: String,
    pub host_tags: Vec<String>,
}

/// A stored command.
#[derive(Debug, Clone, PartialEq, Eq)]
pub struct CommandRecord {
    pub id: String,
    pub title: String,
    pub body: String,
    pub default_run_mode: RunMode,
    pub host_tags: Vec<String>,
    pub parameters: Vec<CommandParameter>,
    pub description: String,
    pub labels: Vec<String>,
    pub shortcut_keys: Vec<String>,
}

/// The run mode of a stored command that names none.
pub fn default_run_mode() -> (m: RunMode)
    ensures
        m == RunMode::Run,
{
    RunMode::Run
}

/// All stored places and commands.
#[derive(Debug, Clone, PartialEq, Eq)]
pub struct Library {
    pub places: Vec<PlaceRecord>,
    pub commands: Vec<CommandRecord>,
}

impl Default for Library {
    fn default() -> (l: Self)
        ensures
            l.places@.len() == 0,
            l.commands@.len() == 0,
    {
        Library { places: Vec::new(), commands: Vec::new() }
    }
}

/// `r` holds every field of the place `p`.
pub open spec fn stores_place(r: PlaceRecord, p: PlaceView) -> bool {
    &&& r.id@ == p.uuid
    &&& r.name@ == p.name
    &&& r.path@ == p.path
    &&& strs_view(r.host_tags@) == p.host_tags
}

/// `r` holds every field of the command `c`, its run mode in stored form.
pub open spec fn stores_command(r: CommandRecord, c: SavedCommand) -> bool {
    &&& r.id@ == c@.uuid
    &&& r.title@ == c@.title
    &&& r.body@ == c@.body
    &&& r.default_run_mode == stored_run_mode(c.default_run_mode)
    &&& strs_view(r.host_tags@) == c@.host_tags
    &&& r.parameters@.map_values(|p: CommandParameter| p@) == c@.parameters
    &&& r.description@ == c@.description
    &&& strs_view(r.labels@) == c@.labels
    &&& strs_view(r.shortcut_keys@) == c@.shortcut_keys
}

impl PlaceRecord {
    /// The stored form of a place.
    pub fn from_place(p: &Place) -> (r: Self)
        ensures
            stores_place(r, p@),
    {
        PlaceRecord { id: p.uuid.clone(), name: p.name.clone(), path: p.path.clone(), host_tags: clone_strings(&p.host_tags) }
    }

    /// The place a stored one describes.
    pub fn to_place(&self) -> (p: Place)
        ensures
            p@ == (PlaceView {
                uuid: self.id@,
                name: self.name@,
                path: self.path@,
                host_tags: strs_view(self.host_tags@),
            }),
    {
        Place { uuid: self.id.clone(), name: self.name.clone(), path: self.path.clone(), host_tags: clone_strings(&self.host_tags) }
    }
}

/// The saved command a stored one describes.
pub open spec fn command_of_record(r: CommandRecord) -> SavedCommandView {
    SavedCommandView {
        uuid: r.id@,
        title: r.title@,
        body: r.body@,
        default_run_mode: command_run_mode(r.default_run_mode),
        host_tags: strs_view(r.host_tags@),
        parameters: r.parameters@.map_values(|p: CommandParameter| p@),
        description: r.description@,
        labels: strs_view(r.labels@),
        shortcut_keys: strs_view(r.shortcut_keys@),
    }
}

impl CommandRecord {
    /// The stored form of a saved command: every field, the run mode in its
    /// stored form.
    pub fn from_command(c: &SavedCommand) -> (r: Self)
        ensures
            stores_command(r, *c),
    {
        let copy = c.clone();
        CommandRecord {
            id: copy.uuid,
            title: copy.title,
            body: copy.body,
            default_run_mode: RunMode::from_command(copy.default_run_mode),
            host_tags: copy.host_tags,
            parameters: copy.parameters,
            description: copy.description,
            labels: copy.labels,
            shortcut_keys: copy.shortcut_keys,
        }
    }

    /// The saved command a stored one describes.
    pub fn to_command(&self) -> (c: SavedCommand)
        ensures
            c@ == command_of_record(*self),
    {
        let parameters = self.parameters.clone();
        assert(parameters@.map_values(|p: CommandParameter| p@) =~= self.parameters@.map_values(
            |p: CommandParameter| p@,
        ));
        SavedCommand {
            uuid: self.id.clone(),
            title: self.title.clone(),
            body: self.body.clone(),
            default_run_mode: self.default_run_mode.to_command(),
            host_tags: clone_strings(&self.host_tags),
            parameters,
            description: self.description.clone(),
            labels: clone_strings(&self.labels),
            shortcut_keys: clone_strings(&self.shortcut_keys),
        }
    }
}

impl Library {
    /// The library document of the given places and commands, in order.
    pub fn from_items(places: &[Place], commands: &[SavedCommand]) -> (l: Self)
        ensures
            l.places@.len() == places@.len(),
            forall|i: int| 0 <= i < places@.len() ==> #[trigger] l.places@[i].to_place_spec() == places@[i]@,
            l.commands@.len() == commands@.len(),
            forall|i: int| 0 <= i < commands@.len() ==> #[trigger] command_of_record(l.commands@[i])
                == commands@[i]@,
    {
        let mut ps: Vec<PlaceRecord> = Vec::new();
        let mut i: usize = 0;
        while i < places.len()
            invariant
                i <= places@.len(),
                ps@.len() == i,
                forall|j: int| 0 <= j < i ==> #[trigger] ps@[j].to_place_spec() == places@[j]@,
            decreases places@.len() - i,
        {
            ps.push(PlaceRecord::from_place(&places[i]));
            i = i + 1;
        }
        let mut cs: Vec<CommandRecord> = Vec::new();
        let mut k: usize = 0;
        while k < commands.len()
            invariant
                k <= commands@.len(),
                cs@.len() == k,
                forall|j: int| 0 <= j < k ==> #[trigger] command_of_record(cs@[j]) == commands@[j]@,
            decreases commands@.len() - k,
        {
            let r = CommandRecord::from_command(&commands[k]);
            proof {
                lemma_run_mode_round_trip(commands@[k as int].default_run_mode);
            }
            cs.push(r);
            k = k + 1;
        }
        Library { places: ps, commands: cs }
    }

    /// The places and commands of the library document, in order.
    pub fn to_items(&self) -> (r: (Vec<Place>, Vec<SavedCommand>))
        ensures
            r.0@.len() == self.places@.len(),
            forall|i: int| 0 <= i < self.places@.len() ==> #[trigger] r.0@[i]@ == self.places@[i].to_place_spec(),
            r.1@.len() == self.commands@.len(),
            forall|i: int| 0 <= i < self.commands@.len() ==> #[trigger] r.1@[i]@ == command_of_record(
                self.commands@[i],
            ),
    {
        let mut ps: Vec<Place> = Vec::new();
        let mut i: usize = 0;
        while i < self.places.len()
            invariant
                i <= self.places@.len(),
                ps@.len() == i,
                forall|j: int| 0 <= j < i ==> #[trigger] ps@[j]@ == self.places@[j].to_place_spec(),
            decreases self.places@.len() - i,
        {
            ps.push(self.places[i].to_place());
            i = i + 1;
        }
        let mut cs: Vec<SavedCommand> = Vec::new();
        let mut k: usize = 0;
        while k < self.commands.len()
            invariant
                k <= self.commands@.len(),
                cs@.len() == k,
                forall|j: int| 0 <= j < k ==> #[trigger] cs@[j]@ == command_of_record(self.commands@[j]),
            decreases self.commands@.len() - k,
        {
            cs.push(self.commands[k].to_command());
            k = k + 1;
        }
        (ps, cs)
    }
}

impl PlaceRecord {
    /// The place a stored one describes.
    pub open spec fn to_place_spec(self) -> PlaceView {
        PlaceView { uuid: self.id@, name: self.name@, path: self.path@, host_tags: strs_view(self.host_tags@) }
    }
}

/// Storing a run mode and reading it back gives the same run mode.
pub proof fn lemma_run_mode_round_trip(m: crate::commands::CommandRunMode)
    ensures
        command_run_mode(stored_run_mode(m)) == m,
{
}

/// Saving a place or a command in the library document and reading it
/// back gives the same place or command, every field included.
pub proof fn law_library_round_trip(p: Place, c: SavedCommand, pr: PlaceRecord, cr: CommandRecord)
    requires
        stores_place(pr, p@),
        stores_command(cr, c),
    ensures
        pr.to_place_spec() == p@,
        command_of_record(cr) == c@,
{
    lemma_run_mode_round_trip(c.default_run_mode);
}

} // verus!
