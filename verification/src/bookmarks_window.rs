//! The bookmark editor form: turning the typed fields into a bookmark.

use vstd::prelude::*;

use crate::bookmarks::{bookmark_position, first_bookmark_with_uuid, Bookmark};
use crate::form_dialog::entry_value;
use crate::ids::is_hyphenated_uuid;
use crate::text::{lemma_trim_idempotent, non_empty, owned, trim, trimmed};

verus! {

pub const BOOKMARK_NAME_REQUIRED: &'static str = "Bookmark name is required";
pub const BOOKMARK_TARGET_REQUIRED: &'static str = "Add a directory, SSH target, or both";

/// A bookmark from the editor's name, directory and ssh target fields,
/// keeping `existing_uuid` when an existing bookmark is edited. Fields
/// are trimmed and blank ones left unset; the name is required, and so is
/// a directory or an ssh target.
pub fn build_bookmark(name: &str, directory: &str, ssh_target: &str, existing_uuid: Option<String>) -> (r: Result<
    Bookmark,
    String,
>)
    ensures
        trim(name@).len() == 0 ==> (r matches Err(e) && e@ == BOOKMARK_NAME_REQUIRED@),
        trim(name@).len() > 0 && trim(directory@).len() == 0 && trim(ssh_target@).len() == 0 ==> (r matches Err(
            e,
        ) && e@ == BOOKMARK_TARGET_REQUIRED@),
        r is Ok <==> trim(name@).len() > 0 && (trim(directory@).len() > 0 || trim(ssh_target@).len() > 0),
        r matches Ok(b) ==> {
            &&& b@.name == trim(name@)
            &&& b@.directory == non_empty(Some(directory@))
            &&& b@.ssh_target == non_empty(Some(ssh_target@))
            &&& match existing_uuid {
                Some(u) => b@.uuid == u@,
                None => is_hyphenated_uuid(b@.uuid),
            }
        },
{
    let name = trimmed(name);
    if name.unicode_len() == 0 {
        return Err(owned(BOOKMARK_NAME_REQUIRED));
    }
    let mut bookmark = Bookmark::new(name);
    if let Some(uuid) = existing_uuid {
        bookmark.uuid = uuid;
    }
    bookmark.directory = entry_value(directory);
    bookmark.ssh_target = entry_value(ssh_target);
    proof {
        lemma_trim_idempotent(directory@);
        lemma_trim_idempotent(ssh_target@);
    }
    if !bookmark.is_actionable() {
        return Err(owned(BOOKMARK_TARGET_REQUIRED));
    }
    Ok(bookmark)
}

/// Put a bookmark into the list: it replaces the first bookmark with the
/// same id, or is appended when there is none.
pub fn save_into(items: &mut Vec<Bookmark>, b: Bookmark)
    ensures
        match first_bookmark_with_uuid(old(items)@, b.uuid@) {
            Some(i) => final(items)@ == old(items)@.update(i, b),
            None => final(items)@ == old(items)@.push(b),
        },
{
    match bookmark_position(items.as_slice(), b.uuid.as_str()) {
        Some(i) => {
            items[i] = b;
        },
        None => items.push(b),
    }
}

} // verus!
