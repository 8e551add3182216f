//! The place editor form: turning the typed fields into a place.

use vstd::prelude::*;

use crate::ids::is_hyphenated_uuid;
use crate::places::Place;
use crate::text::{owned, str_eq, strs_view, trim, trimmed};

verus! {

pub const PLACE_NAME_REQUIRED: &'static str = "Place name is required";
pub const PLACE_PATH_REQUIRED: &'static str = "Place path is required";

/// A place from the editor's name and path fields and the host keys
/// checked in its tag picker, keeping `existing_uuid` when an existing
/// place is edited. Name and path are trimmed and both required.
pub fn build_place(name: &str, path: &str, host_tags: Vec<String>, existing_uuid: Option<String>) -> (r: Result<
    Place,
    String,
>)
    ensures
        trim(name@).len() == 0 ==> (r matches Err(e) && e@ == PLACE_NAME_REQUIRED@),
        trim(name@).len() > 0 && trim(path@).len() == 0 ==> (r matches Err(e) && e@ == PLACE_PATH_REQUIRED@),
        r is Ok <==> trim(name@).len() > 0 && trim(path@).len() > 0,
        r matches Ok(p) ==> {
            &&& p@.name == trim(name@)
            &&& p@.path == trim(path@)
            &&& p@.host_tags == strs_view(host_tags@)
            &&& match existing_uuid {
                Some(u) => p@.uuid == u@,
                None => is_hyphenated_uuid(p@.uuid),
            }
        },
{
    let name = trimmed(name);
    if name.unicode_len() == 0 {
        return Err(owned(PLACE_NAME_REQUIRED));
    }
    let path = trimmed(path);
    if path.unicode_len() == 0 {
        return Err(owned(PLACE_PATH_REQUIRED));
    }
    let mut place = Place::new(name, path);
    if let Some(uuid) = existing_uuid {
        place.uuid = uuid;
    }
    place.host_tags = host_tags;
    Ok(place)
}

/// The position of the first place with id `u`.
pub open spec fn first_place_with_uuid(items: Seq<Place>, u: Seq<char>) -> Option<int> {
    if exists|i: int| 0 <= i < items.len() && items[i].uuid@ == u {
        Some(choose|i: int| 0 <= i < items.len() && items[i].uuid@ == u && forall|j: int| 0 <= j < i ==> items[j].uuid@ != u)
    } else {
        None
    }
}

/// Put a place into the list: it replaces the first place with the same
/// id, or is appended when there is none.
pub fn save_into(items: &mut Vec<Place>, place: Place)
    ensures
        match first_place_with_uuid(old(items)@, place.uuid@) {
            Some(i) => final(items)@ == old(items)@.update(i, place),
            None => final(items)@ == old(items)@.push(place),
        },
{
    let mut i: usize = 0;
    while i < items.len()
        invariant
            i <= items@.len(),
            items@ == old(items)@,
            forall|j: int| 0 <= j < i ==> items@[j].uuid@ != place.uuid@,
        decreases items@.len() - i,
    {
        if str_eq(items[i].uuid.as_str(), place.uuid.as_str()) {
            proof {
                let q = choose|q: int| 0 <= q < items@.len() && items@[q].uuid@ == place.uuid@ && forall|j: int| 0 <= j < q ==> items@[j].uuid@ != place.uuid@;
                assert(q == i as int) by {
                    if q < i {
                        assert(items@[q].uuid@ != place.uuid@);
                    }
                    if q > i {
                        assert(items@[i as int].uuid@ != place.uuid@);
                    }
                }
            }
            items[i] = place;
            return;
        }
        i = i + 1;
    }
    items.push(place);
}

} // verus!
