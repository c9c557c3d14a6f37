//! Which fan the user controls: one fan by id, or all fans at once.
use vstd::prelude::*;
use crate::mode::Fan;

verus! {

/// The selection id that stands for "all fans".
pub const ALL_FANS_SELECTION_ID: i32 = -1;

/// Some fan in `fans` has the id `id`.
pub open spec fn has_fan_id<R>(fans: Seq<Fan<R>>, id: i32) -> bool {
    exists|i: int| 0 <= i < fans.len() && #[trigger] fans[i].id == id
}

/// `i` is the first position in `fans` of a fan with the id `id`.
pub open spec fn is_first_with_id<R>(fans: Seq<Fan<R>>, id: i32, i: int) -> bool {
    &&& 0 <= i < fans.len()
    &&& fans[i].id == id
    &&& forall|j: int| 0 <= j < i ==> #[trigger] fans[j].id != id
}

/// The position of the first fan with the id `id`, if there is one.
pub open spec fn first_index_with_id<R>(fans: Seq<Fan<R>>, id: i32) -> Option<int> {
    if has_fan_id(fans, id) {
        Some(choose|i: int| is_first_with_id(fans, id, i))
    } else {
        None
    }
}

/// The selection that stands after the user (or a refresh) asked for
/// `requested`: "all fans" when there is no fan, the requested fan or
/// "all fans" when that is what was asked for, and otherwise the first fan.
pub open spec fn normalized_selection<R>(fans: Seq<Fan<R>>, requested: i32) -> i32 {
    if fans.len() == 0 {
        ALL_FANS_SELECTION_ID
    } else if requested != ALL_FANS_SELECTION_ID && !has_fan_id(fans, requested) {
        fans[0].id
    } else {
        requested
    }
}

/// Where some fan has the id, a first such fan exists.
pub proof fn lemma_first_index_exists<R>(fans: Seq<Fan<R>>, id: i32, i: int)
    requires
        0 <= i < fans.len(),
        fans[i].id == id,
    ensures
        exists|k: int| is_first_with_id(fans, id, k),
    decreases i,
{
    if exists|j: int| 0 <= j < i && #[trigger] fans[j].id == id {
        let j = choose|j: int| 0 <= j < i && #[trigger] fans[j].id == id;
        lemma_first_index_exists(fans, id, j);
    } else {
        assert(is_first_with_id(fans, id, i));
    }
}

/// There is at most one first position of an id.
pub proof fn lemma_first_index_unique<R>(fans: Seq<Fan<R>>, id: i32, i: int, k: int)
    requires
        is_first_with_id(fans, id, i),
        is_first_with_id(fans, id, k),
    ensures
        i == k,
{
    if i < k {
        assert(fans[i].id != id);
    } else if k < i {
        assert(fans[k].id != id);
    }
}

/// Whether some fan has the id `id`.
pub fn contains_fan_id<R>(fans: &Vec<Fan<R>>, id: i32) -> (found: bool)
    ensures
        found == has_fan_id(fans@, id),
{
    let mut i: usize = 0;
    while i < fans.len()
        invariant
            i <= fans.len(),
            forall|j: int| 0 <= j < i ==> #[trigger] fans@[j].id != id,
        decreases fans.len() - i,
    {
        if fans[i].id == id {
            return true;
        }
        i = i + 1;
    }
    false
}

/// The position of the first fan with the id `id`.
pub fn index_of_fan<R>(fans: &Vec<Fan<R>>, id: i32) -> (found: Option<usize>)
    ensures
        match found {
            Some(i) => first_index_with_id(fans@, id) == Some(i as int),
            None => first_index_with_id(fans@, id) is None,
        },
{
    let mut i: usize = 0;
    while i < fans.len()
        invariant
            i <= fans.len(),
            forall|j: int| 0 <= j < i ==> #[trigger] fans@[j].id != id,
        decreases fans.len() - i,
    {
        if fans[i].id == id {
            proof {
                assert(is_first_with_id(fans@, id, i as int));
                assert(has_fan_id(fans@, id));
                let k = choose|k: int| is_first_with_id(fans@, id, k);
                lemma_first_index_unique(fans@, id, i as int, k);
            }
            return Some(i);
        }
        i = i + 1;
    }
    None
}

/// The selection that stands after asking for `requested` (see
/// `normalized_selection`).
pub fn normalize_selection<R>(fans: &Vec<Fan<R>>, requested: i32) -> (selected: i32)
    ensures
        selected == normalized_selection(fans@, requested),
{
    if fans.len() == 0 {
        ALL_FANS_SELECTION_ID
    } else if requested != ALL_FANS_SELECTION_ID && !contains_fan_id(fans, requested) {
        fans[0].id
    } else {
        requested
    }
}

/// Law: a normalized selection is "all fans" or the id of a fan that is
/// there; it is "all fans" when there is no fan; a fan that is there is
/// selected when asked for; and normalizing again changes nothing.
pub proof fn law_selection_is_valid<R>(fans: Seq<Fan<R>>, requested: i32)
    ensures
        normalized_selection(fans, requested) == ALL_FANS_SELECTION_ID || has_fan_id(
            fans,
            normalized_selection(fans, requested),
        ),
        fans.len() == 0 ==> normalized_selection(fans, requested) == ALL_FANS_SELECTION_ID,
        has_fan_id(fans, requested) ==> normalized_selection(fans, requested) == requested,
        normalized_selection(fans, normalized_selection(fans, requested)) == normalized_selection(
            fans,
            requested,
        ),
{
    if fans.len() > 0 && requested != ALL_FANS_SELECTION_ID && !has_fan_id(fans, requested) {
        assert(fans[0].id == fans[0].id);
        assert(has_fan_id(fans, fans[0].id));
    }
}

/// Law: where some fan has the id, the first such fan is found, and it is
/// the first fan in the list that has it.
pub proof fn law_first_index_found<R>(fans: Seq<Fan<R>>, id: i32)
    ensures
        has_fan_id(fans, id) <==> first_index_with_id(fans, id) is Some,
        first_index_with_id(fans, id) matches Some(i) ==> is_first_with_id(fans, id, i),
{
    if has_fan_id(fans, id) {
        let i = choose|i: int| 0 <= i < fans.len() && #[trigger] fans[i].id == id;
        lemma_first_index_exists(fans, id, i);
    }
}

} // verus!
