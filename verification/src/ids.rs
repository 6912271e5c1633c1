//! Entity and operation identifiers.
//!
//! An identifier is the 128-bit value of a UUID. Sites, domains, nodes and
//! background operations are found by comparing identifiers, so the library
//! holds them as plain integers.

use vstd::prelude::*;

verus! {

/// Identifier of a site, a domain, a node or a background operation.
pub type EntityId = u128;

/// The text that `uuid` prints for the identifier with this 128-bit value:
/// 32 lower-case hexadecimal digits in five hyphen-separated groups.
pub uninterp spec fn hyphenated_text(id: u128) -> Seq<char>;

/// Mints a random version-4 identifier with `uuid::Uuid::new_v4`.
///
/// Trusted: nothing is claimed of the value. In particular it is not assumed
/// to differ from identifiers that are already in use.
#[verifier::external_body]
pub(crate) fn fresh_id() -> EntityId {
    uuid::Uuid::new_v4().as_u128()
}

/// Prints an identifier as `uuid::Uuid` displays it.
///
/// Trusted: the result is `hyphenated_text` of the identifier, that is, the
/// text depends on the 128-bit value alone.
#[verifier::external_body]
pub(crate) fn id_text(id: EntityId) -> (text: String)
    ensures
        text@ == hyphenated_text(id),
{
    uuid::Uuid::from_u128(id).to_string()
}

/// No identifier occurs twice.
pub open spec fn unique(ids: Seq<EntityId>) -> bool {
    forall|i: int, j: int| 0 <= i < j < ids.len() ==> ids[i] != ids[j]
}

/// The first position at or after `start` that holds `id`, or the length of
/// the list if there is none.
pub open spec fn scan_from(ids: Seq<EntityId>, id: EntityId, start: int) -> int
    decreases ids.len() - start,
{
    if start < 0 || start >= ids.len() {
        ids.len() as int
    } else if ids[start] == id {
        start
    } else {
        scan_from(ids, id, start + 1)
    }
}

/// The first position that holds `id`, or the length of the list if none
/// does: what a linear scan from the front finds.
pub open spec fn position(ids: Seq<EntityId>, id: EntityId) -> int {
    scan_from(ids, id, 0)
}

/// Whether `id` occurs in the list.
pub open spec fn contains(ids: Seq<EntityId>, id: EntityId) -> bool {
    position(ids, id) < ids.len()
}

/// The last position before `end` that holds `id`, or -1 if there is none.
pub open spec fn scan_back(ids: Seq<EntityId>, id: EntityId, end: int) -> int
    decreases end,
{
    if end <= 0 || end > ids.len() {
        -1
    } else if ids[end - 1] == id {
        end - 1
    } else {
        scan_back(ids, id, end - 1)
    }
}

/// The last position that holds `id`, or -1 if none does: what a linear scan
/// from the back finds.
pub open spec fn last_position(ids: Seq<EntityId>, id: EntityId) -> int {
    scan_back(ids, id, ids.len() as int)
}

/// What a scan from `start` finds is the first occurrence at or after it.
pub proof fn lemma_scan_from(ids: Seq<EntityId>, id: EntityId, start: int)
    requires
        0 <= start <= ids.len(),
    ensures
        start <= scan_from(ids, id, start) <= ids.len(),
        scan_from(ids, id, start) < ids.len() ==> ids[scan_from(ids, id, start)] == id,
        forall|j: int| start <= j < scan_from(ids, id, start) ==> ids[j] != id,
    decreases ids.len() - start,
{
    if start < ids.len() && ids[start] != id {
        lemma_scan_from(ids, id, start + 1);
    }
}

/// The position of `id` is its first occurrence; it is the length of the list
/// exactly if `id` does not occur.
pub proof fn lemma_position(ids: Seq<EntityId>, id: EntityId)
    ensures
        0 <= position(ids, id) <= ids.len(),
        contains(ids, id) ==> ids[position(ids, id)] == id,
        forall|j: int| 0 <= j < position(ids, id) ==> ids[j] != id,
        contains(ids, id) <==> exists|j: int| 0 <= j < ids.len() && ids[j] == id,
{
    lemma_scan_from(ids, id, 0);
    if contains(ids, id) {
        assert(ids[position(ids, id)] == id);
    }
}

/// What a scan back from `end` finds is the last occurrence before it.
pub proof fn lemma_scan_back(ids: Seq<EntityId>, id: EntityId, end: int)
    requires
        0 <= end <= ids.len(),
    ensures
        -1 <= scan_back(ids, id, end) < end,
        scan_back(ids, id, end) >= 0 ==> ids[scan_back(ids, id, end)] == id,
        forall|j: int| scan_back(ids, id, end) < j < end ==> ids[j] != id,
    decreases end,
{
    if end > 0 && ids[end - 1] != id {
        lemma_scan_back(ids, id, end - 1);
    }
}

/// The first position at or after `start` whose identifier already occurs
/// before it, or the length of the list if there is none.
pub open spec fn repeat_from(ids: Seq<EntityId>, start: int) -> int
    decreases ids.len() - start,
{
    if start < 0 || start >= ids.len() {
        ids.len() as int
    } else if position(ids, ids[start]) < start {
        start
    } else {
        repeat_from(ids, start + 1)
    }
}

/// The first position whose identifier already occurs before it, or the
/// length of the list if no identifier is repeated.
pub open spec fn first_repeat(ids: Seq<EntityId>) -> int {
    repeat_from(ids, 0)
}

/// A scan for a repetition from `start` finds the first one at or after it.
pub proof fn lemma_repeat_from(ids: Seq<EntityId>, start: int)
    requires
        0 <= start <= ids.len(),
    ensures
        start <= repeat_from(ids, start) <= ids.len(),
        repeat_from(ids, start) < ids.len() ==> position(ids, ids[repeat_from(ids, start)])
            < repeat_from(ids, start),
        forall|j: int|
            start <= j < repeat_from(ids, start) ==> position(ids, #[trigger] ids[j]) >= j,
    decreases ids.len() - start,
{
    if start < ids.len() && position(ids, ids[start]) >= start {
        lemma_repeat_from(ids, start + 1);
    }
}

/// A list has a repetition exactly if it is not free of repetitions.
pub proof fn lemma_first_repeat(ids: Seq<EntityId>)
    ensures
        0 <= first_repeat(ids) <= ids.len(),
        first_repeat(ids) == ids.len() <==> unique(ids),
{
    lemma_repeat_from(ids, 0);
    let r = first_repeat(ids);
    if r == ids.len() {
        assert forall|i: int, j: int| 0 <= i < j < ids.len() implies ids[i] != ids[j] by {
            lemma_position(ids, ids[j]);
            assert(position(ids, ids[j]) >= j);
        }
    } else {
        lemma_position(ids, ids[r]);
        let earlier = position(ids, ids[r]);
        assert(ids[earlier] == ids[r] && earlier < r);
    }
}

/// Scans a list of identifiers from the front.
pub fn find_id(ids: &Vec<EntityId>, id: EntityId) -> (found: Option<usize>)
    ensures
        match found {
            Some(i) => contains(ids@, id) && i == position(ids@, id),
            None => !contains(ids@, id),
        },
{
    let mut i: usize = 0;
    while i < ids.len()
        invariant
            i <= ids.len(),
            position(ids@, id) == scan_from(ids@, id, i as int),
        decreases ids.len() - i,
    {
        if ids[i] == id {
            return Some(i);
        }
        i += 1;
    }
    None
}

/// Finds the first identifier of a list that already occurs before it.
pub fn find_repeat(ids: &Vec<EntityId>) -> (found: Option<usize>)
    ensures
        match found {
            Some(i) => i == first_repeat(ids@) && i < ids@.len(),
            None => first_repeat(ids@) == ids@.len(),
        },
{
    let mut i: usize = 0;
    while i < ids.len()
        invariant
            i <= ids.len(),
            first_repeat(ids@) == repeat_from(ids@, i as int),
        decreases ids.len() - i,
    {
        proof {
            lemma_position(ids@, ids@[i as int]);
        }
        match find_id(ids, ids[i]) {
            Some(first) => {
                if first < i {
                    return Some(i);
                }
            },
            None => {},
        }
        i += 1;
    }
    None
}

} // verus!
