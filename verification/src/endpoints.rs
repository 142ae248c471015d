//! What the library reads of the system's MIDI endpoints, and the searches it
//! makes among them.
use vstd::prelude::*;

verus! {

/// One MIDI endpoint as the system lists it: its display name and its unique id,
/// each absent where the system has none to give.
pub struct EndpointInfo {
    pub display_name: Option<String>,
    pub unique_id: Option<u32>,
}

/// The endpoint is displayed under `name`.
pub open spec fn displayed_as(e: EndpointInfo, name: Seq<char>) -> bool {
    e.display_name matches Some(n) && n@ == name
}

/// `index` is the first position of `endpoints` that holds an endpoint with unique id `id`,
/// or `None` where none does.
pub open spec fn first_with_unique_id(endpoints: Seq<EndpointInfo>, id: u32, index: Option<usize>) -> bool {
    match index {
        Some(i) => {
            &&& i < endpoints.len()
            &&& endpoints[i as int].unique_id == Some(id)
            &&& forall|j: int| 0 <= j < i ==> endpoints[j].unique_id != Some(id)
        },
        None => forall|j: int| 0 <= j < endpoints.len() ==> endpoints[j].unique_id != Some(id),
    }
}

/// The position of the first endpoint whose unique id is `id`.
pub fn find_endpoint_with_unique_id(endpoints: &Vec<EndpointInfo>, id: u32) -> (index: Option<usize>)
    ensures
        first_with_unique_id(endpoints@, id, index),
{
    let mut i: usize = 0;
    while i < endpoints.len()
        invariant
            i <= endpoints@.len(),
            forall|j: int| 0 <= j < i ==> endpoints@[j].unique_id != Some(id),
        decreases endpoints@.len() - i,
    {
        if endpoints[i].unique_id == Some(id) {
            return Some(i);
        }
        i += 1;
    }
    None
}

/// No endpoint id in `taken` equals `candidate`.
pub fn id_is_free(candidate: u32, taken: &Vec<Option<u32>>) -> (free: bool)
    ensures
        free == !taken@.contains(Some(candidate)),
{
    let mut i: usize = 0;
    while i < taken.len()
        invariant
            i <= taken@.len(),
            forall|j: int| 0 <= j < i ==> taken@[j] != Some(candidate),
        decreases taken@.len() - i,
    {
        if taken[i] == Some(candidate) {
            assert(taken@[i as int] == Some(candidate));
            return false;
        }
        i += 1;
    }
    true
}

} // verus!
