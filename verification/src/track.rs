use vstd::prelude::*;
use crate::numfmt::{dec_digits, int_dec, i64_to_dec_string, usize_to_dec_string};

verus! {

/// The artist of a track, as the search response gives it.
pub struct Performer {
    pub name: String,
    pub id: i64,
}

impl Performer {
    /// The human-readable form of a performer: its name alone.
    pub fn display_name(&self) -> (r: String)
        ensures
            r@ == self.name@,
    {
        self.name.clone()
    }
}

/// One track of a search response.
pub struct TrackItem {
    pub title: String,
    pub id: i64,
    pub isrc: String,
    pub performer: Performer,
}

/// The tracks of a search response, in the order the server gave them:
/// that order defines the 1-based index the user selects.
pub struct TracksResp {
    pub items: Vec<TrackItem>,
}

/// A whole search response: the echoed query and its tracks.
pub struct SlavartSearchResp {
    pub query: String,
    pub tracks: TracksResp,
}

/// The table row displayed for the track at 0-based position `index`:
/// its 1-based position, id, title, isrc and performer name, in decimal
/// or verbatim, in display order.
pub fn display_row(index: usize, item: &TrackItem) -> (r: Vec<String>)
    requires
        index < usize::MAX,
    ensures
        r@.len() == 5,
        r@[0]@ == dec_digits((index + 1) as nat),
        r@[1]@ == int_dec(item.id as int),
        r@[2]@ == item.title@,
        r@[3]@ == item.isrc@,
        r@[4]@ == item.performer.name@,
{
    let mut row: Vec<String> = Vec::new();
    row.push(usize_to_dec_string(index + 1));
    row.push(i64_to_dec_string(item.id));
    row.push(item.title.clone());
    row.push(item.isrc.clone());
    row.push(item.performer.display_name());
    row
}

} // verus!
