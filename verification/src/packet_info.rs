//! The readable fields of one layer.

use vstd::prelude::*;
use crate::table::{distinct_keys, Table};

verus! {

/// Field names with their values, both as text.
pub type InfoMap = Table<String>;

/// What a layer shows of itself.
pub trait PacketInfo {
    /// The fields of this layer, in the order in which they are listed.
    spec fn info(&self) -> Seq<(Seq<char>, Seq<char>)>;

    /// The fields of this layer as a table, each name once.
    fn get_info(&self) -> (table: InfoMap)
        ensures
            table@ == self.info(),
            distinct_keys(table@),
    ;
}

} // verus!
