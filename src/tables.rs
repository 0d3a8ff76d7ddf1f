use vstd::prelude::*;
use vstd::std_specs::hash::group_hash_axioms;

use std::collections::HashMap;

use crate::records::{LoadClassRecord, StackFrameRecord};

verus! {

broadcast use group_hash_axioms;

/// The three mappings built while streaming: string id to text, frame id
/// to frame record, class serial to load-class record.
pub struct SymbolTables {
    pub strings: HashMap<u64, String>,
    pub frames: HashMap<u64, StackFrameRecord>,
    pub classes: HashMap<u32, LoadClassRecord>,
}

/// The tables as mathematical maps.
pub struct TablesView {
    pub strings: Map<u64, Seq<char>>,
    pub frames: Map<u64, StackFrameRecord>,
    pub classes: Map<u32, LoadClassRecord>,
}

impl TablesView {
    pub open spec fn empty() -> TablesView {
        TablesView { strings: Map::empty(), frames: Map::empty(), classes: Map::empty() }
    }
}

impl View for SymbolTables {
    type V = TablesView;

    open spec fn view(&self) -> TablesView {
        TablesView {
            strings: self.strings@.map_values(|s: String| s@),
            frames: self.frames@,
            classes: self.classes@,
        }
    }
}

impl SymbolTables {

    pub fn new() -> (t: SymbolTables)
        ensures
            t@ == TablesView::empty(),
    {
        let t = SymbolTables {
            strings: HashMap::new(),
            frames: HashMap::new(),
            classes: HashMap::new(),
        };
        assert(t@.strings =~= Map::empty());
        t
    }

    /// Defines string `id`; a later definition of the same id wins.
    pub fn insert_string(&mut self, id: u64, value: String)
        ensures
            final(self)@ == (TablesView { strings: old(self)@.strings.insert(id, value@), ..old(self)@ }),
    {
        let ghost v = value@;
        self.strings.insert(id, value);
        assert(self@.strings =~= old(self)@.strings.insert(id, v));
    }

    /// Defines frame `f.frame_id`.
    pub fn insert_frame(&mut self, f: StackFrameRecord)
        ensures
            final(self)@ == (TablesView { frames: old(self)@.frames.insert(f.frame_id, f), ..old(self)@ }),
    {
        self.frames.insert(f.frame_id, f);
    }

    /// Defines class `c.serial_num`.
    pub fn insert_class(&mut self, c: LoadClassRecord)
        ensures
            final(self)@ == (TablesView { classes: old(self)@.classes.insert(c.serial_num, c), ..old(self)@ }),
    {
        self.classes.insert(c.serial_num, c);
    }
}

} // verus!
