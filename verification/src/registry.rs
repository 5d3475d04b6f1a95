//! Compiled scripts and the registry that holds them by name.

use vstd::hash_map::StringHashMap;
use vstd::prelude::*;

verus! {

/// One compiled function.
pub struct FunctionDesc {
    /// The instruction stream.
    pub code: Vec<u8>,
    /// The number of local slots that the function uses.
    pub max_stack: u16,
    /// The offsets to which leaving a loop jumps.
    pub loop_exit: Vec<usize>,
}

/// One compiled script: its functions by name, and the number of arguments
/// that an instance of it takes.
pub struct ScriptDesc {
    pub functions: StringHashMap<FunctionDesc>,
    pub data_count: u8,
}

impl ScriptDesc {
    /// A script without functions that takes `data_count` arguments.
    pub fn new(data_count: u8) -> (desc: Self)
        ensures
            desc.functions@ == Map::<Seq<char>, FunctionDesc>::empty(),
            desc.data_count == data_count,
    {
        ScriptDesc { functions: StringHashMap::new(), data_count }
    }

    /// Adds a function, in place of any other of that name.
    pub fn insert(&mut self, name: String, function: FunctionDesc)
        ensures
            final(self).functions@ == old(self).functions@.insert(name@, function),
            final(self).data_count == old(self).data_count,
    {
        self.functions.insert(name, function);
    }

    /// The function of a name, if the script has one.
    pub fn get(&self, name: &String) -> (function: Option<&FunctionDesc>)
        ensures
            match function {
                Some(f) => self.functions@.contains_key(name@) && *f == self.functions@[name@],
                None => !self.functions@.contains_key(name@),
            },
    {
        self.functions.get(name.as_str())
    }
}

/// The scripts that are loaded, by name.
pub struct ScriptManager {
    pub scripts: StringHashMap<ScriptDesc>,
}

impl ScriptManager {
    /// The number of arguments that each loaded script declares.
    pub open spec fn counts(&self) -> Map<Seq<char>, u8> {
        Map::new(
            |name: Seq<char>| self.scripts@.contains_key(name),
            |name: Seq<char>| self.scripts@[name].data_count,
        )
    }

    /// A registry without scripts.
    pub fn new() -> (manager: Self)
        ensures
            manager.scripts@ == Map::<Seq<char>, ScriptDesc>::empty(),
    {
        ScriptManager { scripts: StringHashMap::new() }
    }

    /// Loads a script, in place of any other of that name.
    pub fn insert(&mut self, name: String, desc: ScriptDesc)
        ensures
            final(self).scripts@ == old(self).scripts@.insert(name@, desc),
    {
        self.scripts.insert(name, desc);
    }

    /// The script of a name, if it is loaded.
    pub fn get(&self, name: &String) -> (desc: Option<&ScriptDesc>)
        ensures
            match desc {
                Some(d) => self.scripts@.contains_key(name@) && *d == self.scripts@[name@],
                None => !self.scripts@.contains_key(name@),
            },
    {
        self.scripts.get(name.as_str())
    }

    /// The number of arguments that the script of a name declares, if it is
    /// loaded.
    pub fn get_script_data_count(&self, name: &String) -> (count: Option<u8>)
        ensures
            count == (if self.counts().contains_key(name@) {
                Some(self.counts()[name@])
            } else {
                None
            }),
    {
        match self.scripts.get(name.as_str()) {
            Some(desc) => Some(desc.data_count),
            None => None,
        }
    }
}

} // verus!
