//! The store of registered handlers: one module under each id.

use crate::template::{ModuleText, ScriptModule};
use vstd::hash_map::StringHashMap;
use vstd::prelude::*;

verus! {

/// Maps each handler id to the module registered under it.
///
/// The registry owns its modules; a caller only ever holds an id, or a copy
/// of a module that [`HandlerRegistry::lookup`] made.
pub struct HandlerRegistry {
    handlers: StringHashMap<ScriptModule>,
}

impl View for HandlerRegistry {
    type V = Map<Seq<char>, ModuleText>;

    closed spec fn view(&self) -> Map<Seq<char>, ModuleText> {
        self.handlers@.map_values(|module: ScriptModule| module@)
    }
}

impl HandlerRegistry {
    /// A registry without handlers.
    pub fn new() -> (registry: HandlerRegistry)
        ensures
            registry@ == Map::<Seq<char>, ModuleText>::empty(),
    {
        let registry = HandlerRegistry { handlers: StringHashMap::new() };
        assert(registry@ =~= Map::<Seq<char>, ModuleText>::empty());
        registry
    }

    /// Stores `module` under `id`, in place of what stood there before.
    pub fn insert(&mut self, id: String, module: ScriptModule)
        ensures
            final(self)@ == old(self)@.insert(id@, module@),
    {
        self.handlers.insert(id, module);
        assert(self@ =~= old(self)@.insert(id@, module@));
    }

    /// A copy of the module under `id`; the registry keeps its own.
    pub fn lookup(&self, id: &str) -> (found: Option<ScriptModule>)
        ensures
            match found {
                Some(module) => self@.contains_key(id@) && module@ == self@[id@],
                None => !self@.contains_key(id@),
            },
    {
        match self.handlers.get(id) {
            Some(module) => Some(module.clone()),
            None => None,
        }
    }

    /// Whether a module is stored under `id`.
    pub fn contains(&self, id: &str) -> (present: bool)
        ensures
            present == self@.contains_key(id@),
    {
        self.handlers.contains_key(id)
    }

    /// Drops the module under `id`, and tells whether there was one.
    pub fn remove(&mut self, id: &str) -> (removed: Option<()>)
        ensures
            removed is Some <==> old(self)@.contains_key(id@),
            final(self)@ == old(self)@.remove(id@),
    {
        let present = self.handlers.contains_key(id);
        self.handlers.remove(id);
        assert(self@ =~= old(self)@.remove(id@));
        if present {
            Some(())
        } else {
            None
        }
    }

    /// The number of registered handlers.
    pub fn len(&self) -> (count: usize)
        ensures
            count == self@.len(),
    {
        proof {
            assert(self@.dom() =~= self.handlers@.dom());
        }
        self.handlers.len()
    }
}

} // verus!
