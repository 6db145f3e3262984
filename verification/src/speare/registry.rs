//! The registry: actors found by name (or by their type's name).
use vstd::prelude::*;
use crate::named::NameTable;

verus! {

#[derive(Debug)]
pub enum RegistryError {
    NameTaken(String),
    NotFound(String),
    PoisonErr,
}

impl RegistryError {
    /// The error's message.
    pub fn message(&self) -> (r: String)
        ensures
            self matches RegistryError::NameTaken(n) ==> r@ == "registry name already taken: "@ + n@,
            self matches RegistryError::NotFound(n) ==> r@ == "no actor registered under: "@ + n@,
            self is PoisonErr ==> r@ == "registry lock poisoned"@,
    {
        match self {
            RegistryError::NameTaken(name) => {
                let mut s = String::from_str("registry name already taken: ");
                s.append(name.as_str());
                s
            },
            RegistryError::NotFound(name) => {
                let mut s = String::from_str("no actor registered under: ");
                s.append(name.as_str());
                s
            },
            RegistryError::PoisonErr => {
                proof {
                    reveal_strlit("registry lock poisoned");
                }
                String::from_str("registry lock poisoned")
            },
        }
    }
}

/// Registered entries under their names; `V` is what a running system keeps for
/// an actor (a type-erased handle).
pub struct Registry<V> {
    table: NameTable<V>,
}

impl<V> Registry<V> {
    /// The registrations, by name.
    pub closed spec fn names(&self) -> Map<Seq<char>, V> {
        self.table.map()
    }

    pub fn new() -> (r: Self)
        ensures
            r.names() == Map::<Seq<char>, V>::empty(),
    {
        Registry { table: NameTable::new() }
    }

    /// Whether a name is taken.
    pub fn contains(&self, name: &String) -> (r: bool)
        ensures
            r == self.names().contains_key(name@),
    {
        self.table.contains(name)
    }

    /// The entry under a name.
    pub fn get(&self, name: &String) -> (r: Option<&V>)
        ensures
            match r {
                Some(v) => self.names().contains_key(name@) && *v == self.names()[name@],
                None => !self.names().contains_key(name@),
            },
    {
        self.table.get(name)
    }

    /// Registers what `spawn` starts under `name`, unless the name is taken.
    /// `spawn` is called only when the name is free; it returns the handle to
    /// give back and the entry to keep.
    pub fn spawn_named<H, F: FnOnce() -> (H, V)>(&mut self, name: String, spawn: F) -> (r: Result<H, RegistryError>)
        requires
            spawn.requires(()),
        ensures
            match r {
                Ok(h) => {
                    &&& !old(self).names().contains_key(name@)
                    &&& exists|v: V| #[trigger] spawn.ensures((), (h, v))
                        && final(self).names() == old(self).names().insert(name@, v)
                },
                Err(e) => {
                    &&& old(self).names().contains_key(name@)
                    &&& e matches RegistryError::NameTaken(n) && n@ == name@
                    &&& final(self).names() == old(self).names()
                },
            },
    {
        if self.table.contains(&name) {
            return Err(RegistryError::NameTaken(name));
        }
        let made = spawn();
        let ghost entry = made.1;
        assert(spawn.ensures((), (made.0, entry)));
        let (h, v) = made;
        assert(!old(self).names().contains_key(name@));
        self.table.insert(name, v);
        assert(self.names() == old(self).names().insert(name@, entry));
        assert(spawn.ensures((), (h, entry)) && self.names() == old(self).names().insert(name@, entry));
        let r: Result<H, RegistryError> = Ok(h);
        assert(r matches Ok(hh) && hh == h);
        r
    }

    /// Finds the entry under `name` and reads a handle out of it with `read`
    /// (which fails when the entry holds a handle of another type).
    pub fn lookup<W, F: Fn(&V) -> Option<W>>(&self, name: &String, read: F) -> (r: Result<W, RegistryError>)
        requires
            self.names().contains_key(name@) ==> read.requires((&self.names()[name@],)),
        ensures
            match r {
                Ok(w) => self.names().contains_key(name@) && read.ensures((&self.names()[name@],), Some(w)),
                Err(e) => {
                    &&& e matches RegistryError::NotFound(n) && n@ == name@
                    &&& self.names().contains_key(name@) ==> read.ensures((&self.names()[name@],), None)
                },
            },
    {
        match self.table.get(name) {
            Some(v) => match read(v) {
                Some(w) => Ok(w),
                None => Err(RegistryError::NotFound(name.clone())),
            },
            None => Err(RegistryError::NotFound(name.clone())),
        }
    }

    /// Takes a name out of the registry.
    pub fn deregister(&mut self, name: &String) -> (r: Option<V>)
        ensures
            final(self).names() == old(self).names().remove(name@),
            match r {
                Some(v) => old(self).names().contains_key(name@) && v == old(self).names()[name@],
                None => !old(self).names().contains_key(name@),
            },
    {
        self.table.remove(name)
    }
}

/// After an actor is registered under `name` (the map that `spawn_named`
/// promises), a lookup of `name` finds its entry, and every other registration
/// is as it was.
pub proof fn law_lookup_after_register<V>(before: Registry<V>, after: Registry<V>, name: Seq<char>, v: V, other: Seq<char>)
    requires
        after.names() == before.names().insert(name, v),
        other != name,
    ensures
        after.names().contains_key(name),
        after.names()[name] == v,
        after.names().contains_key(other) == before.names().contains_key(other),
        before.names().contains_key(other) ==> after.names()[other] == before.names()[other],
{
}

/// Once deregistered, a name is free and can be registered again.
pub proof fn law_deregistered_name_is_free<V>(before: Registry<V>, after: Registry<V>, name: Seq<char>)
    requires
        after.names() == before.names().remove(name),
    ensures
        !after.names().contains_key(name),
{
}

} // verus!
