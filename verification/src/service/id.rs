//! Method identifiers.
//!
//! Every method of every interface has an identifier that both sides of a
//! connection must agree on. A method starts with a default identifier, its
//! index within its interface plus a fixed offset, and a table records where
//! each identifier is kept. At startup the identifiers can be replaced, all at
//! once, by those of a descriptor.

use crate::service::MethodId;
use vstd::prelude::*;

verus! {

/// What is added to a method's index to get its default identifier.
pub const METHOD_ID_OFFSET: MethodId = 70;

/// The default identifier of the method at `index` of its interface.
pub open spec fn default_method_id(index: int) -> int {
    index + METHOD_ID_OFFSET
}

/// A method of an interface and the identifier it has at present.
#[derive(Debug)]
pub struct MethodEntry {
    pub trait_name: String,
    pub method_name: String,
    pub id: MethodId,
}

impl MethodEntry {
    /// The names that tell this method from every other.
    pub open spec fn key(&self) -> (Seq<char>, Seq<char>) {
        (self.trait_name@, self.method_name@)
    }
}

/// An identifier for each of some methods, by interface name and method name.
#[derive(Debug)]
pub struct IdMap {
    pub method_map: Option<Vec<((String, String), MethodId)>>,
}

/// The identifier that the first entry of `map` with the given names holds.
pub open spec fn lookup(map: Seq<((String, String), MethodId)>, key: (Seq<char>, Seq<char>)) -> Option<
    MethodId,
>
    decreases map.len(),
{
    if map.len() == 0 {
        None
    } else if map[0].0.0@ == key.0 && map[0].0.1@ == key.1 {
        Some(map[0].1)
    } else {
        lookup(map.drop_first(), key)
    }
}

impl IdMap {
    /// The identifier that this descriptor gives to a method, if it gives one.
    pub open spec fn spec_get(&self, key: (Seq<char>, Seq<char>)) -> Option<MethodId> {
        match self.method_map {
            Some(map) => lookup(map@, key),
            None => None,
        }
    }

    /// The identifier that this descriptor gives to a method, if it gives one.
    pub fn get(&self, trait_name: &String, method_name: &String) -> (id: Option<MethodId>)
        ensures
            id == self.spec_get((trait_name@, method_name@)),
    {
        match &self.method_map {
            None => None,
            Some(map) => {
                let mut i: usize = 0;
                assert(map@.skip(0) =~= map@);
                while i < map.len()
                    invariant
                        i <= map@.len(),
                        self.method_map == Some(*map),
                        lookup(map@, (trait_name@, method_name@)) == lookup(
                            map@.skip(i as int),
                            (trait_name@, method_name@),
                        ),
                    decreases map@.len() - i,
                {
                    let entry = &map[i];
                    assert(map@.skip(i as int)[0] == map@[i as int]);
                    assert(map@.skip(i as int).drop_first() =~= map@.skip(i + 1));
                    if entry.0.0 == *trait_name && entry.0.1 == *method_name {
                        return Some(entry.1);
                    }
                    i += 1;
                }
                None
            },
        }
    }
}

/// The table of all methods whose identifiers can be set.
#[derive(Debug)]
pub struct MethodIdTable {
    entries: Vec<MethodEntry>,
}

impl View for MethodIdTable {
    type V = Seq<MethodEntry>;

    closed spec fn view(&self) -> Seq<MethodEntry> {
        self.entries@
    }
}

/// Whether no two of `entries` have the same names.
pub open spec fn names_are_unique(entries: Seq<MethodEntry>) -> bool {
    forall|i: int, j: int|
        0 <= i < entries.len() && 0 <= j < entries.len() && i != j ==> #[trigger] entries[i].key()
            != #[trigger] entries[j].key()
}

/// Whether `descriptor` gives an identifier to each of `entries`.
pub open spec fn covers(descriptor: IdMap, entries: Seq<MethodEntry>) -> bool {
    forall|i: int| 0 <= i < entries.len() ==> descriptor.spec_get(#[trigger] entries[i].key()) is Some
}

impl MethodIdTable {
    /// A table with no methods.
    pub fn new() -> (table: Self)
        ensures
            table@ == Seq::<MethodEntry>::empty(),
    {
        MethodIdTable { entries: Vec::new() }
    }

    pub fn len(&self) -> (n: usize)
        ensures
            n == self@.len(),
    {
        self.entries.len()
    }

    /// Adds the methods of an interface, in the order of their declaration.
    /// Each gets its default identifier.
    pub fn register_interface(&mut self, trait_name: &str, method_names: &Vec<String>)
        requires
            method_names@.len() + METHOD_ID_OFFSET <= u32::MAX,
        ensures
            final(self)@.len() == old(self)@.len() + method_names@.len(),
            forall|i: int| 0 <= i < old(self)@.len() ==> final(self)@[i] == old(self)@[i],
            forall|i: int|
                0 <= i < method_names@.len() ==> {
                    let entry = #[trigger] final(self)@[old(self)@.len() + i];
                    &&& entry.trait_name@ == trait_name@
                    &&& entry.method_name@ == method_names@[i]@
                    &&& entry.id == default_method_id(i)
                },
    {
        let mut i: usize = 0;
        while i < method_names.len()
            invariant
                i <= method_names@.len(),
                method_names@.len() + METHOD_ID_OFFSET <= u32::MAX,
                self@.len() == old(self)@.len() + i,
                forall|k: int| 0 <= k < old(self)@.len() ==> self@[k] == old(self)@[k],
                forall|k: int|
                    0 <= k < i ==> {
                        let entry = #[trigger] self@[old(self)@.len() + k];
                        &&& entry.trait_name@ == trait_name@
                        &&& entry.method_name@ == method_names@[k]@
                        &&& entry.id == default_method_id(k)
                    },
            decreases method_names@.len() - i,
        {
            let entry = MethodEntry {
                trait_name: trait_name.to_owned(),
                method_name: method_names[i].clone(),
                id: (i as u32) + METHOD_ID_OFFSET,
            };
            self.entries.push(entry);
            i += 1;
        }
    }

    /// The identifier that the method has at present, if the table has it.
    pub fn method_id(&self, trait_name: &String, method_name: &String) -> (id: Option<MethodId>)
        ensures
            match id {
                Some(id) => exists|i: int|
                    0 <= i < self@.len() && #[trigger] self@[i].key() == (trait_name@, method_name@)
                        && self@[i].id == id,
                None => forall|i: int|
                    0 <= i < self@.len() ==> #[trigger] self@[i].key() != (trait_name@, method_name@),
            },
    {
        let mut i: usize = 0;
        while i < self.entries.len()
            invariant
                i <= self@.len(),
                forall|k: int| 0 <= k < i ==> #[trigger] self@[k].key() != (trait_name@, method_name@),
            decreases self@.len() - i,
        {
            let entry = &self.entries[i];
            if entry.trait_name == *trait_name && entry.method_name == *method_name {
                assert(self@[i as int].key() == (trait_name@, method_name@));
                return Some(entry.id);
            }
            i += 1;
        }
        None
    }

    /// Whether no two methods of the table have the same names.
    pub fn has_unique_names(&self) -> (unique: bool)
        ensures
            unique == names_are_unique(self@),
    {
        let mut i: usize = 0;
        while i < self.entries.len()
            invariant
                i <= self@.len(),
                forall|a: int, b: int|
                    0 <= a < i && 0 <= b < self@.len() && a != b ==> #[trigger] self@[a].key()
                        != #[trigger] self@[b].key(),
            decreases self@.len() - i,
        {
            let mut j: usize = 0;
            while j < self.entries.len()
                invariant
                    i < self@.len(),
                    j <= self@.len(),
                    forall|b: int|
                        0 <= b < j && b != i ==> self@[i as int].key() != #[trigger] self@[b].key(),
                decreases self@.len() - j,
            {
                if j != i && self.entries[i].trait_name == self.entries[j].trait_name
                    && self.entries[i].method_name == self.entries[j].method_name {
                    assert(self@[i as int].key() == self@[j as int].key());
                    return false;
                }
                j += 1;
            }
            i += 1;
        }
        true
    }

    /// Whether `descriptor` gives an identifier to every method of the table.
    pub fn is_covered_by(&self, descriptor: &IdMap) -> (covered: bool)
        ensures
            covered == covers(*descriptor, self@),
    {
        let mut i: usize = 0;
        while i < self.entries.len()
            invariant
                i <= self@.len(),
                forall|k: int| 0 <= k < i ==> descriptor.spec_get(#[trigger] self@[k].key()) is Some,
            decreases self@.len() - i,
        {
            let found = descriptor.get(&self.entries[i].trait_name, &self.entries[i].method_name);
            if found.is_none() {
                assert(descriptor.spec_get(self@[i as int].key()) is None);
                return false;
            }
            i += 1;
        }
        true
    }
}

/// Replaces the identifier of every method in the table by the one that
/// `descriptor` gives it. A descriptor without a map leaves the identifiers as
/// they are.
pub fn setup_identifiers(table: &mut MethodIdTable, descriptor: &IdMap)
    requires
        names_are_unique(old(table)@),
        descriptor.method_map is Some ==> covers(*descriptor, old(table)@),
    ensures
        final(table)@.len() == old(table)@.len(),
        forall|i: int| 0 <= i < old(table)@.len() ==> #[trigger] final(table)@[i].key() == old(table)@[i].key(),
        descriptor.method_map is None ==> final(table)@ == old(table)@,
        descriptor.method_map is Some ==> forall|i: int|
            0 <= i < old(table)@.len() ==> Some(#[trigger] final(table)@[i].id) == descriptor.spec_get(
                old(table)@[i].key(),
            ),
{
    if descriptor.method_map.is_some() {
        let mut i: usize = 0;
        while i < table.entries.len()
            invariant
                i <= table@.len(),
                table@.len() == old(table)@.len(),
                descriptor.method_map is Some,
                covers(*descriptor, old(table)@),
                forall|k: int| 0 <= k < table@.len() ==> #[trigger] table@[k].key() == old(table)@[k].key(),
                forall|k: int|
                    0 <= k < i ==> Some(#[trigger] table@[k].id) == descriptor.spec_get(
                        old(table)@[k].key(),
                    ),
            decreases table@.len() - i,
        {
            let ghost before = table@;
            let found = descriptor.get(&table.entries[i].trait_name, &table.entries[i].method_name);
            assert(before[i as int].key() == old(table)@[i as int].key());
            let id = found.unwrap();
            table.entries[i].id = id;
            assert(table@.len() == before.len());
            assert(table@[i as int].key() == before[i as int].key());
            assert(table@[i as int].id == id);
            assert(forall|k: int| 0 <= k < before.len() && k != i ==> table@[k] == before[k]);
            i += 1;
        }
    }
}

} // verus!
