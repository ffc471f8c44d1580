use vstd::prelude::*;

use crate::address::Address;

verus! {

/// One name-to-address binding of the registry.
#[derive(Clone, Debug)]
pub struct ContractEntry {
    pub name: String,
    pub address: Address,
}

/// The registry of contract addresses by name, the shape in which the
/// resolved shared chain configuration reaches the resolver. Registering a
/// name that is already bound rebinds it: the newest binding wins.
#[derive(Clone, Debug)]
pub struct ContractRegistry {
    entries: Vec<ContractEntry>,
}

/// The mapping denoted by a sequence of bindings, newest binding winning.
spec fn map_of(entries: Seq<ContractEntry>) -> Map<Seq<char>, Address>
    decreases entries.len(),
{
    if entries.len() == 0 {
        Map::empty()
    } else {
        map_of(entries.drop_last()).insert(entries.last().name@, entries.last().address)
    }
}

/// A binding whose name the bindings after it never reuse gives the looked-up
/// address for that name.
proof fn lemma_map_of_found(entries: Seq<ContractEntry>, k: Seq<char>, i: int)
    requires
        0 <= i < entries.len(),
        entries[i].name@ == k,
        forall|j: int| i < j < entries.len() ==> entries[j].name@ != k,
    ensures
        map_of(entries).contains_key(k),
        map_of(entries)[k] == entries[i].address,
    decreases entries.len(),
{
    if i < entries.len() - 1 {
        lemma_map_of_found(entries.drop_last(), k, i);
    }
}

/// A name that no binding carries is not in the mapping.
proof fn lemma_map_of_absent(entries: Seq<ContractEntry>, k: Seq<char>)
    requires
        forall|j: int| 0 <= j < entries.len() ==> entries[j].name@ != k,
    ensures
        !map_of(entries).contains_key(k),
    decreases entries.len(),
{
    if entries.len() > 0 {
        lemma_map_of_absent(entries.drop_last(), k);
    }
}

impl ContractRegistry {
    /// The name-to-address mapping this registry holds.
    pub closed spec fn contracts(self) -> Map<Seq<char>, Address> {
        map_of(self.entries@)
    }

    /// An empty registry: no name resolves.
    pub fn new() -> (r: ContractRegistry)
        ensures
            r.contracts() == Map::<Seq<char>, Address>::empty(),
    {
        ContractRegistry { entries: Vec::new() }
    }

    /// Binds `name` to `address`, replacing any earlier binding of `name`.
    pub fn register(&mut self, name: String, address: Address)
        ensures
            final(self).contracts() == old(self).contracts().insert(name@, address),
    {
        let ghost before = self.entries@;
        self.entries.push(ContractEntry { name, address });
        proof {
            assert(self.entries@.drop_last() =~= before);
            assert(self.contracts() =~= old(self).contracts().insert(name@, address));
        }
    }

    /// Looks a contract name up: the bound address, or `None` for a name the
    /// registry does not know.
    pub fn lookup(&self, name: &String) -> (r: Option<Address>)
        ensures
            match r {
                Some(address) => self.contracts().contains_key(name@) && address
                    == self.contracts()[name@],
                None => !self.contracts().contains_key(name@),
            },
    {
        let mut i: usize = self.entries.len();
        while i > 0
            invariant
                i <= self.entries.len(),
                forall|j: int| i <= j < self.entries@.len() ==> self.entries@[j].name@ != name@,
            decreases i,
        {
            i = i - 1;
            let entry = &self.entries[i];
            if entry.name == *name {
                proof {
                    lemma_map_of_found(self.entries@, name@, i as int);
                }
                return Some(entry.address);
            }
        }
        proof {
            lemma_map_of_absent(self.entries@, name@);
        }
        None
    }
}

} // verus!
