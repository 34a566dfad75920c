//! Symbol tables of loaded code images: PTX modules and shared libraries.

use crate::text::same_text;
use vstd::prelude::*;

verus! {

/// A resolved symbol.
#[derive(Debug)]
pub struct Symbol {
    pub name: String,
    pub addr: u64,
}

impl View for Symbol {
    type V = (Seq<char>, u64);

    open spec fn view(&self) -> (Seq<char>, u64) {
        (self.name@, self.addr)
    }
}

/// The symbols of an image that resolved. Where a name occurs twice, the first
/// entry counts.
#[derive(Debug)]
pub struct SymbolTable {
    pub entries: Vec<Symbol>,
}

/// The address under `name` in a table, if it is there.
pub open spec fn lookup(table: Seq<(Seq<char>, u64)>, name: Seq<char>) -> Option<u64>
    decreases table.len(),
{
    if table.len() == 0 {
        None
    } else if table[0].0 == name {
        Some(table[0].1)
    } else {
        lookup(table.drop_first(), name)
    }
}

/// Looking a name up fails exactly where no entry carries it, and a hit is
/// the address of an entry of that name.
pub proof fn lookup_finds_an_entry(table: Seq<(Seq<char>, u64)>, name: Seq<char>)
    ensures
        match lookup(table, name) {
            Some(addr) => table.contains((name, addr)),
            None => forall|i: int| 0 <= i < table.len() ==> (#[trigger] table[i]).0 != name,
        },
    decreases table.len(),
{
    if table.len() > 0 && table[0].0 != name {
        lookup_finds_an_entry(table.drop_first(), name);
        match lookup(table, name) {
            Some(addr) => {
                let i = choose|i: int|
                    0 <= i < table.len() - 1 && table.drop_first()[i] == (name, addr);
                assert(table[i + 1] == (name, addr));
            },
            None => {
                assert forall|i: int| 0 <= i < table.len() implies (#[trigger] table[i]).0
                    != name by {
                    if i > 0 {
                        assert(table.drop_first()[i - 1] == table[i]);
                    }
                }
            },
        }
    } else if table.len() > 0 {
        assert(table[0] == (name, table[0].1));
    }
}

impl View for SymbolTable {
    type V = Seq<(Seq<char>, u64)>;

    open spec fn view(&self) -> Seq<(Seq<char>, u64)> {
        self.entries@.map_values(|s: Symbol| s@)
    }
}

impl SymbolTable {
    /// The address under `name`, if the image has the symbol.
    pub fn get(&self, name: &str) -> (r: Option<u64>)
        ensures
            r == lookup(self@, name@),
    {
        let mut i: usize = 0;
        assert(self@.skip(0) =~= self@);
        while i < self.entries.len()
            invariant
                i <= self.entries@.len(),
                lookup(self@, name@) == lookup(self@.skip(i as int), name@),
            decreases self.entries@.len() - i,
        {
            assert(self@.skip(i as int)[0] == self.entries@[i as int]@);
            assert(self@.skip(i as int).drop_first() =~= self@.skip(i + 1));
            if same_text(self.entries[i].name.as_str(), name) {
                return Some(self.entries[i].addr);
            }
            i = i + 1;
        }
        None
    }

    /// A second table with the same entries.
    pub fn copy(&self) -> (r: SymbolTable)
        ensures
            r@ == self@,
    {
        let mut entries: Vec<Symbol> = Vec::new();
        let mut i: usize = 0;
        while i < self.entries.len()
            invariant
                i <= self.entries@.len(),
                entries@.len() == i,
                forall|j: int| 0 <= j < i ==> (#[trigger] entries@[j])@ == self.entries@[j]@,
            decreases self.entries@.len() - i,
        {
            let name = self.entries[i].name.clone();
            let addr: u64 = self.entries[i].addr;
            entries.push(Symbol { name, addr });
            i = i + 1;
        }
        let r = SymbolTable { entries };
        assert(r@ =~= self@);
        r
    }
}

/// What the dynamic loader said of a shared library.
#[derive(Debug)]
pub enum SoImage {
    /// There is no file at the path.
    Missing,
    /// The file is there; this build does not link shared libraries.
    Unlinked,
    /// The file is there and could not be opened as a library.
    OpenFailed,
    /// The library is open and these symbols resolved.
    Open(SymbolTable),
}

/// The address under a name is that of the first entry with the name; a copy of a
/// table gives the same addresses.
pub proof fn addresses_are_those_of_the_first_entry(
    table: SymbolTable,
    name: &str,
    r: Option<u64>,
    copy: SymbolTable,
    again: Option<u64>,
    i: int,
)
    requires
        call_ensures(SymbolTable::get, (&table, name), r),
        call_ensures(SymbolTable::copy, (&table,), copy),
        call_ensures(SymbolTable::get, (&copy, name), again),
        0 <= i < table.entries@.len(),
        table.entries@[i].name@ == name@,
        forall|j: int| 0 <= j < i ==> (#[trigger] table.entries@[j]).name@ != name@,
    ensures
        r == Some(table.entries@[i].addr),
        again == r,
{
    let t = table@;
    assert(t[i] == table.entries@[i]@);
    assert forall|j: int| 0 <= j < i implies (#[trigger] t[j]).0 != name@ by {
        assert(t[j] == table.entries@[j]@);
        assert(table.entries@[j].name@ != name@);
    }
    first_entry_counts(t, name@, i);
}

proof fn first_entry_counts(table: Seq<(Seq<char>, u64)>, name: Seq<char>, i: int)
    requires
        0 <= i < table.len(),
        table[i].0 == name,
        forall|j: int| 0 <= j < i ==> (#[trigger] table[j]).0 != name,
    ensures
        lookup(table, name) == Some(table[i].1),
    decreases i,
{
    if i > 0 {
        assert(table[0].0 != name);
        let rest = table.drop_first();
        assert forall|j: int| 0 <= j < i - 1 implies (#[trigger] rest[j]).0 != name by {
            assert(rest[j] == table[j + 1]);
        }
        first_entry_counts(rest, name, i - 1);
    }
}

} // verus!
