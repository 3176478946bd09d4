//! A table of names with a byte for each: the constants and the labels of
//! a program.

use vstd::prelude::*;
use vstd::slice::slice_to_vec;

use crate::text::same_chars;

verus! {

/// A name and its value.
#[derive(Debug, Clone)]
pub struct Symbol {
    pub name: Vec<char>,
    pub value: u8,
}

/// A table from names to bytes. A name that is entered again gets the new
/// value.
#[derive(Debug, Default)]
pub struct SymbolTable {
    /// The entries in the order in which they were made: where a name
    /// stands more than once, the last entry counts.
    pub entries: Vec<Symbol>,
}

/// The table that the first `n` entries make.
pub open spec fn table_of(entries: Seq<Symbol>, n: int) -> Map<Seq<char>, u8>
    decreases n,
{
    if n <= 0 {
        Map::empty()
    } else {
        table_of(entries, n - 1).insert(entries[n - 1].name@, entries[n - 1].value)
    }
}

/// Entries that do not hold a name do not change what the table holds for
/// it.
pub proof fn lemma_table_skips(entries: Seq<Symbol>, from: int, to: int, name: Seq<char>)
    requires
        0 <= from <= to <= entries.len(),
        forall|k: int| from <= k < to ==> (#[trigger] entries[k]).name@ != name,
    ensures
        table_of(entries, to).contains_key(name) == table_of(entries, from).contains_key(name),
        table_of(entries, to).contains_key(name) ==> table_of(entries, to)[name] == table_of(
            entries,
            from,
        )[name],
    decreases to - from,
{
    if from < to {
        lemma_table_skips(entries, from, to - 1, name);
    }
}

/// The table of the first entries stays when another entry is added.
pub proof fn lemma_table_extends(entries: Seq<Symbol>, entry: Symbol, n: int)
    requires
        0 <= n <= entries.len(),
    ensures
        table_of(entries.push(entry), n) == table_of(entries, n),
    decreases n,
{
    if n > 0 {
        lemma_table_extends(entries, entry, n - 1);
    }
}

impl View for SymbolTable {
    type V = Map<Seq<char>, u8>;

    open spec fn view(&self) -> Map<Seq<char>, u8> {
        table_of(self.entries@, self.entries@.len() as int)
    }
}

impl SymbolTable {
    /// A table without entries.
    pub fn new() -> (table: SymbolTable)
        ensures
            table@ == Map::<Seq<char>, u8>::empty(),
    {
        SymbolTable { entries: Vec::new() }
    }

    /// Enters a name with its value; the name has that value from now on.
    pub fn insert(&mut self, name: &[char], value: u8)
        ensures
            final(self)@ == old(self)@.insert(name@, value),
    {
        let entry = Symbol { name: slice_to_vec(name), value };
        proof {
            lemma_table_extends(self.entries@, entry, self.entries@.len() as int);
        }
        self.entries.push(entry);
    }

    /// The value of a name, if the table holds the name.
    pub fn get(&self, name: &[char]) -> (value: Option<u8>)
        ensures
            value == if self@.contains_key(name@) {
                Some(self@[name@])
            } else {
                None
            },
    {
        let mut i: usize = self.entries.len();
        while i > 0
            invariant
                i <= self.entries.len(),
                forall|k: int| i <= k < self.entries.len() ==> (#[trigger] self.entries@[k]).name@ != name@,
            decreases i,
        {
            i -= 1;
            if same_chars(self.entries[i].name.as_slice(), name) {
                proof {
                    lemma_table_skips(
                        self.entries@,
                        i + 1,
                        self.entries@.len() as int,
                        name@,
                    );
                }
                return Some(self.entries[i].value);
            }
        }
        proof {
            lemma_table_skips(self.entries@, 0, self.entries@.len() as int, name@);
        }
        None
    }

    /// Whether the table holds the name.
    pub fn contains(&self, name: &[char]) -> (held: bool)
        ensures
            held == self@.contains_key(name@),
    {
        self.get(name).is_some()
    }
}

} // verus!
