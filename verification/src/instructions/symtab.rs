//! The symbol table: label text mapped to its resolved address. Built once
//! by the label resolver, read-only afterwards; a name recorded twice keeps
//! its latest address.

use vstd::prelude::*;

use crate::instructions::parameters::{subst_op, OpParam};
use crate::instructions::text::eq_str;

verus! {

/// Label text mapped to the address of the instruction that follows it.
pub struct SymbolTable {
    entries: Vec<(String, u16)>,
}

spec fn table_of(es: Seq<(String, u16)>) -> Map<Seq<char>, u16>
    decreases es.len(),
{
    if es.len() == 0 {
        Map::empty()
    } else {
        table_of(es.drop_last()).insert(es.last().0@, es.last().1)
    }
}

impl View for SymbolTable {
    type V = Map<Seq<char>, u16>;

    closed spec fn view(&self) -> Map<Seq<char>, u16> {
        table_of(self.entries@)
    }
}

proof fn lemma_table_of_found(es: Seq<(String, u16)>, i: int, k: Seq<char>)
    requires
        0 <= i < es.len(),
        es[i].0@ == k,
        forall|j: int| i < j < es.len() ==> (#[trigger] es[j]).0@ != k,
    ensures
        table_of(es).dom().contains(k),
        table_of(es)[k] == es[i].1,
    decreases es.len(),
{
    if i < es.len() - 1 {
        lemma_table_of_found(es.drop_last(), i, k);
    }
}

proof fn lemma_table_of_absent(es: Seq<(String, u16)>, k: Seq<char>)
    requires
        forall|j: int| 0 <= j < es.len() ==> (#[trigger] es[j]).0@ != k,
    ensures
        !table_of(es).dom().contains(k),
    decreases es.len(),
{
    if es.len() > 0 {
        lemma_table_of_absent(es.drop_last(), k);
    }
}

impl SymbolTable {
    /// An empty table.
    pub fn new() -> (r: SymbolTable)
        ensures
            r@ == Map::<Seq<char>, u16>::empty(),
    {
        SymbolTable { entries: Vec::new() }
    }

    /// Records `name` as resolving to `addr`, replacing any earlier record.
    pub fn insert(&mut self, name: String, addr: u16)
        ensures
            final(self)@ == old(self)@.insert(name@, addr),
    {
        self.entries.push((name, addr));
        proof {
            assert(self.entries@.drop_last() =~= old(self).entries@);
        }
    }

    /// Looks a label name up.
    pub fn get(&self, name: &str) -> (r: Option<u16>)
        ensures
            match r {
                Some(v) => self@.dom().contains(name@) && self@[name@] == v,
                None => !self@.dom().contains(name@),
            },
    {
        let mut i = self.entries.len();
        while i > 0
            invariant
                i <= self.entries.len(),
                forall|j: int|
                    i <= j < self.entries.len() ==> (#[trigger] self.entries@[j]).0@ != name@,
            decreases i,
        {
            i = i - 1;
            if eq_str(self.entries[i].0.as_str(), name) {
                proof {
                    lemma_table_of_found(self.entries@, i as int, name@);
                }
                return Some(self.entries[i].1);
            }
        }
        proof {
            lemma_table_of_absent(self.entries@, name@);
        }
        None
    }
}

/// Replaces a label-reference operand by the address the table gives it; an
/// unknown name, and every other kind of operand, is left unchanged.
pub fn resolve_op(op: OpParam, labels: &SymbolTable) -> (r: OpParam)
    ensures
        r@ == subst_op(op@, labels@),
{
    match op {
        OpParam::Label(name) => match labels.get(name.as_str()) {
            Some(addr) => OpParam::Variable(addr),
            None => OpParam::Label(name),
        },
        other => other,
    }
}

} // verus!
