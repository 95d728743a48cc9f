use vstd::prelude::*;
use crate::libapi::{Module, SymDesc};
use crate::stdlib::ModuleId;
use crate::sym::Symbol;

verus! {

/// The resolution model of this table.
pub open spec fn hrd_module_model() -> Seq<(Seq<char>, crate::sym::SymKind)> {
    seq![
        ("ETHER"@, crate::sym::SymKind::ValU64(1)),
    ]
}

pub fn hrd_module() -> (r: Module)
    ensures
        forall|n: Seq<char>|
            crate::libapi::lookup_matches(
                #[trigger] crate::libapi::table_lookup(r.symtab@, n),
                crate::libapi::model_lookup(hrd_module_model(), n),
            ),
{
    let mut symtab: Vec<SymDesc> = Vec::new();
    symtab.push(SymDesc { name: "ETHER", sym: Symbol::int_val(1) });
    let r = Module { name: "hrd", symtab };
    proof {
        let m = hrd_module_model();
        assert(r.symtab@.len() == m.len());
        assert forall|i: int|
            0 <= i < r.symtab@.len() implies (#[trigger] r.symtab@[i]).name@ == m[i].0
            && crate::sym::kind_of(r.symtab@[i].sym) == m[i].1 by {
        }
        crate::libapi::lemma_table_model(r.symtab@, m);
    }
    r
}

/// The resolution model of this table.
pub open spec fn module_def_model() -> Seq<(Seq<char>, crate::sym::SymKind)> {
    seq![
        ("hrd"@, crate::sym::SymKind::Module(crate::stdlib::ModuleId::ArpHrd)),
    ]
}

pub fn module_def() -> (r: Module)
    ensures
        forall|n: Seq<char>|
            crate::libapi::lookup_matches(
                #[trigger] crate::libapi::table_lookup(r.symtab@, n),
                crate::libapi::model_lookup(module_def_model(), n),
            ),
{
    let mut symtab: Vec<SymDesc> = Vec::new();
    symtab.push(SymDesc { name: "hrd", sym: Symbol::Module(ModuleId::ArpHrd) });
    let r = Module { name: "arp", symtab };
    proof {
        let m = module_def_model();
        assert(r.symtab@.len() == m.len());
        assert forall|i: int|
            0 <= i < r.symtab@.len() implies (#[trigger] r.symtab@[i]).name@ == m[i].0
            && crate::sym::kind_of(r.symtab@[i].sym) == m[i].1 by {
        }
        crate::libapi::lemma_table_model(r.symtab@, m);
    }
    r
}

} // verus!
