use vstd::prelude::*;
use crate::args::Args;
use crate::err::Error;
use crate::libapi::{ArgDesc, FuncDef, Module, SymDesc};
use crate::stdlib::FuncId;
use crate::strbuf::Buf;
use crate::sym::Symbol;
use crate::val::{Val, ValDef, ValType};

verus! {

fn text_def(name: &'static str, ret: ValType, id: FuncId) -> (r: FuncDef)
    ensures
        r.body == id,
{
    let args: Vec<ArgDesc> = Vec::new();
    FuncDef {
        name,
        return_type: ret,
        args,
        min_args: 0,
        collect_type: ValType::Str,
        body: id,
    }
}

pub fn concat_def() -> (r: FuncDef)
    ensures
        r.body == FuncId::TextConcat,
{
    text_def("concat", ValType::Str, FuncId::TextConcat)
}

pub fn crlflines_def() -> (r: FuncDef)
    ensures
        r.body == FuncId::TextCrlflines,
{
    text_def("crlflines", ValType::Str, FuncId::TextCrlflines)
}

pub fn len_def() -> (r: FuncDef)
    ensures
        r.body == FuncId::TextLen,
{
    text_def("len", ValType::U64, FuncId::TextLen)
}

/// The contract of `concat_exec`, stated over the arguments before
/// the call and the state after it.
pub open spec fn concat_exec_post(pre: Args, post: Args, r: Result<Val, Error>) -> bool {
    &&& ((r matches Ok(v) && v matches Val::Str(b) && b@ == crate::args::join_spec(pre.extra@, Seq::<u8>::empty())))
}

/// Concatenate the byte strings of the tail.
pub fn concat_exec(args: &mut Args) -> (r: Result<Val, Error>)
    ensures
        concat_exec_post(*old(args), *final(args), r),
{
    let sep: Vec<u8> = Vec::new();
    Ok(args.join_extra(sep.as_slice()))
}

/// The contract of `crlflines_exec`, stated over the arguments before
/// the call and the state after it.
pub open spec fn crlflines_exec_post(pre: Args, post: Args, r: Result<Val, Error>) -> bool {
    &&& ((r matches Ok(v) && v matches Val::Str(b) && b@ == crate::args::join_spec(
            pre.extra@,
            seq![13u8, 10u8],
        )))
}

/// Join the byte strings of the tail with CRLF line endings.
pub fn crlflines_exec(args: &mut Args) -> (r: Result<Val, Error>)
    ensures
        crlflines_exec_post(*old(args), *final(args), r),
{
    let mut sep: Vec<u8> = Vec::new();
    sep.push(13);
    sep.push(10);
    proof {
        assert(sep@ =~= seq![13u8, 10u8]);
    }
    Ok(args.join_extra(sep.as_slice()))
}

/// The contract of `len_exec`, stated over the arguments before
/// the call and the state after it.
pub open spec fn len_exec_post(pre: Args, post: Args, r: Result<Val, Error>) -> bool {
    &&& (r == Ok::<Val, Error>(Val::U64(crate::args::join_spec(pre.extra@, Seq::<u8>::empty()).len() as u64)))
}

/// The joined length of the tail.
pub fn len_exec(args: &mut Args) -> (r: Result<Val, Error>)
    ensures
        len_exec_post(*old(args), *final(args), r),
{
    let sep: Vec<u8> = Vec::new();
    let b = args.join_extra(sep.as_slice()).as_buf();
    Ok(Val::U64(b.len() as u64))
}

/// The resolution model of this table.
pub open spec fn module_def_model() -> Seq<(Seq<char>, crate::sym::SymKind)> {
    seq![
        ("concat"@, crate::sym::SymKind::Func(crate::stdlib::FuncId::TextConcat)),
        ("crlflines"@, crate::sym::SymKind::Func(crate::stdlib::FuncId::TextCrlflines)),
        ("len"@, crate::sym::SymKind::Func(crate::stdlib::FuncId::TextLen)),
        ("CRLF"@, crate::sym::SymKind::ValBytes),
    ]
}

pub fn module_def() -> (r: Module)
    ensures
        forall|n: Seq<char>|
            crate::libapi::lookup_matches(
                #[trigger] crate::libapi::table_lookup(r.symtab@, n),
                crate::libapi::model_lookup(module_def_model(), n),
            ),
{
    let mut symtab: Vec<SymDesc> = Vec::new();
    symtab.push(SymDesc { name: "concat", sym: Symbol::Func(FuncId::TextConcat) });
    symtab.push(SymDesc { name: "crlflines", sym: Symbol::Func(FuncId::TextCrlflines) });
    symtab.push(SymDesc { name: "len", sym: Symbol::Func(FuncId::TextLen) });
    let mut crlf: Vec<u8> = Vec::new();
    crlf.push(13);
    crlf.push(10);
    symtab.push(SymDesc { name: "CRLF", sym: Symbol::Val(ValDef::Str(Buf::from_vec(crlf))) });
    let r = Module { name: "text", symtab };
    proof {
        let m = module_def_model();
        assert(r.symtab@.len() == m.len());
        assert forall|i: int|
            0 <= i < r.symtab@.len() implies (#[trigger] r.symtab@[i]).name@ == m[i].0
            && crate::sym::kind_of(r.symtab@[i].sym) == m[i].1 by {
        }
        crate::libapi::lemma_table_model(r.symtab@, m);
    }
    r
}

} // verus!
