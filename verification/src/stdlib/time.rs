use vstd::prelude::*;
use crate::args::Args;
use crate::err::Error;
use crate::libapi::{ArgDecl, ArgDesc, FuncDef, Module, SymDesc};
use crate::stdlib::FuncId;
use crate::sym::Symbol;
use crate::val::{Val, ValType};

verus! {

/// Nanoseconds in one second.
pub const NS_HZ: u64 = 1_000_000_000;

/// Nanoseconds in one millisecond.
pub const NS_KHZ: u64 = 1_000_000;

/// Nanoseconds in one microsecond.
pub const NS_MHZ: u64 = 1_000;

fn jump_def(name: &'static str, arg: &'static str, t: ValType, id: FuncId) -> (r: FuncDef)
    ensures
        r.body == id,
{
    let mut args: Vec<ArgDesc> = Vec::new();
    args.push(ArgDesc { name: arg, typ: ArgDecl::Positional(t) });
    FuncDef {
        name,
        return_type: ValType::TimeJump,
        args,
        min_args: 1,
        collect_type: ValType::Void,
        body: id,
    }
}

pub fn jump_seconds_def() -> (r: FuncDef)
    ensures
        r.body == FuncId::TimeJumpSeconds,
{
    jump_def("jump_seconds", "seconds", ValType::U32, FuncId::TimeJumpSeconds)
}

pub fn jump_millis_def() -> (r: FuncDef)
    ensures
        r.body == FuncId::TimeJumpMillis,
{
    jump_def("jump_millis", "ms", ValType::U64, FuncId::TimeJumpMillis)
}

pub fn jump_micros_def() -> (r: FuncDef)
    ensures
        r.body == FuncId::TimeJumpMicros,
{
    jump_def("jump_micros", "us", ValType::U64, FuncId::TimeJumpMicros)
}

pub fn jump_nanos_def() -> (r: FuncDef)
    ensures
        r.body == FuncId::TimeJumpNanos,
{
    jump_def("jump_nanos", "ns", ValType::U64, FuncId::TimeJumpNanos)
}

/// The contract of `jump_seconds_exec`, stated over the arguments before
/// the call and the state after it.
pub open spec fn jump_seconds_exec_post(pre: Args, post: Args, r: Result<Val, Error>) -> bool {
    &&& (r == Ok::<Val, Error>(Val::TimeJump((((crate::args::arg_at(pre.args@, 0).spec_int_val() as u32) as u64) * NS_HZ) as u64)))
}

/// Advance the simulated clock by whole seconds.
pub fn jump_seconds_exec(args: &mut Args) -> (r: Result<Val, Error>)
    requires
        old(args).cursor == 0,
    ensures
        jump_seconds_exec_post(*old(args), *final(args), r),
{
    let secs = args.next().as_u32();
    Ok(Val::TimeJump((secs as u64) * NS_HZ))
}

/// The contract of `jump_millis_exec`, stated over the arguments before
/// the call and the state after it.
pub open spec fn jump_millis_exec_post(pre: Args, post: Args, r: Result<Val, Error>) -> bool {
    &&& (r == Ok::<Val, Error>(Val::TimeJump(((crate::args::arg_at(pre.args@, 0).spec_int_val() * NS_KHZ) % 0x10000000000000000) as u64)))
}

/// Advance the simulated clock by milliseconds.
pub fn jump_millis_exec(args: &mut Args) -> (r: Result<Val, Error>)
    requires
        old(args).cursor == 0,
    ensures
        jump_millis_exec_post(*old(args), *final(args), r),
{
    let ms = args.next().as_u64();
    Ok(Val::TimeJump(ms.wrapping_mul(NS_KHZ)))
}

/// The contract of `jump_micros_exec`, stated over the arguments before
/// the call and the state after it.
pub open spec fn jump_micros_exec_post(pre: Args, post: Args, r: Result<Val, Error>) -> bool {
    &&& (r == Ok::<Val, Error>(Val::TimeJump(((crate::args::arg_at(pre.args@, 0).spec_int_val() * NS_MHZ) % 0x10000000000000000) as u64)))
}

/// Advance the simulated clock by microseconds.
pub fn jump_micros_exec(args: &mut Args) -> (r: Result<Val, Error>)
    requires
        old(args).cursor == 0,
    ensures
        jump_micros_exec_post(*old(args), *final(args), r),
{
    let us = args.next().as_u64();
    Ok(Val::TimeJump(us.wrapping_mul(NS_MHZ)))
}

/// The contract of `jump_nanos_exec`, stated over the arguments before
/// the call and the state after it.
pub open spec fn jump_nanos_exec_post(pre: Args, post: Args, r: Result<Val, Error>) -> bool {
    &&& (r == Ok::<Val, Error>(Val::TimeJump(crate::args::arg_at(pre.args@, 0).spec_int_val())))
}

/// Advance the simulated clock by nanoseconds.
pub fn jump_nanos_exec(args: &mut Args) -> (r: Result<Val, Error>)
    requires
        old(args).cursor == 0,
    ensures
        jump_nanos_exec_post(*old(args), *final(args), r),
{
    let ns = args.next().as_u64();
    Ok(Val::TimeJump(ns))
}

/// The resolution model of this table.
pub open spec fn module_def_model() -> Seq<(Seq<char>, crate::sym::SymKind)> {
    seq![
        ("jump_seconds"@, crate::sym::SymKind::Func(crate::stdlib::FuncId::TimeJumpSeconds)),
        ("jump_millis"@, crate::sym::SymKind::Func(crate::stdlib::FuncId::TimeJumpMillis)),
        ("jump_micros"@, crate::sym::SymKind::Func(crate::stdlib::FuncId::TimeJumpMicros)),
        ("jump_nanos"@, crate::sym::SymKind::Func(crate::stdlib::FuncId::TimeJumpNanos)),
    ]
}

pub fn module_def() -> (r: Module)
    ensures
        forall|n: Seq<char>|
            crate::libapi::lookup_matches(
                #[trigger] crate::libapi::table_lookup(r.symtab@, n),
                crate::libapi::model_lookup(module_def_model(), n),
            ),
{
    let mut symtab: Vec<SymDesc> = Vec::new();
    symtab.push(SymDesc { name: "jump_seconds", sym: Symbol::Func(FuncId::TimeJumpSeconds) });
    symtab.push(SymDesc { name: "jump_millis", sym: Symbol::Func(FuncId::TimeJumpMillis) });
    symtab.push(SymDesc { name: "jump_micros", sym: Symbol::Func(FuncId::TimeJumpMicros) });
    symtab.push(SymDesc { name: "jump_nanos", sym: Symbol::Func(FuncId::TimeJumpNanos) });
    let r = Module { name: "time", symtab };
    proof {
        let m = module_def_model();
        assert(r.symtab@.len() == m.len());
        assert forall|i: int|
            0 <= i < r.symtab@.len() implies (#[trigger] r.symtab@[i]).name@ == m[i].0
            && crate::sym::kind_of(r.symtab@[i].sym) == m[i].1 by {
        }
        crate::libapi::lemma_table_model(r.symtab@, m);
    }
    r
}

} // verus!
