use vstd::prelude::*;
use crate::args::Args;
use crate::err::Error;
use crate::libapi::{ArgDecl, ArgDesc, ClassDef, FuncDef, Module, SymDesc};
use crate::object::ObjRef;
use crate::stdlib::{ClassId, FuncId};
use crate::strbuf::Buf;
use crate::sym::Symbol;
use crate::val::{Val, ValType};

verus! {

/// A byte buffer read out in sequential pieces.
#[derive(Debug, Default)]
pub struct BufIo {
    pub buf: Vec<u8>,
    pub taken: usize,
}

impl PartialEq for BufIo {
    fn eq(&self, other: &Self) -> (r: bool) {
        self.taken == other.taken && crate::strbuf::bytes_eq(
            self.buf.as_slice(),
            other.buf.as_slice(),
        )
    }
}

impl vstd::std_specs::cmp::PartialEqSpecImpl for BufIo {
    open spec fn obeys_eq_spec() -> bool {
        true
    }

    open spec fn eq_spec(&self, other: &BufIo) -> bool {
        self.buf@ == other.buf@ && self.taken == other.taken
    }
}

impl Eq for BufIo {}

impl BufIo {
    pub open spec fn wf(&self) -> bool {
        self.taken <= self.buf@.len()
    }

    pub fn from_bytes(s: &[u8]) -> (r: BufIo)
        ensures
            r.buf@ == s@,
            r.taken == 0,
            r.wf(),
    {
        let mut v: Vec<u8> = Vec::new();
        crate::pkt::put_bytes(&mut v, s);
        proof {
            assert(v@ =~= s@);
        }
        BufIo { buf: v, taken: 0 }
    }

    /// Read up to `bytes` bytes from the current position.
    #[verifier::loop_isolation(false)]
    pub fn read(&mut self, bytes: usize) -> (r: Vec<u8>)
        requires
            old(self).wf(),
        ensures
            final(self).buf@ == old(self).buf@,
            final(self).taken == (if old(self).buf@.len() - old(self).taken < bytes {
                old(self).buf@.len() as int
            } else {
                old(self).taken + bytes
            }),
            r@ == old(self).buf@.subrange(old(self).taken as int, final(self).taken as int),
            final(self).wf(),
    {
        let remaining = self.buf.len() - self.taken;
        let take = if remaining < bytes {
            remaining
        } else {
            bytes
        };
        let start = self.taken;
        self.taken = self.taken + take;
        let mut r: Vec<u8> = Vec::new();
        let mut i = start;
        while i < start + take
            invariant
                start <= i <= start + take,
                start + take <= self.buf@.len(),
                r@ =~= self.buf@.subrange(start as int, i as int),
            decreases start + take - i,
        {
            r.push(self.buf[i]);
            assert(r@ =~= self.buf@.subrange(start as int, i + 1));
            i += 1;
        }
        r
    }

    /// Read everything that remains.
    pub fn read_all(&mut self) -> (r: Vec<u8>)
        requires
            old(self).wf(),
        ensures
            final(self).buf@ == old(self).buf@,
            final(self).taken == old(self).buf@.len(),
            r@ == old(self).buf@.skip(old(self).taken as int),
            final(self).wf(),
    {
        let n = self.buf.len() - self.taken;
        let r = self.read(n);
        proof {
            assert(r@ =~= old(self).buf@.skip(old(self).taken as int));
        }
        r
    }
}

pub fn file_def() -> (r: FuncDef)
    ensures
        r.body == FuncId::IoFile,
{
    let mut args: Vec<ArgDesc> = Vec::new();
    args.push(ArgDesc { name: "filename", typ: ArgDecl::Positional(ValType::Str) });
    FuncDef {
        name: "file",
        return_type: ValType::Str,
        args,
        min_args: 1,
        collect_type: ValType::Str,
        body: FuncId::IoFile,
    }
}

/// Loading a file is I/O and lives outside the interpreter; inside it
/// the call is a runtime failure.
pub fn file_exec(args: &mut Args) -> (r: Result<Val, Error>) {
    args.void();
    Err(Error::RuntimeError)
}

pub fn bufio_def() -> (r: FuncDef)
    ensures
        r.body == FuncId::IoBufio,
{
    let args: Vec<ArgDesc> = Vec::new();
    FuncDef {
        name: "bufio",
        return_type: ValType::Obj,
        args,
        min_args: 0,
        collect_type: ValType::Str,
        body: FuncId::IoBufio,
    }
}

pub fn bufio_exec(args: &mut Args) -> (r: Result<Val, Error>) {
    let sep: Vec<u8> = Vec::new();
    let bytes = args.join_extra(sep.as_slice());
    let buf = bytes.as_buf();
    Ok(Val::Obj(ObjRef::BufIo(BufIo::from_bytes(buf.as_slice()))))
}

pub fn read_def() -> (r: FuncDef)
    ensures
        r.body == FuncId::BufioRead,
{
    let mut args: Vec<ArgDesc> = Vec::new();
    args.push(ArgDesc { name: "bytes", typ: ArgDecl::Positional(ValType::U64) });
    FuncDef {
        name: "read",
        return_type: ValType::Str,
        args,
        min_args: 1,
        collect_type: ValType::Void,
        body: FuncId::BufioRead,
    }
}

pub fn read_exec(args: &mut Args) -> (r: Result<Val, Error>) {
    let n = args.next().as_u64();
    match &mut args.this {
        Some(ObjRef::BufIo(b)) => {
            if b.taken > b.buf.len() {
                return Err(Error::RuntimeError);
            }
            let out = b.read(n as usize);
            Ok(Val::Str(Buf::from_vec(out)))
        },
        _ => Err(Error::TypeError),
    }
}

pub fn read_all_def() -> (r: FuncDef)
    ensures
        r.body == FuncId::BufioReadAll,
{
    let args: Vec<ArgDesc> = Vec::new();
    FuncDef {
        name: "read_all",
        return_type: ValType::Str,
        args,
        min_args: 0,
        collect_type: ValType::Void,
        body: FuncId::BufioReadAll,
    }
}

pub fn read_all_exec(args: &mut Args) -> (r: Result<Val, Error>) {
    match &mut args.this {
        Some(ObjRef::BufIo(b)) => {
            if b.taken > b.buf.len() {
                return Err(Error::RuntimeError);
            }
            let out = b.read_all();
            Ok(Val::Str(Buf::from_vec(out)))
        },
        _ => Err(Error::TypeError),
    }
}

/// The resolution model of this table.
pub open spec fn class_def_bufio_model() -> Seq<(Seq<char>, crate::sym::SymKind)> {
    seq![
        ("read"@, crate::sym::SymKind::Func(crate::stdlib::FuncId::BufioRead)),
        ("read_all"@, crate::sym::SymKind::Func(crate::stdlib::FuncId::BufioReadAll)),
    ]
}

pub fn class_def_bufio() -> (r: ClassDef)
    ensures
        forall|n: Seq<char>|
            crate::libapi::lookup_matches(
                #[trigger] crate::libapi::table_lookup(r.symtab@, n),
                crate::libapi::model_lookup(class_def_bufio_model(), n),
            ),
{
    let mut symtab: Vec<SymDesc> = Vec::new();
    symtab.push(SymDesc { name: "read", sym: Symbol::Func(FuncId::BufioRead) });
    symtab.push(SymDesc { name: "read_all", sym: Symbol::Func(FuncId::BufioReadAll) });
    let r = ClassDef { name: "BufIO", symtab };
    proof {
        let m = class_def_bufio_model();
        assert(r.symtab@.len() == m.len());
        assert forall|i: int|
            0 <= i < r.symtab@.len() implies (#[trigger] r.symtab@[i]).name@ == m[i].0
            && crate::sym::kind_of(r.symtab@[i].sym) == m[i].1 by {
        }
        crate::libapi::lemma_table_model(r.symtab@, m);
    }
    r
}

/// The resolution model of this table.
pub open spec fn module_def_model() -> Seq<(Seq<char>, crate::sym::SymKind)> {
    seq![
        ("BufIO"@, crate::sym::SymKind::Class(crate::stdlib::ClassId::BufIo)),
        ("file"@, crate::sym::SymKind::Func(crate::stdlib::FuncId::IoFile)),
        ("bufio"@, crate::sym::SymKind::Func(crate::stdlib::FuncId::IoBufio)),
    ]
}

pub fn module_def() -> (r: Module)
    ensures
        forall|n: Seq<char>|
            crate::libapi::lookup_matches(
                #[trigger] crate::libapi::table_lookup(r.symtab@, n),
                crate::libapi::model_lookup(module_def_model(), n),
            ),
{
    let mut symtab: Vec<SymDesc> = Vec::new();
    symtab.push(SymDesc { name: "BufIO", sym: Symbol::Class(ClassId::BufIo) });
    symtab.push(SymDesc { name: "file", sym: Symbol::Func(FuncId::IoFile) });
    symtab.push(SymDesc { name: "bufio", sym: Symbol::Func(FuncId::IoBufio) });
    let r = Module { name: "io", symtab };
    proof {
        let m = module_def_model();
        assert(r.symtab@.len() == m.len());
        assert forall|i: int|
            0 <= i < r.symtab@.len() implies (#[trigger] r.symtab@[i]).name@ == m[i].0
            && crate::sym::kind_of(r.symtab@[i].sym) == m[i].1 by {
        }
        crate::libapi::lemma_table_model(r.symtab@, m);
    }
    r
}

} // verus!
