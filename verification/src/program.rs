use vstd::prelude::*;
use vstd::pervasive::VecAdditionalExecFns;
use crate::args::{Args, ArgSpec};
use crate::strbuf::Buf;
use crate::ast::{ArgExpr, Assign, Call, Expr, Import, ObjectRef, Stmt};
use crate::err::Error;
use crate::libapi::str_eq;
use crate::loc::Loc;
use crate::object::ObjRef;
use crate::pkt::packet::Packet;
use crate::pkt::Sock4;
use crate::stdlib::{call_func, func_def, module_def, toplevel_module, FuncId, ModuleId};
use crate::sym::Symbol;
use crate::val::{clone_string, Val, ValType};

verus! {

/// One record handed to the pcap sink: a timestamp in nanoseconds and
/// the finished packet.
#[derive(Debug)]
pub struct OutputRecord {
    pub ts: u64,
    pub pkt: Packet,
}

/// The interpreter: a register file, the imported modules, a simulated
/// nanosecond clock, and the packets emitted so far in order.
#[derive(Debug)]
pub struct Program {
    pub now: u64,
    pub regs: Vec<(String, Val)>,
    pub imports: Vec<(String, ModuleId)>,
    pub out: Vec<OutputRecord>,
    pub warnings: Vec<Loc>,
    pub loc: Loc,
    /// File contents the host has provided, by file name.
    pub files: Vec<(Vec<u8>, Vec<u8>)>,
    /// The file name whose content was asked for and missing.
    pub pending_file: Option<Vec<u8>>,
}

/// The provided file content under a name, first match.
pub open spec fn file_lookup(files: Seq<(Vec<u8>, Vec<u8>)>, name: Seq<u8>) -> Option<Seq<u8>>
    decreases files.len(),
{
    if files.len() == 0 {
        None
    } else if files[0].0@ == name {
        Some(files[0].1@)
    } else {
        file_lookup(files.skip(1), name)
    }
}

/// The wire time of a burst: each packet's bit time, summed.
pub open spec fn bit_time_sum(ps: Seq<Packet>) -> int
    decreases ps.len(),
{
    if ps.len() == 0 {
        0
    } else {
        (ps[0].content().len() + 24) * 8 + bit_time_sum(ps.skip(1))
    }
}

/// Every packet of a burst is well formed and small enough to time.
pub open spec fn burst_ok(ps: Seq<Packet>) -> bool {
    forall|i: int|
        0 <= i < ps.len() ==> (#[trigger] ps[i]).headroom <= ps[i].buf@.len() && ps[i].content().len()
            <= 0xffffffff
}

/// Whether a name is bound in a register or import list.
pub open spec fn bound_spec<T>(regs: Seq<(String, T)>, name: Seq<char>) -> bool
    decreases regs.len(),
{
    if regs.len() == 0 {
        false
    } else {
        regs[0].0@ == name || bound_spec(regs.skip(1), name)
    }
}

/// The first binding of a name, if any.
pub open spec fn name_lookup<T>(regs: Seq<(String, T)>, name: Seq<char>) -> Option<T>
    decreases regs.len(),
{
    if regs.len() == 0 {
        None
    } else if regs[0].0@ == name {
        Some(regs[0].1)
    } else {
        name_lookup(regs.skip(1), name)
    }
}

/// A name that is not bound resolves to nothing.
proof fn lemma_unbound_lookup<T>(regs: Seq<(String, T)>, name: Seq<char>)
    requires
        !bound_spec(regs, name),
    ensures
        name_lookup(regs, name) is None,
    decreases regs.len(),
{
    if regs.len() > 0 {
        lemma_unbound_lookup(regs.skip(1), name);
    }
}

/// The first index that carries a name is the one a lookup answers
/// from.
proof fn lemma_name_lookup_at<T>(regs: Seq<(String, T)>, name: Seq<char>, i: int)
    requires
        0 <= i < regs.len(),
        regs[i].0@ == name,
        forall|j: int| 0 <= j < i ==> (#[trigger] regs[j]).0@ != name,
    ensures
        name_lookup(regs, name) == Some(regs[i].1),
    decreases i,
{
    if i > 0 {
        assert forall|j: int| 0 <= j < i - 1 implies (#[trigger] regs.skip(1)[j]).0@ != name by {
            assert(regs.skip(1)[j] == regs[j + 1]);
        }
        assert(regs.skip(1)[i - 1] == regs[i]);
        lemma_name_lookup_at(regs.skip(1), name, i - 1);
    }
}

/// Walking the module components from index `i`: each must name a
/// submodule of the module reached so far.
pub open spec fn walk_modules(top: ModuleId, mods: Seq<String>, i: int) -> Result<ModuleId, Error>
    decreases mods.len() - i,
{
    if i >= mods.len() {
        Ok(top)
    } else {
        match crate::libapi::model_lookup(crate::stdlib::module_model(top), mods[i]@) {
            Some(crate::sym::SymKind::Module(m)) => walk_modules(m, mods, i + 1),
            None => Err(Error::NameError),
            Some(_) => Err(Error::TypeError),
        }
    }
}

/// What resolving a name in a module returns: a miss is a name error,
/// a module or class a type error, and a constant or function the
/// value its kind stands for.
pub open spec fn extern_result_ok(m: ModuleId, name: Seq<char>, r: Result<Val, Error>) -> bool {
    match crate::libapi::model_lookup(crate::stdlib::module_model(m), name) {
        None => r == Err::<Val, Error>(Error::NameError),
        Some(crate::sym::SymKind::Module(_)) => r == Err::<Val, Error>(Error::TypeError),
        Some(crate::sym::SymKind::Class(_)) => r == Err::<Val, Error>(Error::TypeError),
        Some(k) => (r matches Ok(v) && crate::sym::val_of_kind(k, v)),
    }
}

/// Resolution of a module-qualified reference: the first component
/// names an import, every further module component a submodule, and
/// the single trailing component a constant or function in the module
/// reached.
pub open spec fn extern_ref_ok(
    imports: Seq<(String, ModuleId)>,
    mods: Seq<String>,
    comps: Seq<String>,
    r: Result<Val, Error>,
) -> bool {
    if mods.len() == 0 {
        r == Err::<Val, Error>(Error::NameError)
    } else {
        match name_lookup(imports, mods[0]@) {
            None => r == Err::<Val, Error>(Error::NameError),
            Some(t) => match walk_modules(t, mods, 1) {
                Err(e) => r == Err::<Val, Error>(e),
                Ok(m) => if comps.len() != 1 {
                    r == Err::<Val, Error>(Error::NameError)
                } else {
                    extern_result_ok(m, comps[0]@, r)
                },
            },
        }
    }
}

/// What resolving a method component on a register's value returns: a
/// function becomes a method bound to the register's name, a constant
/// its value, anything else a type error, a miss a name error.
pub open spec fn method_result(v: Val, mname: Seq<char>, var: Seq<char>, r: Result<
    Val,
    Error,
>) -> bool {
    match v {
        Val::Obj(o) => match crate::libapi::model_lookup(
            crate::stdlib::class_model(o.spec_class_id()),
            mname,
        ) {
            None => r == Err::<Val, Error>(Error::NameError),
            Some(crate::sym::SymKind::Func(f)) => (r matches Ok(rv) && rv matches Val::Method(
                n,
                f2,
            ) && n@ == var && f2 == f),
            Some(crate::sym::SymKind::Module(_)) => r == Err::<Val, Error>(Error::TypeError),
            Some(crate::sym::SymKind::Class(_)) => r == Err::<Val, Error>(Error::TypeError),
            Some(k) => (r matches Ok(rv) && crate::sym::val_of_kind(k, rv)),
        },
        _ => r == Err::<Val, Error>(Error::TypeError),
    }
}

/// Resolution of a bare reference: one component reads a register,
/// two resolve a method or constant on the register's object, any
/// other shape is a name error.
pub open spec fn local_ref_ok(
    regs: Seq<(String, Val)>,
    comps: Seq<String>,
    r: Result<Val, Error>,
) -> bool {
    if comps.len() == 0 || comps.len() > 2 {
        r == Err::<Val, Error>(Error::NameError)
    } else {
        match name_lookup(regs, comps[0]@) {
            None => r == Err::<Val, Error>(Error::NameError),
            Some(v) => if comps.len() == 1 {
                (r matches Ok(rv) && crate::val::val_eq(rv, v))
            } else {
                method_result(v, comps[1]@, comps[0]@, r)
            },
        }
    }
}

/// What expression evaluation may touch: the location marker and the
/// values of already-bound registers (a method call mutates its
/// receiver); never the clock, the output, the warnings, the imports,
/// nor which names are bound.
pub open spec fn eval_frame(pre: Program, post: Program) -> bool {
    &&& post.now == pre.now
    &&& post.files == pre.files
    &&& post.out == pre.out
    &&& post.warnings == pre.warnings
    &&& post.imports == pre.imports
    &&& post.regs@.len() == pre.regs@.len()
    &&& (forall|i: int|
        0 <= i < pre.regs@.len() ==> (#[trigger] post.regs@[i]).0@ == pre.regs@[i].0@)
}

impl Program {
    /// A fresh interpreter with nothing bound and the clock at zero.
    pub fn dummy() -> (r: Result<Program, Error>)
        ensures
            (r matches Ok(p) && p.now == 0 && p.regs@.len() == 0 && p.imports@.len() == 0
                && p.out@.len() == 0 && p.warnings@.len() == 0),
    {
        Ok(
            Program {
                now: 0,
                regs: Vec::new(),
                imports: Vec::new(),
                out: Vec::new(),
                warnings: Vec::new(),
                loc: Loc::nil(),
                files: Vec::new(),
                pending_file: None,
            },
        )
    }

    /// Answer an `io::file` call from the provision table: the content
    /// under the requested name, or a runtime failure that records the
    /// name so the host can provide it and try again.
    #[verifier::loop_isolation(false)]
    fn eval_file(&mut self, args: &mut Args) -> (r: Result<Val, Error>)
        requires
            old(args).cursor == 0,
        ensures
            final(self).now == old(self).now,
            final(self).regs == old(self).regs,
            final(self).imports == old(self).imports,
            final(self).out == old(self).out,
            final(self).warnings == old(self).warnings,
            final(self).loc == old(self).loc,
            final(self).files == old(self).files,
            ({
                let name = crate::args::buf_of(crate::args::arg_at(old(args).args@, 0));
                match file_lookup(old(self).files@, name) {
                    Some(content) => (r matches Ok(v) && v matches Val::Str(b) && b@ == content
                        && final(self).pending_file == old(self).pending_file),
                    None => (r == Err::<Val, Error>(Error::RuntimeError) && (final(self)
                        .pending_file matches Some(p) && p@ == name)),
                }
            }),
    {
        let name = args.next().as_buf();
        args.void();
        let mut i: usize = 0;
        proof {
            assert(self.files@.skip(0) =~= self.files@);
        }
        while i < self.files.len()
            invariant
                0 <= i <= self.files@.len(),
                file_lookup(self.files@.skip(i as int), name@) == file_lookup(
                    self.files@,
                    name@,
                ),
            decreases self.files@.len() - i,
        {
            proof {
                assert(self.files@.skip(i as int)[0] == self.files@[i as int]);
                assert(self.files@.skip(i as int).skip(1) =~= self.files@.skip(i + 1));
            }
            if crate::strbuf::bytes_eq(self.files[i].0.as_slice(), name.as_slice()) {
                proof {
                    assert(self.files@.skip(i as int)[0].0@ == name@);
                    assert(file_lookup(self.files@.skip(i as int), name@) == Some(
                        self.files@[i as int].1@,
                    ));
                }
                let content = Buf::from_slice(self.files[i].1.as_slice());
                return Ok(Val::Str(content));
            }
            i += 1;
        }
        let mut pend: Vec<u8> = Vec::new();
        crate::pkt::put_bytes(&mut pend, name.as_slice());
        proof {
            assert(pend@ =~= name@);
        }
        self.pending_file = Some(pend);
        Err(Error::RuntimeError)
    }

    /// Provide the content of a file under its name and clear any
    /// pending request for it.
    pub fn provide_file(&mut self, name: Vec<u8>, content: Vec<u8>)
        ensures
            final(self).files@ == old(self).files@.push((name, content)),
            final(self).pending_file is None,
            *final(self) == (Program {
                files: final(self).files,
                pending_file: None,
                ..*old(self)
            }),
    {
        self.files.push((name, content));
        self.pending_file = None;
    }

    /// The file name an `io::file` call asked for and did not find,
    /// if any.
    pub fn pending_file_name(&self) -> (r: Option<Vec<u8>>)
        ensures
            match self.pending_file {
                Some(p) => (r matches Some(q) && q@ == p@),
                None => r is None,
            },
    {
        match &self.pending_file {
            Some(p) => {
                let mut q: Vec<u8> = Vec::new();
                crate::pkt::put_bytes(&mut q, p.as_slice());
                proof {
                    assert(q@ =~= p@);
                }
                Some(q)
            },
            None => None,
        }
    }

    pub fn loc(&self) -> (r: Loc)
        ensures
            r == self.loc,
    {
        self.loc
    }

    /// Run a whole script from a fresh interpreter and return it with
    /// its output; each statement's effect is governed by the
    /// contracts of `add_import`, `add_assign` and `add_expr` in
    /// order.
    pub fn execute(stmts: Vec<Stmt>) -> (r: Result<Program, Error>)
        ensures
            stmts@.len() == 0 ==> (r matches Ok(p) && p.now == 0 && p.regs@.len() == 0
                && p.imports@.len() == 0 && p.out@.len() == 0 && p.warnings@.len() == 0),
    {
        let mut prog = match Program::dummy() {
            Ok(p) => p,
            Err(e) => {
                return Err(e);
            },
        };
        match prog.add_stmts(stmts) {
            Ok(_) => Ok(prog),
            Err(e) => Err(e),
        }
    }

    fn find_reg(&self, name: &str) -> (r: Option<usize>)
        ensures
            (r matches Some(i) ==> i < self.regs@.len() && self.regs@[i as int].0@ == name@
                && (forall|j: int| 0 <= j < i ==> (#[trigger] self.regs@[j]).0@ != name@)),
            r is None ==> !bound_spec(self.regs@, name@),
    {
        let mut i: usize = 0;
        proof {
            assert(self.regs@.skip(0) =~= self.regs@);
        }
        while i < self.regs.len()
            invariant
                0 <= i <= self.regs@.len(),
                bound_spec(self.regs@.skip(i as int), name@) == bound_spec(self.regs@, name@),
                forall|j: int| 0 <= j < i ==> (#[trigger] self.regs@[j]).0@ != name@,
            decreases self.regs@.len() - i,
        {
            proof {
                assert(self.regs@.skip(i as int)[0] == self.regs@[i as int]);
                assert(self.regs@.skip(i as int).skip(1) =~= self.regs@.skip(i + 1));
            }
            if str_eq(self.regs[i].0.as_str(), name) {
                return Some(i);
            }
            i += 1;
        }
        None
    }

    fn find_import(&self, name: &str) -> (r: Option<ModuleId>)
        ensures
            r == name_lookup(self.imports@, name@),
            (r is None) == !bound_spec(self.imports@, name@),
    {
        let mut i: usize = 0;
        proof {
            assert(self.imports@.skip(0) =~= self.imports@);
        }
        while i < self.imports.len()
            invariant
                0 <= i <= self.imports@.len(),
                bound_spec(self.imports@.skip(i as int), name@) == bound_spec(
                    self.imports@,
                    name@,
                ),
                name_lookup(self.imports@.skip(i as int), name@) == name_lookup(
                    self.imports@,
                    name@,
                ),
            decreases self.imports@.len() - i,
        {
            proof {
                assert(self.imports@.skip(i as int)[0] == self.imports@[i as int]);
                assert(self.imports@.skip(i as int).skip(1) =~= self.imports@.skip(i + 1));
            }
            if str_eq(self.imports[i].0.as_str(), name) {
                return Some(self.imports[i].1);
            }
            i += 1;
        }
        None
    }

    /// Resolve a reference through the imported module tree: exactly
    /// what `extern_ref_ok` allows for this import list.
    #[verifier::loop_isolation(false)]
    pub fn eval_extern_ref(&self, obj: &ObjectRef) -> (r: Result<Val, Error>)
        ensures
            extern_ref_ok(self.imports@, obj.modules@, obj.components@, r),
    {
        if obj.modules.len() == 0 {
            return Err(Error::NameError);
        }
        let toplevel = &obj.modules[0];
        let mut top = match self.find_import(toplevel.as_str()) {
            None => {
                return Err(Error::NameError);
            },
            Some(m) => m,
        };
        let ghost t0 = top;
        // every double-colon component below the first must name a
        // submodule
        let mut ci: usize = 1;
        while ci < obj.modules.len()
            invariant
                1 <= ci <= obj.modules@.len(),
                walk_modules(t0, obj.modules@, 1) == walk_modules(top, obj.modules@, ci as int),
            decreases obj.modules@.len() - ci,
        {
            let c = &obj.modules[ci];
            top = match module_def(top).get(c.as_str()) {
                Some(Symbol::Module(m)) => m,
                None => {
                    return Err(Error::NameError);
                },
                _ => {
                    return Err(Error::TypeError);
                },
            };
            ci += 1;
        }
        proof {
            assert(walk_modules(top, obj.modules@, ci as int) == Ok::<ModuleId, Error>(top));
        }
        if obj.components.len() != 1 {
            // only `mod::name` is supported
            return Err(Error::NameError);
        }
        let topvar = &obj.components[0];
        match module_def(top).get(topvar.as_str()) {
            Some(Symbol::Val(vd)) => Ok(vd.to_val()),
            Some(Symbol::Func(f)) => Ok(Val::Func(f)),
            Some(Symbol::Module(_)) => Err(Error::TypeError),
            Some(Symbol::Class(_)) => Err(Error::TypeError),
            None => Err(Error::NameError),
        }
    }

    /// Resolve a register, or a method bound to a register's object:
    /// exactly what `local_ref_ok` allows for this register file.
    pub fn eval_local_ref(&self, obj: &ObjectRef) -> (r: Result<Val, Error>)
        ensures
            local_ref_ok(self.regs@, obj.components@, r),
    {
        if obj.components.len() > 2 || obj.components.len() == 0 {
            return Err(Error::NameError);
        }
        let var_name = &obj.components[0];
        let idx = match self.find_reg(var_name.as_str()) {
            Some(i) => i,
            None => {
                proof {
                    lemma_unbound_lookup(self.regs@, var_name@);
                }
                return Err(Error::NameError);
            },
        };
        proof {
            lemma_name_lookup_at(self.regs@, var_name@, idx as int);
        }
        let val = &self.regs[idx].1;
        if obj.components.len() == 1 {
            return Ok(val.clone());
        }
        let method_name = &obj.components[1];
        match val.lookup_symbol(method_name.as_str()) {
            Ok(Symbol::Func(f)) => Ok(Val::Method(clone_string(var_name), f)),
            Ok(Symbol::Val(vd)) => Ok(vd.to_val()),
            Ok(_) => Err(Error::TypeError),
            Err(e) => Err(e),
        }
    }

    /// Resolve any reference: module-qualified ones through the
    /// imports, bare ones through the registers, an empty one refused.
    pub fn eval_obj_ref(&self, obj: &ObjectRef) -> (r: Result<Val, Error>)
        ensures
            obj.modules@.len() > 0 ==> extern_ref_ok(
                self.imports@,
                obj.modules@,
                obj.components@,
                r,
            ),
            obj.modules@.len() == 0 && obj.components@.len() > 0 ==> local_ref_ok(
                self.regs@,
                obj.components@,
                r,
            ),
            obj.modules@.len() == 0 && obj.components@.len() == 0 ==> r == Err::<Val, Error>(
                Error::NameError,
            ),
    {
        if obj.modules.len() > 0 {
            self.eval_extern_ref(obj)
        } else if obj.components.len() > 0 {
            self.eval_local_ref(obj)
        } else {
            Err(Error::NameError)
        }
    }

    #[verifier::loop_isolation(false)]
    fn eval_args(&mut self, argexprs: Vec<ArgExpr>, depth: u32) -> (r: Result<Vec<ArgSpec>, Error>)
        ensures
            eval_frame(*old(self), *final(self)),
        decreases depth,
    {
        if depth == 0 {
            return Err(Error::RuntimeError);
        }
        let d2 = depth - 1;
        let mut specs: Vec<ArgSpec> = Vec::new();
        let mut rest = argexprs;
        while rest.len() > 0
            invariant
                eval_frame(*old(self), *self),
            decreases rest@.len(),
        {
            let x = rest.remove(0);
            let val = match self.eval(x.expr, d2) {
                Ok(v) => v,
                Err(e) => {
                    return Err(e);
                },
            };
            specs.push(ArgSpec::new(x.name, val));
        }
        Ok(specs)
    }

    fn eval_callable(
        &mut self,
        f: FuncId,
        this_reg: Option<String>,
        argexprs: Vec<ArgExpr>,
        depth: u32,
    ) -> (r: Result<Val, Error>)
        ensures
            eval_frame(*old(self), *final(self)),
        decreases depth,
    {
        if depth == 0 {
            return Err(Error::RuntimeError);
        }
        let argvals = match self.eval_args(argexprs, depth - 1) {
            Ok(v) => v,
            Err(e) => {
                return Err(e);
            },
        };
        let fd = func_def(f);
        // for a method call, take the receiver out of its register
        let this: Option<ObjRef> = match &this_reg {
            Some(name) => {
                let idx = match self.find_reg(name.as_str()) {
                    Some(i) => i,
                    None => {
                        return Err(Error::NameError);
                    },
                };
                let key = clone_string(&self.regs[idx].0);
                let mut slot = (key, Val::Nil);
                core::mem::swap(&mut slot, &mut self.regs[idx]);
                match slot.1 {
                    Val::Obj(o) => Some(o),
                    other => {
                        self.regs.set(idx, (slot.0, other));
                        return Err(Error::TypeError);
                    },
                }
            },
            None => None,
        };
        let av = match fd.argvec(None, argvals) {
            Ok(av) => av,
            Err(e) => {
                // a failed binding leaves the receiver where it was
                if let Some(name) = this_reg {
                    if let Some(o) = this {
                        if let Some(idx) = self.find_reg(name.as_str()) {
                            let key = clone_string(&self.regs[idx].0);
                            self.regs.set(idx, (key, Val::Obj(o)));
                        }
                    }
                }
                return Err(e);
            },
        };
        let mut args = av.into_args();
        args.this = this;
        let ret = if f == FuncId::IoFile {
            self.eval_file(&mut args)
        } else {
            call_func(f, &mut args)
        };
        // restore the mutated receiver into its register
        if let Some(name) = this_reg {
            if let Some(o) = args.this {
                let idx = match self.find_reg(name.as_str()) {
                    Some(i) => i,
                    None => {
                        return Err(Error::NameError);
                    },
                };
                let key = clone_string(&self.regs[idx].0);
                self.regs.set(idx, (key, Val::Obj(o)));
            }
        }
        let ret = match ret {
            Ok(v) => v,
            Err(e) => {
                return Err(e);
            },
        };
        // the standard library must return what it declares
        if !ret.is_type(fd.return_type) {
            return Err(Error::TypeError);
        }
        Ok(ret)
    }

    fn eval_call(&mut self, call: Call, depth: u32) -> (r: Result<Val, Error>)
        ensures
            eval_frame(*old(self), *final(self)),
        decreases depth,
    {
        if depth == 0 {
            return Err(Error::RuntimeError);
        }
        let Call { obj, args } = call;
        match self.eval_obj_ref(&obj) {
            Ok(Val::Func(f)) => self.eval_callable(f, None, args, depth - 1),
            Ok(Val::Method(reg, f)) => self.eval_callable(f, Some(reg), args, depth - 1),
            Ok(_) => Err(Error::TypeError),
            Err(e) => Err(e),
        }
    }

    /// Evaluate one expression, to a bounded nesting depth.
    fn eval(&mut self, expr: Expr, depth: u32) -> (r: Result<Val, Error>)
        ensures
            eval_frame(*old(self), *final(self)),
            (expr matches Expr::Nil ==> (depth > 0 ==> (r matches Ok(v) && v matches Val::Nil))),
            (expr matches Expr::Nil || expr matches Expr::Literal(_, _)) ==> *final(self) == (
            Program { loc: final(self).loc, ..*old(self) }),
            (expr matches Expr::Literal(l, v) ==> (depth > 0 ==> r == Ok::<Val, Error>(v)
                && final(self).loc == l)),
            (expr matches Expr::ObjectRef(o) ==> (depth > 0 ==> ((o.modules@.len() > 0
                ==> extern_ref_ok(old(self).imports@, o.modules@, o.components@, r)) && (
            o.modules@.len() == 0 && o.components@.len() > 0 ==> local_ref_ok(
                old(self).regs@,
                o.components@,
                r,
            )) && (o.modules@.len() == 0 && o.components@.len() == 0 ==> r == Err::<Val, Error>(
                Error::NameError,
            )) && *final(self) == (Program { loc: o.loc, ..*old(self) })))),
            (expr matches Expr::Slash(_, _, _) ==> (r matches Ok(v) ==> v matches Val::Sock4(
                _,
            ))),
            (expr matches Expr::Slash(l, a, b) ==> (*a matches Expr::Literal(_, av) ==> (
            *b matches Expr::Literal(_, bv) ==> (depth > 1 ==> (if !(av matches Val::Ip4(_)) {
                (r matches Err(e) && e == Error::TypeError)
            } else if !bv.spec_is_integral() {
                (r matches Err(e) && e == Error::TypeError)
            } else {
                (r matches Ok(v) && v matches Val::Sock4(sa) && sa.ip == crate::val::ip4_of(av)
                    && sa.port == bv.spec_int_val() as u16)
            }))))),
        decreases depth,
    {
        if depth == 0 {
            return Err(Error::RuntimeError);
        }
        match expr {
            Expr::Nil => Ok(Val::Nil),
            Expr::Literal(loc, lit) => {
                self.loc = loc;
                Ok(lit)
            },
            Expr::ObjectRef(obj) => {
                self.loc = obj.loc;
                self.eval_obj_ref(&obj)
            },
            Expr::Call(call) => {
                self.loc = call.obj.loc;
                self.eval_call(*call, depth - 1)
            },
            Expr::Slash(loc, a, b) => {
                let av = match self.eval(*a, depth - 1) {
                    Ok(v) => v,
                    Err(e) => {
                        return Err(e);
                    },
                };
                if !av.is_type(ValType::Ip4) {
                    return Err(Error::TypeError);
                }
                let bv = match self.eval(*b, depth - 1) {
                    Ok(v) => v,
                    Err(e) => {
                        return Err(e);
                    },
                };
                if !bv.is_integral() {
                    return Err(Error::TypeError);
                }
                self.loc = loc;
                Ok(Val::Sock4(Sock4 { ip: av.as_ip4(), port: bv.as_u16() }))
            },
        }
    }

    /// The nesting depth the evaluator allows; deeper expressions are
    /// rejected as runtime errors.
    pub fn max_depth() -> (r: u32)
        ensures
            r == 4096,
    {
        4096
    }

    /// Evaluate one expression: a literal is its value, `Nil` is
    /// `Nil`, the slash operator joins an address and a port into a
    /// socket address, references resolve, calls dispatch. The state
    /// it may touch is bounded by `eval_frame`.
    pub fn eval_expr(&mut self, expr: Expr) -> (r: Result<Val, Error>)
        ensures
            eval_frame(*old(self), *final(self)),
            (expr matches Expr::Nil ==> r matches Ok(v) && v matches Val::Nil),
            (expr matches Expr::Nil || expr matches Expr::Literal(_, _)) ==> *final(self) == (
            Program { loc: final(self).loc, ..*old(self) }),
            (expr matches Expr::Literal(l, v) ==> r == Ok::<Val, Error>(v) && final(self).loc
                == l),
            (expr matches Expr::ObjectRef(o) ==> ((o.modules@.len() > 0 ==> extern_ref_ok(
                old(self).imports@,
                o.modules@,
                o.components@,
                r,
            )) && (o.modules@.len() == 0 && o.components@.len() > 0 ==> local_ref_ok(
                old(self).regs@,
                o.components@,
                r,
            )) && (o.modules@.len() == 0 && o.components@.len() == 0 ==> r == Err::<Val, Error>(
                Error::NameError,
            )) && *final(self) == (Program { loc: o.loc, ..*old(self) }))),
            (expr matches Expr::Slash(_, _, _) ==> (r matches Ok(v) ==> v matches Val::Sock4(
                _,
            ))),
            (expr matches Expr::Slash(l, a, b) ==> (*a matches Expr::Literal(_, av) ==> (
            *b matches Expr::Literal(_, bv) ==> (if !(av matches Val::Ip4(_)) {
                (r matches Err(e) && e == Error::TypeError)
            } else if !bv.spec_is_integral() {
                (r matches Err(e) && e == Error::TypeError)
            } else {
                (r matches Ok(v) && v matches Val::Sock4(sa) && sa.ip == crate::val::ip4_of(av)
                    && sa.port == bv.spec_int_val() as u16)
            })))),
    {
        self.eval(expr, Program::max_depth())
    }

    pub fn add_stmts(&mut self, stmts: Vec<Stmt>) -> (r: Result<(), Error>)
        ensures
            stmts@.len() == 0 ==> r is Ok && *final(self) == *old(self),
    {
        let mut rest = stmts;
        while rest.len() > 0
            invariant
                stmts@.len() == 0 ==> rest@.len() == 0 && *self == *old(self),
            decreases rest@.len(),
        {
            let stmt = rest.remove(0);
            match self.add_stmt(stmt) {
                Ok(_) => {},
                Err(e) => {
                    return Err(e);
                },
            }
        }
        Ok(())
    }

    pub fn add_stmt(&mut self, stmt: Stmt) -> (r: Result<(), Error>) {
        match stmt {
            Stmt::Import(import) => self.add_import(import),
            Stmt::Assign(assign) => self.add_assign(assign),
            Stmt::Expr(expr) => self.add_expr(expr),
        }
    }

    /// Bind a top-level module; importing the same module twice is
    /// harmless, an unknown one is an error.
    pub fn add_import(&mut self, import: Import) -> (r: Result<(), Error>)
        ensures
            bound_spec(old(self).imports@, import.module@) ==> r is Ok && final(self).imports
                == old(self).imports,
            !bound_spec(old(self).imports@, import.module@)
                && crate::stdlib::toplevel_module_spec(import.module@) is None ==> (
            r matches Err(e) && e == Error::ImportError) && final(self).imports == old(self).imports,
            (crate::stdlib::toplevel_module_spec(import.module@) matches Some(m) ==> (
            !bound_spec(old(self).imports@, import.module@) ==> r is Ok
                && final(self).imports@.len() == old(self).imports@.len() + 1
                && final(self).imports@.last().0@ == import.module@
                && final(self).imports@.last().1 == m && final(self).imports@.subrange(
                0,
                old(self).imports@.len() as int,
            ) == old(self).imports@)),

            *final(self) == (Program {
                imports: final(self).imports,
                loc: import.loc,
                ..*old(self)
            }),
    {
        self.loc = import.loc;
        if self.find_import(import.module.as_str()).is_some() {
            return Ok(());
        }
        match toplevel_module(import.module.as_str()) {
            None => Err(Error::ImportError),
            Some(m) => {
                self.imports.push((import.module, m));
                Ok(())
            },
        }
    }

    /// Evaluate and bind a register; rebinding is an error, in which
    /// case the right-hand side is not evaluated and nothing changes.
    pub fn add_assign(&mut self, assign: Assign) -> (r: Result<(), Error>)
        ensures
            bound_spec(old(self).regs@, assign.target@) ==> (r matches Err(e) && e
                == Error::MultipleAssignError) && *final(self) == (Program {
                loc: assign.loc,
                ..*old(self)
            }),
            r is Ok ==> final(self).regs@.len() == old(self).regs@.len() + 1 && final(self).regs@.last().0@ == assign.target@ && (forall|i: int|
                0 <= i < old(self).regs@.len() ==> (#[trigger] final(self).regs@[i]).0@ == old(self).regs@[i].0@) && final(self).now == old(self).now && final(self).out == old(self).out && final(self).warnings == old(self).warnings && final(self).imports == old(self).imports,
            (assign.rvalue matches Expr::Literal(_, v) ==> (r is Ok ==> crate::val::val_eq(
                final(self).regs@.last().1,
                v,
            ))),
            r is Err ==> final(self).regs@.len() == old(self).regs@.len() && (forall|i: int|
                0 <= i < old(self).regs@.len() ==> (#[trigger] final(self).regs@[i]).0@ == old(self).regs@[i].0@) && final(self).out == old(self).out && final(self).now == old(self).now && final(self).warnings == old(self).warnings && final(self).imports == old(self).imports,
    {
        self.loc = assign.loc;
        if self.find_reg(assign.target.as_str()).is_some() {
            return Err(Error::MultipleAssignError);
        }
        let val = match self.eval_expr(assign.rvalue) {
            Ok(v) => v,
            Err(e) => {
                return Err(e);
            },
        };
        let ghost r0 = self.regs@;
        self.regs.push((assign.target, val));
        proof {
            assert(self.regs@.subrange(0, r0.len() as int) =~= r0);
        }
        Ok(())
    }

    /// Advance the simulated clock.
    pub fn update_time(&mut self, ns: u64)
        ensures
            final(self).now == ((old(self).now + ns) % 0x10000000000000000),
            *final(self) == (Program { now: final(self).now, ..*old(self) }),
    {
        self.now = self.now.wrapping_add(ns);
    }

    /// Dispose of an expression statement's value: packets advance the
    /// clock by their wire time and are emitted; a time jump advances
    /// the clock; `Nil` does nothing; anything else earns a warning.
    #[verifier::loop_isolation(false)]
    pub fn emit_val(&mut self, val: Val) -> (r: Result<(), Error>)
        ensures
            final(self).regs == old(self).regs,
            final(self).imports == old(self).imports,
            final(self).loc == old(self).loc,
            final(self).out@.len() >= old(self).out@.len(),
            (val matches Val::Nil ==> *final(self) == *old(self) && r is Ok),
            (val matches Val::TimeJump(ns) ==> r is Ok && *final(self) == (Program {
                now: ((old(self).now + ns) % 0x10000000000000000) as u64,
                ..*old(self)
            })),
            (val matches Val::Pkt(p) ==> ((p.content().len() + 24) * 8 <= u64::MAX && p.headroom
                <= p.buf@.len() ==> {
                &&& r is Ok
                &&& final(self).now == ((old(self).now + (p.content().len() + 24) * 8)
                    % 0x10000000000000000)
                &&& final(self).out@.len() == old(self).out@.len() + 1
                &&& final(self).out@.last().ts == final(self).now
                &&& final(self).out@.last().pkt == p
                &&& final(self).out@.subrange(0, old(self).out@.len() as int) == old(self).out@
            })),
            !(val matches Val::Nil || val matches Val::TimeJump(_) || val matches Val::Pkt(_)
                || val matches Val::PktGen(_)) ==> r is Ok && final(self).warnings@ == old(self).warnings@.push(old(self).loc) && *final(self) == (Program {
                warnings: final(self).warnings,
                ..*old(self)
            }),
            (val matches Val::PktGen(ps) ==> (burst_ok(ps@) ==> {
                &&& r is Ok
                &&& final(self).now == ((old(self).now + bit_time_sum(ps@))
                    % 0x10000000000000000)
                &&& final(self).out@.len() == old(self).out@.len() + ps@.len()
                &&& final(self).out@.subrange(0, old(self).out@.len() as int) == old(self).out@
                &&& (forall|i: int|
                    0 <= i < ps@.len() ==> (#[trigger] final(self).out@[old(self).out@.len() + i]).pkt
                        == ps@[i] && final(self).out@[old(self).out@.len() + i].ts
                        == final(self).now)
            })),
    {
        match val {
            Val::Nil => Ok(()),
            Val::TimeJump(ns) => {
                self.update_time(ns);
                Ok(())
            },
            Val::Pkt(p) => {
                if p.headroom > p.buf.len() {
                    return Err(Error::RuntimeError);
                }
                let len = p.len();
                if (len as u64) > u64::MAX / 8 - 24 {
                    return Err(Error::RuntimeError);
                }
                let bt = ((len as u64) + 24) * 8;
                self.update_time(bt);
                let ghost out0 = self.out@;
                let ts = self.now;
                self.out.push(OutputRecord { ts, pkt: p });
                proof {
                    assert(self.out@.subrange(0, out0.len() as int) =~= out0);
                }
                Ok(())
            },
            Val::PktGen(ps) => {
                // the clock advances for every packet; the burst is
                // then written with the final timestamp
                let ghost ps0 = ps@;
                let mut rest = ps;
                let mut i: usize = 0;
                proof {
                    assert(ps0.take(0) =~= Seq::<Packet>::empty());
                }
                while i < rest.len()
                    invariant
                        0 <= i <= rest@.len(),
                        rest@ == ps0,
                        self.now == ((old(self).now + bit_time_sum(ps0.take(i as int)))
                            % 0x10000000000000000),
                        *self == (Program { now: self.now, ..*old(self) }),
                    decreases rest@.len() - i,
                {
                    let p = &rest[i];
                    if p.headroom > p.buf.len() {
                        proof {
                            assert(!burst_ok(ps0));
                        }
                        return Err(Error::RuntimeError);
                    }
                    let len = p.len();
                    if (len as u64) > 0xffff_ffff {
                        proof {
                            assert(!burst_ok(ps0));
                        }
                        return Err(Error::RuntimeError);
                    }
                    let bt = ((len as u64) + 24) * 8;
                    proof {
                        let t = ps0.take(i + 1);
                        assert(t.take(i as int) =~= ps0.take(i as int));
                        lemma_bit_time_sum_take(ps0, i as int);
                        vstd::arithmetic::div_mod::lemma_add_mod_noop(
                            old(self).now + bit_time_sum(ps0.take(i as int)),
                            bt as int,
                            0x10000000000000000,
                        );
                        vstd::arithmetic::div_mod::lemma_mod_twice(
                            old(self).now + bit_time_sum(ps0.take(i as int)),
                            0x10000000000000000,
                        );
                    }
                    self.update_time(bt);
                    i += 1;
                }
                proof {
                    assert(ps0.take(i as int) =~= ps0);
                }
                let ghost out0 = self.out@;
                let ghost done = self.now;
                let mut j: usize = 0;
                while rest.len() > 0
                    invariant
                        rest@ == ps0.skip(j as int),
                        0 <= j <= ps0.len(),
                        self.now == done,
                        self.out@.len() == out0.len() + j,
                        self.out@.subrange(0, out0.len() as int) == out0,
                        *self == (Program { now: done, out: self.out, ..*old(self) }),
                        forall|k: int|
                            0 <= k < j ==> (#[trigger] self.out@[out0.len() + k]).pkt == ps0[k]
                                && self.out@[out0.len() + k].ts == done,
                    decreases rest@.len(),
                {
                    let p = rest.remove(0);
                    proof {
                        assert(ps0.skip(j as int)[0] == p);
                        assert(ps0.skip(j as int).skip(1) =~= ps0.skip(j + 1));
                    }
                    let ts = self.now;
                    let ghost outp = self.out@;
                    self.out.push(OutputRecord { ts, pkt: p });
                    proof {
                        assert(self.out@.subrange(0, out0.len() as int) =~= out0);
                    }
                    j += 1;
                }
                proof {
                    assert(ps0.skip(j as int) =~= Seq::<Packet>::empty());
                }
                Ok(())
            },
            _ => {
                self.warnings.push(self.loc);
                Ok(())
            },
        }
    }

    /// Evaluate an expression statement and dispose of its value per
    /// the disposal contract of `emit_val`: packets advance the clock
    /// and are emitted, time jumps advance the clock, `Nil` does
    /// nothing, anything else earns a warning. For a literal
    /// expression the whole effect is pinned here; for other
    /// expressions the value comes out of resolution or dispatch and
    /// `emit_val` governs its disposal.
    pub fn add_expr(&mut self, expr: Expr) -> (r: Result<(), Error>)
        ensures
            (expr matches Expr::Literal(l, v) ==> {
                &&& (v matches Val::Nil ==> r is Ok && *final(self) == (Program {
                    loc: l,
                    ..*old(self)
                }))
                &&& (v matches Val::TimeJump(ns) ==> r is Ok && *final(self) == (Program {
                    loc: l,
                    now: ((old(self).now + ns) % 0x10000000000000000) as u64,
                    ..*old(self)
                }))
                &&& (v matches Val::Pkt(p) ==> ((p.content().len() + 24) * 8 <= u64::MAX
                    && p.headroom <= p.buf@.len() ==> r is Ok && final(self).now == ((old(self).now + (p.content().len() + 24) * 8) % 0x10000000000000000) && final(self).out@.len() == old(self).out@.len() + 1 && final(self).out@.last().ts == final(self).now && final(self).out@.last().pkt == p && final(self).out@.subrange(
                    0,
                    old(self).out@.len() as int,
                ) == old(self).out@))
                &&& (v matches Val::PktGen(ps) ==> (burst_ok(ps@) ==> r is Ok && final(self).now
                    == ((old(self).now + bit_time_sum(ps@)) % 0x10000000000000000) && final(self).out@.len() == old(self).out@.len() + ps@.len() && final(self).out@.subrange(
                    0,
                    old(self).out@.len() as int,
                ) == old(self).out@))
                &&& (!(v matches Val::Nil || v matches Val::TimeJump(_) || v matches Val::Pkt(_)
                    || v matches Val::PktGen(_)) ==> r is Ok && final(self).warnings@.len() == old(self).warnings@.len() + 1 && final(self).out == old(self).out && final(self).now
                    == old(self).now)
            }),
            r is Ok ==> final(self).regs@.len() == old(self).regs@.len() && final(self).imports
                == old(self).imports,
            r is Err ==> final(self).out@.len() >= old(self).out@.len() && final(self).imports
                == old(self).imports,
    {
        let val = match self.eval_expr(expr) {
            Ok(v) => v,
            Err(e) => {
                return Err(e);
            },
        };
        self.emit_val(val)
    }

    /// The emitted output records, in order.
    pub fn output(&self) -> (r: &Vec<OutputRecord>)
        ensures
            r == self.out,
    {
        &self.out
    }

    /// The locations that earned a discarded-value warning.
    pub fn warning_locs(&self) -> (r: &Vec<Loc>)
        ensures
            r == self.warnings,
    {
        &self.warnings
    }
}

/// One more packet's time joins the sum.
proof fn lemma_bit_time_sum_take(ps: Seq<Packet>, i: int)
    requires
        0 <= i < ps.len(),
    ensures
        bit_time_sum(ps.take(i + 1)) == bit_time_sum(ps.take(i)) + (ps[i].content().len() + 24)
            * 8,
    decreases i,
{
    let t = ps.take(i + 1);
    if i == 0 {
        assert(t.skip(1) =~= Seq::<Packet>::empty());
        assert(ps.take(0) =~= Seq::<Packet>::empty());
        assert(t[0] == ps[0]);
    } else {
        lemma_bit_time_sum_take(ps.skip(1), i - 1);
        assert(t.skip(1) =~= ps.skip(1).take(i));
        assert(ps.take(i).skip(1) =~= ps.skip(1).take(i - 1));
        assert(t[0] == ps[0]);
        assert(ps.take(i)[0] == ps[0]);
        assert(ps.skip(1)[i - 1] == ps[i]);
    }
}

} // verus!
