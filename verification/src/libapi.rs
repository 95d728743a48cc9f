use vstd::prelude::*;
use crate::args::{vals_eq, ArgSpec, ArgVec, Args};
use crate::err::Error;
use crate::object::ObjRef;
use crate::sym::Symbol;
use crate::stdlib::FuncId;
use crate::val::{
    arg_compatible_spec, compatible_spec, val_eq, Val, ValDef, ValType,
};

verus! {

/// Compare two string slices by their characters.
pub fn str_eq(a: &str, b: &str) -> (r: bool)
    ensures
        r == (a@ == b@),
{
    let x: String = a.to_owned();
    let y: String = b.to_owned();
    x == y
}

/// How one declared argument binds: a mandatory positional of a given
/// type, or an optional with a default.
#[derive(Debug, Clone)]
pub enum ArgDecl {
    Positional(ValType),
    Optional(ValDef),
}

/// One declared argument: its name and binding.
#[derive(Debug, Clone)]
pub struct ArgDesc {
    pub name: &'static str,
    pub typ: ArgDecl,
}

/// A function of the standard library: its signature and the
/// identifier its body is dispatched through.
///
/// Invariant of every constructed definition: all positionals precede
/// all optionals, and `min_args` is the positional count.
#[derive(Debug)]
pub struct FuncDef {
    pub name: &'static str,
    pub return_type: ValType,
    pub args: Vec<ArgDesc>,
    pub min_args: usize,
    pub collect_type: ValType,
    pub body: FuncId,
}

/// A named symbol-table entry.
#[derive(Debug, Clone)]
pub struct SymDesc {
    pub name: &'static str,
    pub sym: Symbol,
}

/// A module: a named, immutable symbol table.
#[derive(Debug)]
pub struct Module {
    pub name: &'static str,
    pub symtab: Vec<SymDesc>,
}

/// A class: a named method table for one kind of flow object.
#[derive(Debug)]
pub struct ClassDef {
    pub name: &'static str,
    pub symtab: Vec<SymDesc>,
}

/// The first table entry with the given name.
pub open spec fn table_lookup(tab: Seq<SymDesc>, name: Seq<char>) -> Option<Symbol>
    decreases tab.len(),
{
    if tab.len() == 0 {
        None
    } else if tab[0].name@ == name {
        Some(tab[0].sym)
    } else {
        table_lookup(tab.skip(1), name)
    }
}

/// Search a symbol table front to back.
fn table_get(tab: &Vec<SymDesc>, name: &str) -> (r: Option<Symbol>)
    ensures
        match table_lookup(tab@, name@) {
            Some(sym) => (r matches Some(s) && crate::sym::sym_eq(s, sym)),
            None => r is None,
        },
{
    let mut i: usize = 0;
    proof {
        assert(tab@.skip(0) =~= tab@);
    }
    while i < tab.len()
        invariant
            0 <= i <= tab@.len(),
            table_lookup(tab@.skip(i as int), name@) == table_lookup(tab@, name@),
        decreases tab@.len() - i,
    {
        proof {
            assert(tab@.skip(i as int)[0] == tab@[i as int]);
            assert(tab@.skip(i as int).skip(1) =~= tab@.skip(i + 1));
        }
        if str_eq(tab[i].name, name) {
            let s = tab[i].sym.clone();
            return Some(s);
        }
        i += 1;
    }
    None
}

/// The first model entry with the given name.
pub open spec fn model_lookup(tab: Seq<(Seq<char>, crate::sym::SymKind)>, name: Seq<char>)
    -> Option<crate::sym::SymKind>
    decreases tab.len(),
{
    if tab.len() == 0 {
        None
    } else if tab[0].0 == name {
        Some(tab[0].1)
    } else {
        model_lookup(tab.skip(1), name)
    }
}

/// A lookup result agrees with a model lookup result.
pub open spec fn lookup_matches(
    s: Option<Symbol>,
    k: Option<crate::sym::SymKind>,
) -> bool {
    match s {
        Some(sym) => k == Some(crate::sym::kind_of(sym)),
        None => k is None,
    }
}

/// A table whose entries match a model entry for entry resolves every
/// name exactly as the model does.
pub proof fn lemma_table_model(tab: Seq<SymDesc>, model: Seq<(Seq<char>, crate::sym::SymKind)>)
    requires
        tab.len() == model.len(),
        forall|i: int|
            0 <= i < tab.len() ==> (#[trigger] tab[i]).name@ == model[i].0 && crate::sym::kind_of(
                tab[i].sym,
            ) == model[i].1,
    ensures
        forall|n: Seq<char>|
            lookup_matches(#[trigger] table_lookup(tab, n), model_lookup(model, n)),
    decreases tab.len(),
{
    if tab.len() > 0 {
        assert forall|i: int|
            0 <= i < tab.skip(1).len() implies (#[trigger] tab.skip(1)[i]).name@ == model.skip(
            1,
        )[i].0 && crate::sym::kind_of(tab.skip(1)[i].sym) == model.skip(1)[i].1 by {
            assert(tab.skip(1)[i] == tab[i + 1]);
            assert(model.skip(1)[i] == model[i + 1]);
        }
        lemma_table_model(tab.skip(1), model.skip(1));
        assert forall|n: Seq<char>|
            lookup_matches(#[trigger] table_lookup(tab, n), model_lookup(model, n)) by {
            if tab[0].name@ == n {
            } else {
                assert(lookup_matches(table_lookup(tab.skip(1), n), model_lookup(model.skip(1), n)));
            }
        }
    }
}

impl Module {
    pub fn get(&self, name: &str) -> (r: Option<Symbol>)
        ensures
            match table_lookup(self.symtab@, name@) {
                Some(sym) => (r matches Some(s) && crate::sym::sym_eq(s, sym)),
                None => r is None,
            },
    {
        table_get(&self.symtab, name)
    }
}

impl ClassDef {
    pub fn get(&self, name: &str) -> (r: Option<Symbol>)
        ensures
            match table_lookup(self.symtab@, name@) {
                Some(sym) => (r matches Some(s) && crate::sym::sym_eq(s, sym)),
                None => r is None,
            },
    {
        table_get(&self.symtab, name)
    }
}

// ---------------------------------------------------------------------------
// Argument binding.
//
// Rules:
//   P-FIRST            positional arguments must be supplied first
//   P-NAME-OPTIONAL    positionals may be named or not
//   ANON-FIRST         once one argument is named, every later
//                      positional or optional must be named
//   COLLECT-NAME-OPTS  with a variadic tail, optionals must be named
//   NOCOLLECT-ANON-OPTS without one, optionals may be anonymous
//   COLLECT-AFTER-NAMED variadic arguments come after the last named
//                      argument
// ---------------------------------------------------------------------------
/// The classifier's state: consuming positionals, consuming named
/// arguments, or collecting the variadic tail.
#[derive(Debug, Copy, Clone, PartialEq, Eq, Structural)]
pub enum Phase {
    Anon,
    Named,
    CollectOnly,
}

pub open spec fn phase_rank(ph: Phase) -> int {
    match ph {
        Phase::Anon => 2,
        Phase::Named => 1,
        Phase::CollectOnly => 0,
    }
}

/// The index of the declared argument with the given name.
pub open spec fn param_index_spec(descs: Seq<ArgDesc>, name: Seq<char>) -> Option<int>
    decreases descs.len(),
{
    if descs.len() == 0 {
        None
    } else if descs[0].name@ == name {
        Some(0)
    } else {
        match param_index_spec(descs.skip(1), name) {
            Some(i) => Some(i + 1),
            None => None,
        }
    }
}

/// A found parameter index lies within the declaration list.
pub proof fn lemma_param_index_bound(descs: Seq<ArgDesc>, name: Seq<char>)
    ensures
        (param_index_spec(descs, name) matches Some(k) ==> 0 <= k < descs.len()),
    decreases descs.len(),
{
    if descs.len() > 0 && descs[0].name@ != name {
        lemma_param_index_bound(descs.skip(1), name);
    }
}

pub open spec fn named_contains(named: Seq<(Seq<char>, Val)>, k: Seq<char>) -> bool
    decreases named.len(),
{
    if named.len() == 0 {
        false
    } else {
        named[0].0 == k || named_contains(named.skip(1), k)
    }
}

pub open spec fn named_get(named: Seq<(Seq<char>, Val)>, k: Seq<char>) -> Val
    decreases named.len(),
{
    if named.len() == 0 {
        Val::Nil
    } else if named[0].0 == k {
        named[0].1
    } else {
        named_get(named.skip(1), k)
    }
}

/// The characters-and-value view of the collected named arguments.
pub open spec fn named_view(v: Seq<(String, Val)>) -> Seq<(Seq<char>, Val)> {
    Seq::new(v.len(), |i: int| (v[i].0@, v[i].1))
}

/// The three-phase walk that splits supplied arguments into filled
/// positional slots, named arguments, and the variadic tail. `None`
/// is a binding error.
pub open spec fn split_rec(
    descs: Seq<ArgDesc>,
    min_args: int,
    is_collect: bool,
    args: Seq<ArgSpec>,
    i: int,
    pos: Seq<Val>,
    named: Seq<(Seq<char>, Val)>,
    extra: Seq<Val>,
    ph: Phase,
) -> Option<(Seq<Val>, Seq<(Seq<char>, Val)>, Seq<Val>)>
    decreases args.len() - i, phase_rank(ph),
{
    if i < 0 || i >= args.len() {
        Some((pos, named, extra))
    } else {
        let a = args[i];
        match ph {
            Phase::Anon => {
                if !a.spec_is_anon() {
                    split_rec(descs, min_args, is_collect, args, i, pos, named, extra, Phase::Named)
                } else if is_collect && pos.len() >= min_args {
                    split_rec(
                        descs,
                        min_args,
                        is_collect,
                        args,
                        i,
                        pos,
                        named,
                        extra,
                        Phase::CollectOnly,
                    )
                } else if pos.len() >= descs.len() {
                    if is_collect {
                        split_rec(
                            descs,
                            min_args,
                            is_collect,
                            args,
                            i,
                            pos,
                            named,
                            extra,
                            Phase::CollectOnly,
                        )
                    } else {
                        None
                    }
                } else {
                    split_rec(
                        descs,
                        min_args,
                        is_collect,
                        args,
                        i + 1,
                        pos.push(a.val),
                        named,
                        extra,
                        Phase::Anon,
                    )
                }
            },
            Phase::Named => {
                if a.spec_is_anon() {
                    split_rec(
                        descs,
                        min_args,
                        is_collect,
                        args,
                        i,
                        pos,
                        named,
                        extra,
                        Phase::CollectOnly,
                    )
                } else {
                    let n = a.name.unwrap()@;
                    match param_index_spec(descs, n) {
                        None => None,
                        Some(idx) => if idx < pos.len() {
                            None
                        } else if named_contains(named, n) {
                            None
                        } else {
                            split_rec(
                                descs,
                                min_args,
                                is_collect,
                                args,
                                i + 1,
                                pos,
                                named.push((n, a.val)),
                                extra,
                                Phase::Named,
                            )
                        },
                    }
                }
            },
            Phase::CollectOnly => {
                if !is_collect {
                    None
                } else if !a.spec_is_anon() {
                    None
                } else {
                    split_rec(
                        descs,
                        min_args,
                        is_collect,
                        args,
                        i + 1,
                        pos,
                        named,
                        extra.push(a.val),
                        Phase::CollectOnly,
                    )
                }
            },
        }
    }
}

/// A named argument that resolves badly refuses the whole binding.
pub proof fn lemma_split_named_none(
    descs: Seq<ArgDesc>,
    min_args: int,
    is_collect: bool,
    args: Seq<ArgSpec>,
    i: int,
    pos: Seq<Val>,
    named: Seq<(Seq<char>, Val)>,
    extra: Seq<Val>,
)
    requires
        0 <= i < args.len(),
        !args[i].spec_is_anon(),
        (match param_index_spec(descs, args[i].name.unwrap()@) {
            Some(k) => k < pos.len() || named_contains(named, args[i].name.unwrap()@),
            None => true,
        }),
    ensures
        split_rec(descs, min_args, is_collect, args, i, pos, named, extra, Phase::Named) is None,
{
}

/// A classification that begins within the declared arity stays there.
pub proof fn lemma_split_pos_bound(
    descs: Seq<ArgDesc>,
    min_args: int,
    is_collect: bool,
    args: Seq<ArgSpec>,
    i: int,
    pos: Seq<Val>,
    named: Seq<(Seq<char>, Val)>,
    extra: Seq<Val>,
    ph: Phase,
)
    requires
        pos.len() <= descs.len(),
    ensures
        (split_rec(descs, min_args, is_collect, args, i, pos, named, extra, ph) matches Some(t)
            ==> t.0.len() <= descs.len()),
    decreases args.len() - i, phase_rank(ph),
{
    if i < 0 || i >= args.len() {
    } else {
        let a = args[i];
        match ph {
            Phase::Anon => {
                if !a.spec_is_anon() {
                    lemma_split_pos_bound(
                        descs,
                        min_args,
                        is_collect,
                        args,
                        i,
                        pos,
                        named,
                        extra,
                        Phase::Named,
                    );
                } else if is_collect && pos.len() >= min_args {
                    lemma_split_pos_bound(
                        descs,
                        min_args,
                        is_collect,
                        args,
                        i,
                        pos,
                        named,
                        extra,
                        Phase::CollectOnly,
                    );
                } else if pos.len() >= descs.len() {
                    if is_collect {
                        lemma_split_pos_bound(
                            descs,
                            min_args,
                            is_collect,
                            args,
                            i,
                            pos,
                            named,
                            extra,
                            Phase::CollectOnly,
                        );
                    }
                } else {
                    lemma_split_pos_bound(
                        descs,
                        min_args,
                        is_collect,
                        args,
                        i + 1,
                        pos.push(a.val),
                        named,
                        extra,
                        Phase::Anon,
                    );
                }
            },
            Phase::Named => {
                if a.spec_is_anon() {
                    lemma_split_pos_bound(
                        descs,
                        min_args,
                        is_collect,
                        args,
                        i,
                        pos,
                        named,
                        extra,
                        Phase::CollectOnly,
                    );
                } else {
                    let n = a.name.unwrap()@;
                    match param_index_spec(descs, n) {
                        None => {},
                        Some(idx) => {
                            if idx < pos.len() {
                            } else if named_contains(named, n) {
                            } else {
                                lemma_split_pos_bound(
                                    descs,
                                    min_args,
                                    is_collect,
                                    args,
                                    i + 1,
                                    pos,
                                    named.push((n, a.val)),
                                    extra,
                                    Phase::Named,
                                );
                            }
                        },
                    }
                }
            },
            Phase::CollectOnly => {
                if !is_collect {
                } else if !a.spec_is_anon() {
                } else {
                    lemma_split_pos_bound(
                        descs,
                        min_args,
                        is_collect,
                        args,
                        i + 1,
                        pos,
                        named,
                        extra.push(a.val),
                        Phase::CollectOnly,
                    );
                }
            },
        }
    }
}

/// Fill the remaining declared slots from the named arguments and the
/// defaults; an unfilled positional is a binding error.
pub open spec fn bind_rec(
    descs: Seq<ArgDesc>,
    k: int,
    named: Seq<(Seq<char>, Val)>,
    acc: Seq<Val>,
) -> Option<Seq<Val>>
    decreases descs.len() - k,
{
    if k < 0 || k >= descs.len() {
        Some(acc)
    } else {
        let d = descs[k];
        if named_contains(named, d.name@) {
            bind_rec(descs, k + 1, named, acc.push(named_get(named, d.name@)))
        } else {
            match d.typ {
                ArgDecl::Optional(dfl) => bind_rec(descs, k + 1, named, acc.push(dfl.spec_to_val())),
                ArgDecl::Positional(_) => None,
            }
        }
    }
}

/// Every bound value is compatible with its declaration, and every
/// variadic value with the collect type.
pub open spec fn typecheck_spec(
    descs: Seq<ArgDesc>,
    vals: Seq<Val>,
    collect_type: ValType,
    extra: Seq<Val>,
) -> bool {
    &&& (forall|i: int|
        0 <= i < descs.len() ==> match (#[trigger] descs[i]).typ {
            ArgDecl::Positional(t) => compatible_spec(t, vals[i]),
            ArgDecl::Optional(d) => arg_compatible_spec(d, vals[i]),
        })
    &&& (forall|i: int| 0 <= i < extra.len() ==> compatible_spec(collect_type, #[trigger] extra[i]))
}

/// What binding a call's arguments yields: the declared slots in
/// order and the variadic tail, or a binding error.
pub open spec fn argvec_spec(f: &FuncDef, args: Seq<ArgSpec>) -> Option<(Seq<Val>, Seq<Val>)> {
    let is_collect = f.collect_type != ValType::Void;
    match split_rec(
        f.args@,
        f.min_args as int,
        is_collect,
        args,
        0,
        Seq::empty(),
        Seq::empty(),
        Seq::empty(),
        Phase::Anon,
    ) {
        None => None,
        Some((pos, named, extra)) => if pos.len() + named.len() < f.min_args {
            None
        } else {
            match bind_rec(f.args@, pos.len() as int, named, pos) {
                None => None,
                Some(vals) => if typecheck_spec(f.args@, vals, f.collect_type, extra) && (
                is_collect || extra.len() == 0) {
                    Some((vals, extra))
                } else {
                    None
                },
            }
        },
    }
}

impl FuncDef {
    pub open spec fn spec_is_collect(&self) -> bool {
        self.collect_type != ValType::Void
    }

    pub fn is_collect(&self) -> (r: bool)
        ensures
            r == self.spec_is_collect(),
    {
        self.collect_type != ValType::Void
    }

    /// The index of the declared argument with the given name.
    pub fn param_index(&self, name: &str) -> (r: Option<usize>)
        ensures
            match param_index_spec(self.args@, name@) {
                Some(i) => r == Some(i as usize),
                None => r is None,
            },
    {
        let mut i: usize = 0;
        proof {
            assert(self.args@.skip(0) =~= self.args@);
        }
        while i < self.args.len()
            invariant
                0 <= i <= self.args@.len(),
                param_index_spec(self.args@.skip(i as int), name@) matches Some(k) ==>
                    param_index_spec(self.args@, name@) == Some(k + i),
                param_index_spec(self.args@.skip(i as int), name@) is None ==> param_index_spec(
                    self.args@,
                    name@,
                ) is None,
            decreases self.args@.len() - i,
        {
            proof {
                assert(self.args@.skip(i as int)[0] == self.args@[i as int]);
                assert(self.args@.skip(i as int).skip(1) =~= self.args@.skip(i + 1));
            }
            if str_eq(self.args[i].name, name) {
                return Some(i);
            }
            i += 1;
        }
        None
    }

    /// Split the supplied arguments by the three-phase walk.
    #[verifier::loop_isolation(false)]
    fn split_args(&self, args: Vec<ArgSpec>) -> (r: Result<
        (Vec<Val>, Vec<(String, Val)>, Vec<Val>),
        Error,
    >)
        ensures
            match split_rec(
                self.args@,
                self.min_args as int,
                self.spec_is_collect(),
                args@,
                0,
                Seq::empty(),
                Seq::empty(),
                Seq::empty(),
                Phase::Anon,
            ) {
                Some(t) => (r matches Ok(p) && p.0@ == t.0 && named_view(p.1@) == t.1 && p.2@
                    == t.2),
                None => (r matches Err(e) && e == Error::TypeError),
            },
    {
        let ghost args0 = args@;
        let ghost goal = split_rec(
            self.args@,
            self.min_args as int,
            self.spec_is_collect(),
            args0,
            0,
            Seq::empty(),
            Seq::empty(),
            Seq::empty(),
            Phase::Anon,
        );
        let mut rest = args;
        let mut pos: Vec<Val> = Vec::new();
        let mut named: Vec<(String, Val)> = Vec::new();
        let mut extra: Vec<Val> = Vec::new();
        let mut phase = Phase::Anon;
        let is_collect = self.is_collect();
        let ghost mut i: int = 0;
        proof {
            assert(args0.skip(0) =~= args0);
            assert(pos@ =~= Seq::<Val>::empty());
            assert(named_view(named@) =~= Seq::<(Seq<char>, Val)>::empty());
            assert(extra@ =~= Seq::<Val>::empty());
        }
        while rest.len() > 0
            invariant
                0 <= i <= args0.len(),
                rest@ == args0.skip(i),
                is_collect == self.spec_is_collect(),
                goal == split_rec(
                    self.args@,
                    self.min_args as int,
                    self.spec_is_collect(),
                    args0,
                    i,
                    pos@,
                    named_view(named@),
                    extra@,
                    phase,
                ),
            decreases rest@.len(),
    {
        let a = rest.remove(0);
        proof {
            assert(args0.skip(i)[0] == a);
            assert(rest@ =~= args0.skip(i + 1));
        }
        let arg_is_named = a.is_named();
        // settle the phase for this argument without consuming it
        let mut settling = true;
        let mut reject = false;
        while settling
            invariant
                0 <= i < args0.len(),
                args0[i] == a,
                arg_is_named == !a.spec_is_anon(),
                is_collect == self.spec_is_collect(),
                !reject ==> goal == split_rec(
                    self.args@,
                    self.min_args as int,
                    self.spec_is_collect(),
                    args0,
                    i,
                    pos@,
                    named_view(named@),
                    extra@,
                    phase,
                ),
                reject ==> goal is None,
                reject ==> !settling,
                settling ==> phase_rank(phase) >= 0,
                (!settling && !reject) ==> (match phase {
                    Phase::Anon => !arg_is_named && !(is_collect && pos@.len()
                        >= self.min_args) && pos@.len() < self.args@.len(),
                    Phase::Named => arg_is_named,
                    Phase::CollectOnly => true,
                }),
            decreases phase_rank(phase), if settling { 1int } else { 0int },
        {
            match phase {
                Phase::Anon => {
                    if arg_is_named {
                        phase = Phase::Named;
                    } else if is_collect && pos.len() >= self.min_args {
                        phase = Phase::CollectOnly;
                    } else if pos.len() >= self.args.len() {
                        if is_collect {
                            phase = Phase::CollectOnly;
                        } else {
                            reject = true;
                            settling = false;
                        }
                    } else {
                        settling = false;
                    }
                },
                Phase::Named => {
                    if !arg_is_named {
                        phase = Phase::CollectOnly;
                    } else {
                        settling = false;
                    }
                },
                Phase::CollectOnly => {
                    settling = false;
                },
            }
        }
        if reject {
            return Err(Error::TypeError);
        }
        // consume the argument in its settled phase
        match phase {
            Phase::Anon => {
                let ghost pos0 = pos@;
                pos.push(a.val);
                proof {
                    assert(pos@ =~= pos0.push(args0[i].val));
                    assert(split_rec(
                        self.args@,
                        self.min_args as int,
                        self.spec_is_collect(),
                        args0,
                        i,
                        pos0,
                        named_view(named@),
                        extra@,
                        Phase::Anon,
                    ) == split_rec(
                        self.args@,
                        self.min_args as int,
                        self.spec_is_collect(),
                        args0,
                        i + 1,
                        pos@,
                        named_view(named@),
                        extra@,
                        Phase::Anon,
                    ));
                }
            },
            Phase::Named => {
                let name = match a.name {
                    Some(n) => n,
                    None => {
                        return Err(Error::TypeError);
                    },
                };
                proof {
                    assert(name@ == args0[i].name.unwrap()@);
                    lemma_param_index_bound(self.args@, args0[i].name.unwrap()@);
                }
                let n_descs = self.args.len();
                let idx = match self.param_index(name.as_str()) {
                    Some(idx) => idx,
                    None => {
                        proof {
                            lemma_split_named_none(
                                self.args@,
                                self.min_args as int,
                                self.spec_is_collect(),
                                args0,
                                i,
                                pos@,
                                named_view(named@),
                                extra@,
                            );
                        }
                        return Err(Error::TypeError);
                    },
                };
                if idx < pos.len() {
                    proof {
                        lemma_split_named_none(
                            self.args@,
                            self.min_args as int,
                            self.spec_is_collect(),
                            args0,
                            i,
                            pos@,
                            named_view(named@),
                            extra@,
                        );
                    }
                    return Err(Error::TypeError);
                }
                if named_vec_contains(&named, name.as_str()) {
                    proof {
                        lemma_split_named_none(
                            self.args@,
                            self.min_args as int,
                            self.spec_is_collect(),
                            args0,
                            i,
                            pos@,
                            named_view(named@),
                            extra@,
                        );
                    }
                    return Err(Error::TypeError);
                }
                let ghost named0 = named@;
                named.push((name, a.val));
                proof {
                    assert(named_view(named@) =~= named_view(named0).push(
                        (args0[i].name.unwrap()@, args0[i].val),
                    ));
                    assert(split_rec(
                        self.args@,
                        self.min_args as int,
                        self.spec_is_collect(),
                        args0,
                        i,
                        pos@,
                        named_view(named0),
                        extra@,
                        Phase::Named,
                    ) == split_rec(
                        self.args@,
                        self.min_args as int,
                        self.spec_is_collect(),
                        args0,
                        i + 1,
                        pos@,
                        named_view(named@),
                        extra@,
                        Phase::Named,
                    ));
                }
            },
            Phase::CollectOnly => {
                if !is_collect {
                    proof {
                        assert(split_rec(
                            self.args@,
                            self.min_args as int,
                            self.spec_is_collect(),
                            args0,
                            i,
                            pos@,
                            named_view(named@),
                            extra@,
                            Phase::CollectOnly,
                        ) is None);
                    }
                    return Err(Error::TypeError);
                }
                if arg_is_named {
                    proof {
                        assert(split_rec(
                            self.args@,
                            self.min_args as int,
                            self.spec_is_collect(),
                            args0,
                            i,
                            pos@,
                            named_view(named@),
                            extra@,
                            Phase::CollectOnly,
                        ) is None);
                    }
                    return Err(Error::TypeError);
                }
                let ghost extra0 = extra@;
                extra.push(a.val);
                proof {
                    assert(extra@ =~= extra0.push(args0[i].val));
                    assert(split_rec(
                        self.args@,
                        self.min_args as int,
                        self.spec_is_collect(),
                        args0,
                        i,
                        pos@,
                        named_view(named@),
                        extra0,
                        Phase::CollectOnly,
                    ) == split_rec(
                        self.args@,
                        self.min_args as int,
                        self.spec_is_collect(),
                        args0,
                        i + 1,
                        pos@,
                        named_view(named@),
                        extra@,
                        Phase::CollectOnly,
                    ));
                }
            },
        }
        proof {
            i = i + 1;
        }
    }
        proof {
            assert(args0.skip(i) =~= Seq::<ArgSpec>::empty());
        }
        Ok((pos, named, extra))
    }

    /// Bind the supplied arguments to this signature, yielding the
    /// declared slots (defaults filled in) and the variadic tail.
    #[verifier::loop_isolation(false)]
    pub fn argvec(&self, this: Option<ObjRef>, args: Vec<ArgSpec>) -> (r: Result<ArgVec, Error>)
        ensures
            match argvec_spec(self, args@) {
                Some(t) => (r matches Ok(av) && vals_eq(av.args@, t.0) && vals_eq(av.extra@, t.1)
                    && av.this == this),
                None => (r matches Err(e) && e == Error::TypeError),
            },
    {
        let ghost argseq = args@;
        let ghost spec_split = split_rec(
            self.args@,
            self.min_args as int,
            self.spec_is_collect(),
            args@,
            0,
            Seq::empty(),
            Seq::empty(),
            Seq::empty(),
            Phase::Anon,
        );
        let (pos, named, extra) = match self.split_args(args) {
            Ok(t) => t,
            Err(_) => {
                proof {
                    assert(argvec_spec(self, argseq) is None);
                }
                return Err(Error::TypeError);
            },
        };
        let under_min = if pos.len() >= self.min_args {
            false
        } else {
            named.len() < self.min_args - pos.len()
        };
        if under_min {
            proof {
                assert(pos@.len() + named_view(named@).len() < self.min_args);
                assert(argvec_spec(self, argseq) is None);
            }
            return Err(Error::TypeError);
        }
        let ghost named_v = named_view(named@);
        let ghost pos0 = pos@;
        proof {
            assert(spec_split matches Some(t) && pos0 == t.0 && named_v == t.1 && extra@ == t.2);
            lemma_split_pos_bound(
                self.args@,
                self.min_args as int,
                self.spec_is_collect(),
                argseq,
                0,
                Seq::empty(),
                Seq::empty(),
                Seq::empty(),
                Phase::Anon,
            );
        }
        let pos_len = pos.len();
        let mut vals = pos;
        let ghost mut vspec = pos0;
        let mut k = pos_len;
        proof {
            assert(vals_eq(vals@, vspec));
        }
        // fill the remaining declared slots by name or default
        while k < self.args.len()
            invariant
                pos_len <= k <= self.args@.len(),
                vals@.len() == k,
                vspec.len() == k,
                vals_eq(vals@, vspec),
                named_v == named_view(named@),
                bind_rec(self.args@, pos_len as int, named_v, pos0) == bind_rec(
                    self.args@,
                    k as int,
                    named_v,
                    vspec,
                ),
            decreases self.args@.len() - k,
        {
            let d = &self.args[k];
            if named_vec_contains(&named, d.name) {
                let v = named_vec_get(&named, d.name);
                let ghost vs0 = vspec;
                vals.push(v);
                proof {
                    vspec = vs0.push(named_get(named_v, self.args@[k as int].name@));
                }
            } else {
                match &d.typ {
                    ArgDecl::Optional(dfl) => {
                        let v = dfl.to_val();
                        let ghost vs0 = vspec;
                        vals.push(v);
                        proof {
                            vspec = vs0.push((self.args@[k as int].typ)->Optional_0.spec_to_val());
                        }
                    },
                    ArgDecl::Positional(_) => {
                        proof {
                            assert(bind_rec(self.args@, k as int, named_v, vspec) is None);
                            assert(bind_rec(self.args@, pos_len as int, named_v, pos0) is None);
                            assert(spec_split == Some((pos0, named_v, extra@)));
                            assert(pos0.len() == pos_len);
                            assert(pos0.len() + named_v.len() >= self.min_args);
                            assert(argvec_spec(self, argseq) is None);
                        }
                        return Err(Error::TypeError);
                    },
                }
            }
            k += 1;
        }
        proof {
            assert(bind_rec(self.args@, k as int, named_v, vspec) == Some(vspec));
        }
        // final type check of the declared slots
        let mut j: usize = 0;
        while j < self.args.len()
            invariant
                0 <= j <= self.args@.len(),
                vals@.len() == self.args@.len(),
                vals@.len() == vspec.len(),
                vals_eq(vals@, vspec),
                forall|m: int|
                    0 <= m < j ==> match (#[trigger] self.args@[m]).typ {
                        ArgDecl::Positional(t) => compatible_spec(t, vspec[m]),
                        ArgDecl::Optional(dd) => arg_compatible_spec(dd, vspec[m]),
                    },
            decreases self.args@.len() - j,
        {
            let ok = match &self.args[j].typ {
                ArgDecl::Positional(t) => t.compatible_with(&vals[j]),
                ArgDecl::Optional(dfl) => dfl.arg_compatible(&vals[j]),
            };
            proof {
                match self.args@[j as int].typ {
                    ArgDecl::Positional(t) => crate::val::lemma_compat_val_eq(
                        t,
                        vals@[j as int],
                        vspec[j as int],
                    ),
                    ArgDecl::Optional(dd) => crate::val::lemma_arg_compat_val_eq(
                        dd,
                        vals@[j as int],
                        vspec[j as int],
                    ),
                }
            }
            if !ok {
                proof {
                    assert(!typecheck_spec(self.args@, vspec, self.collect_type, extra@));
                    assert(argvec_spec(self, argseq) is None);
                }
                return Err(Error::TypeError);
            }
            j += 1;
        }
        // type check of the variadic tail
        if !self.is_collect() && extra.len() > 0 {
            proof {
                assert(argvec_spec(self, argseq) is None);
            }
            return Err(Error::TypeError);
        }
        let mut j2: usize = 0;
        while j2 < extra.len()
            invariant
                0 <= j2 <= extra@.len(),
                forall|m: int|
                    0 <= m < j2 ==> compatible_spec(self.collect_type, #[trigger] extra@[m]),
            decreases extra@.len() - j2,
        {
            let ok = self.collect_type.compatible_with(&extra[j2]);
            if !ok {
                proof {
                    assert(!typecheck_spec(self.args@, vspec, self.collect_type, extra@));
                    assert(argvec_spec(self, argseq) is None);
                }
                return Err(Error::TypeError);
            }
            j2 += 1;
        }
        proof {
            assert(typecheck_spec(self.args@, vspec, self.collect_type, extra@)) by {
                assert(forall|m: int|
                    0 <= m < extra@.len() ==> compatible_spec(
                        self.collect_type,
                        #[trigger] extra@[m],
                    ));
            }
            assert(argvec_spec(self, argseq) == Some((vspec, extra@)));
            assert(vals_eq(extra@, extra@)) by {
                assert(forall|m: int|
                    0 <= m < extra@.len() ==> crate::val::val_eq(
                        #[trigger] extra@[m],
                        extra@[m],
                    )) by {
                    assert forall|m: int| 0 <= m < extra@.len() implies crate::val::val_eq(
                        #[trigger] extra@[m],
                        extra@[m],
                    ) by {
                        crate::val::lemma_val_eq_refl(extra@[m]);
                    }
                }
            }
        }
        Ok(ArgVec { this, args: vals, extra })
    }

    /// Bind and hand over as a consumable argument cursor.
    pub fn args(&self, this: Option<ObjRef>, args: Vec<ArgSpec>) -> (r: Result<Args, Error>)
        ensures
            match argvec_spec(self, args@) {
                Some(t) => (r matches Ok(av) && vals_eq(av.args@, t.0) && vals_eq(av.extra@, t.1)
                    && av.this == this && av.cursor == 0),
                None => (r matches Err(e) && e == Error::TypeError),
            },
    {
        match self.argvec(this, args) {
            Ok(av) => Ok(av.into_args()),
            Err(e) => Err(e),
        }
    }
}

/// The first value collected under a name.
fn named_vec_get(named: &Vec<(String, Val)>, name: &str) -> (r: Val)
    ensures
        named_contains(named_view(named@), name@) ==> val_eq(r, named_get(named_view(named@), name@)),
{
    let mut i: usize = 0;
    proof {
        assert(named_view(named@).skip(0) =~= named_view(named@));
    }
    while i < named.len()
        invariant
            0 <= i <= named@.len(),
            named_contains(named_view(named@).skip(i as int), name@) == named_contains(
                named_view(named@),
                name@,
            ),
            named_contains(named_view(named@), name@) ==> named_get(
                named_view(named@).skip(i as int),
                name@,
            ) == named_get(named_view(named@), name@),
        decreases named@.len() - i,
    {
        proof {
            assert(named_view(named@).skip(i as int)[0] == named_view(named@)[i as int]);
            assert(named_view(named@).skip(i as int).skip(1) =~= named_view(named@).skip(i + 1));
        }
        if str_eq(named[i].0.as_str(), name) {
            let v = &named[i].1;
            return v.clone();
        }
        i += 1;
    }
    Val::Nil
}

/// Whether the collected named arguments contain a name.
fn named_vec_contains(named: &Vec<(String, Val)>, name: &str) -> (r: bool)
    ensures
        r == named_contains(named_view(named@), name@),
{
    let mut i: usize = 0;
    proof {
        assert(named_view(named@).skip(0) =~= named_view(named@));
    }
    while i < named.len()
        invariant
            0 <= i <= named@.len(),
            named_contains(named_view(named@).skip(i as int), name@) == named_contains(
                named_view(named@),
                name@,
            ),
        decreases named@.len() - i,
    {
        proof {
            assert(named_view(named@).skip(i as int)[0] == named_view(named@)[i as int]);
            assert(named_view(named@).skip(i as int).skip(1) =~= named_view(named@).skip(i + 1));
        }
        if str_eq(named[i].0.as_str(), name) {
            return true;
        }
        i += 1;
    }
    false
}

} // verus!
