use vstd::prelude::*;
use crate::object::{obj_eq_spec, ObjRef};
use crate::strbuf::Buf;
use crate::val::{val_eq, Val};
use crate::pkt::Ip4Addr;

verus! {

/// One supplied argument: optionally named, with its value.
#[derive(Debug, Clone)]
pub struct ArgSpec {
    pub name: Option<String>,
    pub val: Val,
}

impl ArgSpec {
    pub fn new(name: Option<String>, val: Val) -> (r: ArgSpec)
        ensures
            r.name == name,
            r.val == val,
    {
        ArgSpec { name, val }
    }

    /// An anonymous argument.
    pub fn anon(val: Val) -> (r: ArgSpec)
        ensures
            r.name is None,
            r.val == val,
    {
        ArgSpec { name: None, val }
    }

    /// A named argument.
    pub fn named(name: &str, val: Val) -> (r: ArgSpec)
        ensures
            (r.name matches Some(n) && n@ == name@),
            r.val == val,
    {
        ArgSpec { name: Some(name.to_owned()), val }
    }

    pub open spec fn spec_is_anon(&self) -> bool {
        self.name is None
    }

    pub fn is_anon(&self) -> (r: bool)
        ensures
            r == self.spec_is_anon(),
    {
        self.name.is_none()
    }

    pub fn is_named(&self) -> (r: bool)
        ensures
            r == !self.spec_is_anon(),
    {
        self.name.is_some()
    }
}

/// Pointwise value-list equality up to contents.
pub open spec fn vals_eq(a: Seq<Val>, b: Seq<Val>) -> bool {
    a.len() == b.len() && (forall|i: int| 0 <= i < a.len() ==> val_eq(#[trigger] a[i], b[i]))
}

/// Compare two value lists element by element.
pub fn val_vec_eq(a: &Vec<Val>, b: &Vec<Val>) -> (r: bool)
    ensures
        r == vals_eq(a@, b@),
{
    if a.len() != b.len() {
        return false;
    }
    let mut i: usize = 0;
    while i < a.len()
        invariant
            0 <= i <= a@.len(),
            a@.len() == b@.len(),
            forall|j: int| 0 <= j < i ==> val_eq(#[trigger] a@[j], b@[j]),
        decreases a@.len() - i,
    {
        let same = a[i] == b[i];
        if !same {
            return false;
        }
        i += 1;
    }
    true
}

/// The bound arguments of one call: the receiver, the positional and
/// optional values in declaration order, and the variadic tail.
#[derive(Debug)]
pub struct ArgVec {
    pub this: Option<ObjRef>,
    pub args: Vec<Val>,
    pub extra: Vec<Val>,
}

impl ArgVec {
    pub fn new(this: Option<ObjRef>, args: Vec<Val>, extra: Vec<Val>) -> (r: ArgVec)
        ensures
            r.this == this,
            r.args == args,
            r.extra == extra,
    {
        ArgVec { this, args, extra }
    }

    /// Turn the bound arguments into a consumable cursor.
    pub fn into_args(self) -> (r: Args)
        ensures
            r.this == self.this,
            r.args == self.args,
            r.extra == self.extra,
            r.cursor == 0,
    {
        Args { this: self.this, args: self.args, extra: self.extra, cursor: 0 }
    }
}

impl PartialEq for ArgVec {
    fn eq(&self, other: &Self) -> (r: bool) {
        let this_same = match (&self.this, &other.this) {
            (None, None) => true,
            (Some(a), Some(b)) => a == b,
            _ => false,
        };
        this_same && val_vec_eq(&self.args, &other.args) && val_vec_eq(&self.extra, &other.extra)
    }
}

impl vstd::std_specs::cmp::PartialEqSpecImpl for ArgVec {
    open spec fn obeys_eq_spec() -> bool {
        true
    }

    open spec fn eq_spec(&self, other: &ArgVec) -> bool {
        &&& match (self.this, other.this) {
            (None, None) => true,
            (Some(a), Some(b)) => obj_eq_spec(a, b),
            _ => false,
        }
        &&& vals_eq(self.args@, other.args@)
        &&& vals_eq(self.extra@, other.extra@)
    }
}

impl Eq for ArgVec {}

/// The byte image of a value where bytes are expected: a string's
/// contents, nothing for any other kind.
pub open spec fn buf_of(v: Val) -> Seq<u8> {
    match v {
        Val::Str(b) => b@,
        _ => Seq::empty(),
    }
}

/// The declared argument at an index, as `next` answers it: the value
/// there, or `Nil` past the end.
pub open spec fn arg_at(args: Seq<Val>, i: int) -> Val {
    if 0 <= i < args.len() {
        args[i]
    } else {
        Val::Nil
    }
}

/// The variadic tail joined with a separator between elements.
pub open spec fn join_spec(vals: Seq<Val>, sep: Seq<u8>) -> Seq<u8>
    decreases vals.len(),
{
    if vals.len() == 0 {
        Seq::empty()
    } else if vals.len() == 1 {
        buf_of(vals[0])
    } else {
        join_spec(vals.take(vals.len() - 1), sep) + sep + buf_of(vals.last())
    }
}

/// The arguments as a function body consumes them: `next` pops the
/// declared arguments in order; the variadic tail is read separately.
#[derive(Debug)]
pub struct Args {
    pub this: Option<ObjRef>,
    pub args: Vec<Val>,
    pub extra: Vec<Val>,
    pub cursor: usize,
}

impl Args {
    pub fn new(this: Option<ObjRef>, args: Vec<Val>, extra: Vec<Val>) -> (r: Args)
        ensures
            r.this == this,
            r.args == args,
            r.extra == extra,
            r.cursor == 0,
    {
        Args { this, args, extra, cursor: 0 }
    }

    /// The next declared argument, or `Nil` when all are consumed.
    pub fn next(&mut self) -> (r: Val)
        ensures
            old(self).cursor < old(self).args@.len() ==> val_eq(
                r,
                old(self).args@[old(self).cursor as int],
            ) && final(self).cursor == old(self).cursor + 1,
            old(self).cursor >= old(self).args@.len() ==> (r matches Val::Nil)
                && final(self).cursor == old(self).cursor,
            final(self).args == old(self).args,
            final(self).extra == old(self).extra,
            final(self).this == old(self).this,
    {
        if self.cursor < self.args.len() {
            let i = self.cursor;
            self.cursor = self.cursor + 1;
            let v = &self.args[i];
            v.clone()
        } else {
            Val::Nil
        }
    }

    /// Discard the remaining declared arguments.
    pub fn void(&mut self)
        ensures
            final(self).args == old(self).args,
            final(self).extra == old(self).extra,
            final(self).this == old(self).this,
            final(self).cursor == old(self).args@.len(),
    {
        self.cursor = self.args.len();
    }

    pub fn extra_len(&self) -> (r: usize)
        ensures
            r == self.extra@.len(),
    {
        self.extra.len()
    }

    /// Concatenate the variadic tail's byte strings with a separator.
    #[verifier::loop_isolation(false)]
    pub fn join_extra(&self, sep: &[u8]) -> (r: Val)
        ensures
            (r matches Val::Str(b) && b@ == join_spec(self.extra@, sep@)),
    {
        let mut out: Vec<u8> = Vec::new();
        let mut i: usize = 0;
        proof {
            assert(self.extra@.take(0) =~= Seq::<Val>::empty());
        }
        while i < self.extra.len()
            invariant
                0 <= i <= self.extra@.len(),
                out@ == join_spec(self.extra@.take(i as int), sep@),
            decreases self.extra@.len() - i,
        {
            if i > 0 {
                crate::pkt::put_bytes(&mut out, sep);
            }
            let b = self.extra[i].as_buf();
            crate::pkt::put_bytes(&mut out, b.as_slice());
            proof {
                let t = self.extra@.take(i + 1);
                assert(t.take(i as int) =~= self.extra@.take(i as int));
                assert(t.last() == self.extra@[i as int]);
                if i == 0 {
                    assert(t.len() == 1);
                    assert(t[0] == self.extra@[0]);
                    assert(out@ =~= join_spec(t, sep@));
                } else {
                    assert(out@ =~= join_spec(t.take(i as int), sep@) + sep@ + buf_of(t.last()));
                }
            }
            i += 1;
        }
        proof {
            assert(self.extra@.take(i as int) =~= self.extra@);
        }
        Val::Str(Buf::from_vec(out))
    }

    /// The variadic tail as byte strings.
    pub fn collect_extra_bufs(&self) -> (r: Vec<Buf>)
        ensures
            r@.len() == self.extra@.len(),
            forall|i: int| 0 <= i < r@.len() ==> (#[trigger] r@[i])@ == buf_of(self.extra@[i]),
    {
        let mut out: Vec<Buf> = Vec::new();
        let mut i: usize = 0;
        while i < self.extra.len()
            invariant
                out@.len() == i,
                0 <= i <= self.extra@.len(),
                forall|j: int| 0 <= j < i ==> (#[trigger] out@[j])@ == buf_of(self.extra@[j]),
            decreases self.extra@.len() - i,
        {
            out.push(self.extra[i].as_buf());
            i += 1;
        }
        out
    }

    /// The variadic tail as IPv4 addresses.
    pub fn collect_extra_ips(&self) -> (r: Vec<Ip4Addr>)
        ensures
            r@.len() == self.extra@.len(),
            forall|i: int|
                0 <= i < r@.len() ==> (#[trigger] r@[i]) == crate::val::ip4_of(self.extra@[i]),
    {
        let mut out: Vec<Ip4Addr> = Vec::new();
        let mut i: usize = 0;
        while i < self.extra.len()
            invariant
                out@.len() == i,
                0 <= i <= self.extra@.len(),
                forall|j: int|
                    0 <= j < i ==> (#[trigger] out@[j]) == crate::val::ip4_of(self.extra@[j]),
            decreases self.extra@.len() - i,
        {
            out.push(self.extra[i].as_ip4());
            i += 1;
        }
        out
    }
}

} // verus!
