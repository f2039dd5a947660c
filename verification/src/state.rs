use vstd::prelude::*;

use std::rc::Rc;
use vstd::hash_map::StringHashMap;

use crate::ast::{Node, node_wf};
use crate::scalar::{Cpx, ZERO_BITS, PI_BITS, EULER_BITS};
use crate::value::Value;

verus! {

/// A user-defined function: its parameter names and its body.  The body sits
/// behind an `Rc`, so registering a declaration shares the tree that the
/// declaration node owns.
pub struct FnDef {
    pub params: Rc<Vec<String>>,
    pub body: Rc<Node>,
}

/// Relies on `Clone for Rc`: cloning an `Rc` yields a handle to the very
/// same value.
#[verifier::external_body]
pub fn rc_dup<T>(v: &Rc<T>) -> (r: Rc<T>)
    ensures
        r == *v,
{
    Rc::clone(v)
}

/// Declares std's `Instant` so the start-of-run anchor can live in the
/// evaluation state; Verus sees nothing inside it.
#[verifier::external_type_specification]
#[verifier::external_body]
pub struct ExInstant(std::time::Instant);

/// Relies on `std::time::Instant::now`: an opaque anchor of the present
/// moment; nothing is stated of it.
#[verifier::external_body]
pub fn now_instant() -> std::time::Instant {
    std::time::Instant::now()
}

/// Relies on `Instant::elapsed` (converted to whole nanoseconds): the time
/// passed since the anchor.  The value depends on the wall clock, so nothing
/// is stated of it.
#[verifier::external_body]
pub fn elapsed_nanos(start: &std::time::Instant) -> u64 {
    start.elapsed().as_nanos() as u64
}

/// Bit pattern of 1e9, the nanoseconds in one second.
pub const NANOS_PER_SEC_BITS: u64 = 0x41CDCD6500000000;

/// The single mutable context of one evaluation run: the global and local
/// name tables, the user-function table, the call depth, the lines printed
/// so far, and the start-of-run time anchor.  The builtin registry is fixed
/// and lives in the evaluator itself.
pub struct RuntimeState {
    pub globals: StringHashMap<Value>,
    pub locals: StringHashMap<Value>,
    pub functions: StringHashMap<FnDef>,
    pub call_depth: u64,
    pub output: Vec<String>,
    pub start: std::time::Instant,
}

/// Every function body registered in the state is a well-formed tree.
pub open spec fn state_wf(s: RuntimeState) -> bool {
    forall|k: Seq<char>| #[trigger] s.functions@.contains_key(k) ==> node_wf(*s.functions@[k].body)
}

/// The parts of the state that persist for the whole run never lose an
/// entry, and an entry once written never changes: this is how `old` grew
/// into `new`.
pub open spec fn state_preserved(old: RuntimeState, new: RuntimeState) -> bool {
    &&& forall|k: Seq<char>| #[trigger] old.globals@.contains_key(k)
        ==> new.globals@.contains_key(k) && new.globals@[k] == old.globals@[k]
    &&& forall|k: Seq<char>| #[trigger] old.functions@.contains_key(k)
        ==> new.functions@.contains_key(k) && new.functions@[k] == old.functions@[k]
    &&& new.output@.len() >= old.output@.len()
    &&& forall|i: int| 0 <= i < old.output@.len() ==> #[trigger] new.output@[i] == old.output@[i]
    &&& new.start == old.start
}

/// Growth is transitive: two preserved steps make one.
pub proof fn lemma_preserved_trans(a: RuntimeState, b: RuntimeState, c: RuntimeState)
    requires
        state_preserved(a, b),
        state_preserved(b, c),
    ensures
        state_preserved(a, c),
{
}

impl RuntimeState {
    /// A fresh state: empty tables, depth zero, nothing printed, the clock
    /// anchored now.
    pub fn new() -> (r: RuntimeState)
        ensures
            r.globals@ == Map::<Seq<char>, Value>::empty(),
            r.locals@ == Map::<Seq<char>, Value>::empty(),
            r.functions@ == Map::<Seq<char>, FnDef>::empty(),
            r.call_depth == 0,
            r.output@ == Seq::<String>::empty(),
            state_wf(r),
    {
        RuntimeState {
            globals: StringHashMap::new(),
            locals: StringHashMap::new(),
            functions: StringHashMap::new(),
            call_depth: 0,
            output: Vec::new(),
            start: now_instant(),
        }
    }

    /// Installs the default globals `pi` and `e`.
    pub fn add_default_globals(&mut self)
        ensures
            final(self).globals@ == old(self).globals@
                .insert("pi"@, Value::Number(Cpx { re: PI_BITS, im: ZERO_BITS }))
                .insert("e"@, Value::Number(Cpx { re: EULER_BITS, im: ZERO_BITS })),
            final(self).locals == old(self).locals,
            final(self).functions == old(self).functions,
            final(self).call_depth == old(self).call_depth,
            final(self).output == old(self).output,
            final(self).start == old(self).start,
    {
        self.add_global("pi".to_owned(), Value::Number(Cpx { re: PI_BITS, im: ZERO_BITS }));
        self.add_global("e".to_owned(), Value::Number(Cpx { re: EULER_BITS, im: ZERO_BITS }));
    }

    /// Writes a global binding.
    pub fn add_global(&mut self, name: String, value: Value)
        ensures
            final(self).globals@ == old(self).globals@.insert(name@, value),
            final(self).locals == old(self).locals,
            final(self).functions == old(self).functions,
            final(self).call_depth == old(self).call_depth,
            final(self).output == old(self).output,
            final(self).start == old(self).start,
    {
        self.globals.insert(name, value);
    }

    /// Writes a local binding.
    pub fn add_local(&mut self, name: String, value: Value)
        ensures
            final(self).locals@ == old(self).locals@.insert(name@, value),
            final(self).globals == old(self).globals,
            final(self).functions == old(self).functions,
            final(self).call_depth == old(self).call_depth,
            final(self).output == old(self).output,
            final(self).start == old(self).start,
    {
        self.locals.insert(name, value);
    }

    /// Drops a local binding, if present.
    pub fn remove_local(&mut self, name: &str)
        ensures
            final(self).locals@ == old(self).locals@.remove(name@),
            final(self).globals == old(self).globals,
            final(self).functions == old(self).functions,
            final(self).call_depth == old(self).call_depth,
            final(self).output == old(self).output,
            final(self).start == old(self).start,
    {
        self.locals.remove(name);
    }

    /// Whether a local binding exists under this name.
    pub fn has_local(&self, name: &str) -> (r: bool)
        ensures
            r == self.locals@.contains_key(name@),
    {
        self.locals.contains_key(name)
    }

    /// Whether a global binding exists under this name.
    pub fn has_global(&self, name: &str) -> (r: bool)
        ensures
            r == self.globals@.contains_key(name@),
    {
        self.globals.contains_key(name)
    }

    /// Registers a user function.
    pub fn add_function(&mut self, name: String, def: FnDef)
        ensures
            final(self).functions@ == old(self).functions@.insert(name@, def),
            final(self).globals == old(self).globals,
            final(self).locals == old(self).locals,
            final(self).call_depth == old(self).call_depth,
            final(self).output == old(self).output,
            final(self).start == old(self).start,
    {
        self.functions.insert(name, def);
    }

    /// Whether this name is callable: a user function or a builtin.
    pub fn has_function(&self, name: &String) -> (r: bool)
        ensures
            r == (self.functions@.contains_key(name@) || builtin_arity(name@) is Some),
    {
        self.functions.contains_key(name.as_str()) || lookup_builtin_arity(name).is_some()
    }
}

/// The fixed builtin registry: the arity of each builtin name, `None` for a
/// name that is no builtin.
pub open spec fn builtin_arity(name: Seq<char>) -> Option<u64> {
    if name == "vec"@ { Some(2u64) }
    else if name == "x"@ { Some(1u64) }
    else if name == "y"@ { Some(1u64) }
    else if name == "sin"@ { Some(1u64) }
    else if name == "cos"@ { Some(1u64) }
    else if name == "tan"@ { Some(1u64) }
    else if name == "log"@ { Some(1u64) }
    else if name == "logn"@ { Some(2u64) }
    else if name == "ln"@ { Some(1u64) }
    else if name == "print"@ { Some(1u64) }
    else if name == "conjugate"@ { Some(1u64) }
    else if name == "Re"@ { Some(1u64) }
    else if name == "Im"@ { Some(1u64) }
    else if name == "len"@ { Some(1u64) }
    else if name == "rm"@ { Some(2u64) }
    else if name == "ins"@ { Some(3u64) }
    else if name == "mem"@ { Some(1u64) }
    else if name == "clock"@ { Some(1u64) }
    else { None }
}

/// Whether the name equals the literal.
pub fn str_is(name: &String, lit: &str) -> (r: bool)
    ensures
        r == (name@ == lit@),
{
    let other = <String as vstd::string::StringExecFns>::from_str(lit);
    *name == other
}

/// The arity of the builtin under this name, `None` for a name that is no
/// builtin.
pub fn lookup_builtin_arity(name: &String) -> (r: Option<u64>)
    ensures
        r == builtin_arity(name@),
{
    if str_is(name, "vec") { Some(2u64) }
    else if str_is(name, "x") { Some(1u64) }
    else if str_is(name, "y") { Some(1u64) }
    else if str_is(name, "sin") { Some(1u64) }
    else if str_is(name, "cos") { Some(1u64) }
    else if str_is(name, "tan") { Some(1u64) }
    else if str_is(name, "log") { Some(1u64) }
    else if str_is(name, "logn") { Some(2u64) }
    else if str_is(name, "ln") { Some(1u64) }
    else if str_is(name, "print") { Some(1u64) }
    else if str_is(name, "conjugate") { Some(1u64) }
    else if str_is(name, "Re") { Some(1u64) }
    else if str_is(name, "Im") { Some(1u64) }
    else if str_is(name, "len") { Some(1u64) }
    else if str_is(name, "rm") { Some(2u64) }
    else if str_is(name, "ins") { Some(3u64) }
    else if str_is(name, "mem") { Some(1u64) }
    else if str_is(name, "clock") { Some(1u64) }
    else { None }
}

} // verus!
