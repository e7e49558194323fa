//! Wrapper for the native module object: global lookup and binding.

use vstd::prelude::*;

verus! {

use crate::api::datatype::minted;
use crate::api::function::Function;
use crate::api::heap::{at, in_dom, streq, Binding, JlData};
use crate::api::reference::Ref;
use crate::api::sym::{sym_name_of, Symbol};
use crate::api::Julia;
use crate::error::Error;

/// A handle viewed as a module.
#[derive(Debug, PartialEq, Eq, Structural)]
pub struct Module(pub Ref);

/// Whether `i` is the first binding of `name` in `bs`.
pub open spec fn first_binding(bs: Seq<Binding>, name: Seq<char>, i: int) -> bool {
    &&& 0 <= i < bs.len()
    &&& bs[i].name@ == name
    &&& forall|j: int| 0 <= j < i ==> bs[j].name@ != name
}

/// Whether `i` is the slot a binding of `name` lands in: its first
/// occurrence, or one past the end where the name is unbound.
pub open spec fn binding_slot(bs: Seq<Binding>, name: Seq<char>, i: int) -> bool {
    ||| first_binding(bs, name, i)
    ||| (i == bs.len() && forall|j: int| 0 <= j < bs.len() ==> bs[j].name@ != name)
}

/// The bindings of the module at `maddr`.
pub open spec fn module_bindings(h: Seq<JlData>, maddr: usize) -> Seq<Binding>
    recommends
        in_dom(h, maddr),
        at(h, maddr) is Module,
{
    at(h, maddr)->Module_0.bindings@
}

/// Find the first binding of `name`, yielding its index.
fn find_binding(bs: &Vec<Binding>, name: &str) -> (r: Option<usize>)
    ensures
        match r {
            Some(i) => first_binding(bs@, name@, i as int),
            None => forall|j: int| 0 <= j < bs@.len() ==> bs@[j].name@ != name@,
        },
{
    let n = bs.len();
    let mut i: usize = 0;
    while i < n
        invariant
            n == bs@.len(),
            i <= n,
            forall|j: int| 0 <= j < i ==> bs@[j].name@ != name@,
        decreases n - i,
    {
        if streq(bs[i].name.as_str(), name) {
            return Some(i);
        }
        i += 1;
    }
    None
}

/// What a successful global lookup yields: a fresh handle on the value
/// the name's first binding holds, with nothing else of the context
/// moved.
pub open spec fn global_found(pre: Julia, post: Julia, m: Module, sym: Symbol, v: Ref) -> bool {
    &&& !m.0.poisoned_in(pre) && !sym.0.poisoned_in(pre)
    &&& sym_name_of(pre.store.vals@, sym.0.addr_of(pre)) matches Some(nm) && exists|i: int|
        #[trigger] first_binding(module_bindings(pre.store.vals@, m.0.addr_of(pre)), nm, i)
            && minted(pre, post, v, module_bindings(pre.store.vals@, m.0.addr_of(pre))[i].value)
}

/// Whether the symbol names nothing bound in the module: it has no
/// textual name, or no binding carries that name.
pub open spec fn global_unbound(pre: Julia, m: Module, sym: Symbol) -> bool {
    match sym_name_of(pre.store.vals@, sym.0.addr_of(pre)) {
        None => true,
        Some(nm) => forall|i: int|
            !#[trigger] first_binding(module_bindings(pre.store.vals@, m.0.addr_of(pre)), nm, i),
    }
}

/// What a successful function lookup yields: as `global_found`, and the
/// bound value is callable.
pub open spec fn function_found(pre: Julia, post: Julia, m: Module, sym: Symbol, f: Function) -> bool {
    &&& !m.0.poisoned_in(pre) && !sym.0.poisoned_in(pre)
    &&& sym_name_of(pre.store.vals@, sym.0.addr_of(pre)) matches Some(nm) && exists|i: int|
        {
            &&& #[trigger] first_binding(module_bindings(pre.store.vals@, m.0.addr_of(pre)), nm, i)
            &&& in_dom(pre.store.vals@, module_bindings(pre.store.vals@, m.0.addr_of(pre))[i].value)
            &&& at(
                pre.store.vals@,
                module_bindings(pre.store.vals@, m.0.addr_of(pre))[i].value,
            ) is Func
            &&& minted(pre, post, f.0, module_bindings(pre.store.vals@, m.0.addr_of(pre))[i].value)
        }
}

/// Whether the symbol's name is bound in the module but its first binding
/// holds a value that is not callable.
pub open spec fn bound_not_callable(pre: Julia, m: Module, sym: Symbol) -> bool {
    sym_name_of(pre.store.vals@, sym.0.addr_of(pre)) matches Some(nm) && exists|i: int|
        {
            &&& #[trigger] first_binding(module_bindings(pre.store.vals@, m.0.addr_of(pre)), nm, i)
            &&& !(in_dom(
                pre.store.vals@,
                module_bindings(pre.store.vals@, m.0.addr_of(pre))[i].value,
            ) && at(
                pre.store.vals@,
                module_bindings(pre.store.vals@, m.0.addr_of(pre))[i].value,
            ) is Func)
        }
}

impl Module {
    /// Whether this handle is live and really backed by a module on the
    /// heap.
    pub open spec fn backs_module(self, rt: Julia) -> bool {
        &&& self.0.live(rt)
        &&& in_dom(rt.store.vals@, self.0.addr_of(rt))
        &&& at(rt.store.vals@, self.0.addr_of(rt)) is Module
    }

    /// Returns a global bound to the symbol `sym`.  An unbound name fails
    /// with `NullPointer`, as the foreign lookup hands back a null
    /// pointer.
    pub fn global(&self, rt: &mut Julia, sym: &Symbol) -> (r: Result<Ref, Error>)
        requires
            self.backs_module(*old(rt)),
            sym.0.live(*old(rt)),
        ensures
            match r {
                Ok(v) => global_found(*old(rt), *final(rt), *self, *sym, v),
                Err(e) => *final(rt) == *old(rt) && ((e == Error::PoisonError && (
                self.0.poisoned_in(*old(rt)) || sym.0.poisoned_in(*old(rt)))) || (e
                    == Error::NullPointer && !self.0.poisoned_in(*old(rt)) && !sym.0.poisoned_in(
                    *old(rt),
                ) && global_unbound(*old(rt), *self, *sym))),
            },
    {
        let maddr = match self.0.lock(rt) {
            Ok(a) => a,
            Err(e) => {
                return Err(e);
            },
        };
        let symaddr = match sym.0.lock(rt) {
            Ok(a) => a,
            Err(e) => {
                return Err(e);
            },
        };
        let name = match rt.store.get(symaddr) {
            Some(JlData::Sym(s)) => s.clone(),
            _ => {
                return Err(Error::NullPointer);
            },
        };
        let idx: Option<usize> = match rt.store.get(maddr) {
            Some(JlData::Module(m)) => find_binding(&m.bindings, name.as_str()),
            _ => None,
        };
        match idx {
            Some(i) => {
                let va = match rt.store.get(maddr) {
                    Some(JlData::Module(m)) => m.bindings[i].value,
                    _ => {
                        proof {
                            assert(false);
                        }
                        0
                    },
                };
                let ghost bs = module_bindings(old(rt).store.vals@, self.0.addr_of(*old(rt)));
                let v = Ref::wrap(rt, va);
                proof {
                    let nm = sym_name_of(old(rt).store.vals@, sym.0.addr_of(*old(rt)))->Some_0;
                    assert(nm == name@);
                    assert(first_binding(
                        module_bindings(old(rt).store.vals@, self.0.addr_of(*old(rt))),
                        nm,
                        i as int,
                    ));
                    assert(minted(*old(rt), *rt, v, bs[i as int].value));
                    assert(global_found(*old(rt), *rt, *self, *sym, v));
                }
                Ok(v)
            },
            None => Err(Error::NullPointer),
        }
    }

    /// Returns a function bound to the symbol `sym`: the global lookup
    /// filtered to callable values.  An unbound name fails with
    /// `NullPointer`, a bound value that is not callable with
    /// `NotAFunction`, and nothing else fails with either.
    pub fn function(&self, rt: &mut Julia, sym: &Symbol) -> (r: Result<Function, Error>)
        requires
            self.backs_module(*old(rt)),
            sym.0.live(*old(rt)),
        ensures
            match r {
                Ok(f) => function_found(*old(rt), *final(rt), *self, *sym, f),
                Err(e) => *final(rt) == *old(rt) && ((e == Error::PoisonError && (
                self.0.poisoned_in(*old(rt)) || sym.0.poisoned_in(*old(rt)))) || (e
                    == Error::NullPointer && !self.0.poisoned_in(*old(rt)) && !sym.0.poisoned_in(
                    *old(rt),
                ) && global_unbound(*old(rt), *self, *sym)) || (e == Error::NotAFunction
                    && !self.0.poisoned_in(*old(rt)) && !sym.0.poisoned_in(*old(rt))
                    && bound_not_callable(*old(rt), *self, *sym))),
            },
    {
        let maddr = match self.0.lock(rt) {
            Ok(a) => a,
            Err(e) => {
                return Err(e);
            },
        };
        let symaddr = match sym.0.lock(rt) {
            Ok(a) => a,
            Err(e) => {
                return Err(e);
            },
        };
        let name = match rt.store.get(symaddr) {
            Some(JlData::Sym(s)) => s.clone(),
            _ => {
                return Err(Error::NullPointer);
            },
        };
        let idx: Option<usize> = match rt.store.get(maddr) {
            Some(JlData::Module(m)) => find_binding(&m.bindings, name.as_str()),
            _ => None,
        };
        match idx {
            Some(i) => {
                let va = match rt.store.get(maddr) {
                    Some(JlData::Module(m)) => m.bindings[i].value,
                    _ => {
                        proof {
                            assert(false);
                        }
                        0
                    },
                };
                match rt.store.get(va) {
                    Some(JlData::Func(_)) => {
                        let ghost bs = module_bindings(
                            old(rt).store.vals@,
                            self.0.addr_of(*old(rt)),
                        );
                        let f = Function(Ref::wrap(rt, va));
                        proof {
                            let nm = sym_name_of(
                                old(rt).store.vals@,
                                sym.0.addr_of(*old(rt)),
                            )->Some_0;
                            assert(nm == name@);
                            assert(first_binding(
                                module_bindings(old(rt).store.vals@, self.0.addr_of(*old(rt))),
                                nm,
                                i as int,
                            ));
                            assert(minted(*old(rt), *rt, f.0, bs[i as int].value));
                            assert(function_found(*old(rt), *rt, *self, *sym, f));
                        }
                        Ok(f)
                    },
                    _ => {
                        proof {
                            let nm = sym_name_of(
                                old(rt).store.vals@,
                                sym.0.addr_of(*old(rt)),
                            )->Some_0;
                            assert(nm == name@);
                            assert(first_binding(
                                module_bindings(old(rt).store.vals@, self.0.addr_of(*old(rt))),
                                nm,
                                i as int,
                            ));
                            assert(bound_not_callable(*old(rt), *self, *sym));
                        }
                        Err(Error::NotAFunction)
                    },
                }
            },
            None => Err(Error::NullPointer),
        }
    }

    /// Binds `value` to the symbol `sym` in this module, replacing any
    /// earlier binding of the same name.
    pub fn set(&self, rt: &mut Julia, sym: &Symbol, value: &Ref) -> (r: Result<(), Error>)
        requires
            self.backs_module(*old(rt)),
            sym.0.live(*old(rt)),
            value.live(*old(rt)),
        ensures
            set_outcome(*old(rt), *final(rt), *self, *sym, *value, r, false),
    {
        self.bind(rt, sym, value, false)
    }

    /// Binds `value` to the symbol `sym` in this module as a constant.
    pub fn set_const(&self, rt: &mut Julia, sym: &Symbol, value: &Ref) -> (r: Result<(), Error>)
        requires
            self.backs_module(*old(rt)),
            sym.0.live(*old(rt)),
            value.live(*old(rt)),
        ensures
            set_outcome(*old(rt), *final(rt), *self, *sym, *value, r, true),
    {
        self.bind(rt, sym, value, true)
    }

    /// Shared body of `set` and `set_const`.
    fn bind(&self, rt: &mut Julia, sym: &Symbol, value: &Ref, constant: bool) -> (r: Result<
        (),
        Error,
    >)
        requires
            self.backs_module(*old(rt)),
            sym.0.live(*old(rt)),
            value.live(*old(rt)),
        ensures
            set_outcome(*old(rt), *final(rt), *self, *sym, *value, r, constant),
    {
        let maddr = match self.0.lock(rt) {
            Ok(a) => a,
            Err(e) => {
                return Err(e);
            },
        };
        let symaddr = match sym.0.lock(rt) {
            Ok(a) => a,
            Err(e) => {
                return Err(e);
            },
        };
        let vaddr = match value.lock(rt) {
            Ok(a) => a,
            Err(e) => {
                return Err(e);
            },
        };
        let name = match rt.store.get(symaddr) {
            Some(JlData::Sym(s)) => s.clone(),
            _ => {
                return Err(Error::InvalidSymbol);
            },
        };
        let data = rt.store.swap(maddr, JlData::Nothing);
        match data {
            JlData::Module(m) => {
                let mut m = m;
                let ghost obs = m.bindings@;
                let idx = find_binding(&m.bindings, name.as_str());
                let ghost slot: int = match idx {
                    Some(i) => i as int,
                    None => obs.len() as int,
                };
                match idx {
                    Some(i) => {
                        m.bindings[i] = Binding { name, value: vaddr, constant };
                    },
                    None => {
                        m.bindings.push(Binding { name, value: vaddr, constant });
                    },
                }
                let ghost nbs = m.bindings@;
                rt.store.put(maddr, JlData::Module(m));
                proof {
                    let nm = sym_name_of(old(rt).store.vals@, sym.0.addr_of(*old(rt)))->Some_0;
                    assert(nm == name@);
                    assert(obs == module_bindings(
                        old(rt).store.vals@,
                        self.0.addr_of(*old(rt)),
                    ));
                    assert(binding_slot(
                        module_bindings(old(rt).store.vals@, self.0.addr_of(*old(rt))),
                        nm,
                        slot,
                    ));
                    assert(module_bindings(rt.store.vals@, self.0.addr_of(*old(rt))) == nbs);
                    assert(nbs[slot].name@ == nm);
                    assert(forall|j: int| 0 <= j < nbs.len() && j != slot ==> nbs[j] == obs[j]);
                    assert(set_outcome(
                        *old(rt),
                        *rt,
                        *self,
                        *sym,
                        *value,
                        Ok::<(), Error>(()),
                        constant,
                    ));
                }
                Ok(())
            },
            _ => {
                proof {
                    assert(false);
                }
                rt.store.put(maddr, data);
                Ok(())
            },
        }
    }
}

/// What binding a name in a module does: on success the first binding of
/// the name is replaced, or a fresh one appended, and nothing else of the
/// context moves; a poisoned guard fails with `PoisonError` and an
/// unnamed symbol with `InvalidSymbol`, both without effect.
pub open spec fn set_outcome(
    pre: Julia,
    post: Julia,
    m: Module,
    sym: Symbol,
    value: Ref,
    r: Result<(), Error>,
    constant: bool,
) -> bool {
    match r {
        Ok(_) => ({
            let maddr = m.0.addr_of(pre);
            let obs = module_bindings(pre.store.vals@, maddr);
            let nbs = module_bindings(post.store.vals@, maddr);
            &&& !m.0.poisoned_in(pre) && !sym.0.poisoned_in(pre) && !value.poisoned_in(pre)
            &&& sym_name_of(pre.store.vals@, sym.0.addr_of(pre)) matches Some(nm) && exists|i: int|
                {
                    &&& #[trigger] binding_slot(obs, nm, i)
                    &&& nbs.len() == (if i < obs.len() {
                        obs.len() as int
                    } else {
                        obs.len() as int + 1
                    })
                    &&& (forall|j: int| 0 <= j < nbs.len() && j != i ==> nbs[j] == obs[j])
                    &&& nbs[i].name@ == nm
                    &&& nbs[i].value == value.addr_of(pre)
                    &&& nbs[i].constant == constant
                }
            &&& at(post.store.vals@, maddr) is Module
            &&& at(post.store.vals@, maddr)->Module_0.name == at(
                pre.store.vals@,
                maddr,
            )->Module_0.name
            &&& post.store.vals@.len() == pre.store.vals@.len()
            &&& forall|a: usize|
                in_dom(pre.store.vals@, a) && a != maddr ==> at(post.store.vals@, a) == at(
                    pre.store.vals@,
                    a,
                )
            &&& post == (Julia { store: post.store, ..pre })
        }),
        Err(e) => post == pre && ((e == Error::PoisonError && (m.0.poisoned_in(pre)
            || sym.0.poisoned_in(pre) || value.poisoned_in(pre))) || (e == Error::InvalidSymbol
            && sym_name_of(pre.store.vals@, sym.0.addr_of(pre)) is None)),
    }
}

impl Julia {
    /// Returns a handle to the main module.
    pub fn main(&mut self) -> (r: Module)
        ensures
            minted(*old(self), *final(self), r.0, old(self).main_addr),
    {
        let a = self.main_addr;
        Module(Ref::wrap(self, a))
    }

    /// Returns a handle to the core module.
    pub fn core_module(&mut self) -> (r: Module)
        ensures
            minted(*old(self), *final(self), r.0, old(self).core_addr),
    {
        let a = self.core_addr;
        Module(Ref::wrap(self, a))
    }

    /// Returns a handle to the base module.
    pub fn base(&mut self) -> (r: Module)
        ensures
            minted(*old(self), *final(self), r.0, old(self).base_addr),
    {
        let a = self.base_addr;
        Module(Ref::wrap(self, a))
    }

    /// Returns a handle to the top module.
    pub fn top(&mut self) -> (r: Module)
        ensures
            minted(*old(self), *final(self), r.0, old(self).top_addr),
    {
        let a = self.top_addr;
        Module(Ref::wrap(self, a))
    }
}

} // verus!
