//! Wrapper for the native interned symbol.

use vstd::prelude::*;

verus! {

use crate::api::heap::{at, in_dom, JlData};
use crate::api::reference::Ref;
use crate::api::value::boxed;
use crate::api::Julia;
use crate::error::Error;

/// A handle viewed as an interned symbol.
#[derive(Debug, PartialEq, Eq, Structural)]
pub struct Symbol(pub Ref);

/// Whether `c` may stand in a symbol name, at the first position or later.
/// A name starts with a letter, an underscore or a character beyond
/// ASCII — the runtime admits Unicode identifier characters, which the
/// model admits wholesale — and continues with those, digits or `!`.
pub open spec fn sym_char_ok(c: char, first: bool) -> bool {
    ||| ('a' <= c && c <= 'z')
    ||| ('A' <= c && c <= 'Z')
    ||| c == '_'
    ||| (c as u32) > 127
    ||| (!first && '0' <= c && c <= '9')
    ||| (!first && c == '!')
}

/// Whether `s` is a valid symbol name.
pub open spec fn valid_symbol_name(s: Seq<char>) -> bool {
    s.len() > 0 && forall|i: int| 0 <= i < s.len() ==> sym_char_ok(s[i], i == 0)
}

/// The name of the symbol at `addr`, where an interned symbol sits there.
/// A procedurally generated symbol has no textual name of its own.
pub open spec fn sym_name_of(h: Seq<JlData>, addr: usize) -> Option<Seq<char>> {
    if in_dom(h, addr) && at(h, addr) is Sym {
        Some(at(h, addr)->Sym_0@)
    } else {
        None
    }
}

/// What constructing a symbol called `name` does to the context when the
/// name is not interned yet: the heap grows by one interned symbol
/// carrying the name, wrapped in a fresh single-owner handle.
pub open spec fn named_symbol(pre: Julia, post: Julia, sym: Symbol, name: Seq<char>) -> bool {
    exists|t: String| t@ == name && #[trigger] boxed(pre, post, sym.0, JlData::Sym(t))
}

/// Whether an interned symbol carrying `name` sits at address `a`.
pub open spec fn sym_at(h: Seq<JlData>, a: usize, name: Seq<char>) -> bool {
    &&& in_dom(h, a)
    &&& at(h, a) matches JlData::Sym(s) && s@ == name
}

/// Whether `a` is the lowest address interning `name`: the entry the
/// symbol table answers every construction of the name with.
pub open spec fn first_sym(h: Seq<JlData>, name: Seq<char>, a: usize) -> bool {
    sym_at(h, a, name) && forall|b: usize| 1 <= b < a ==> !sym_at(h, b, name)
}

/// What constructing a symbol does when `name` is interned already: a
/// fresh handle on the one address interning it, and nothing else of the
/// context moved.  This is how equal names yield handles on the same
/// foreign symbol.
pub open spec fn interned_symbol(pre: Julia, post: Julia, sym: Symbol, name: Seq<char>) -> bool {
    exists|a: usize|
        #[trigger] first_sym(pre.store.vals@, name, a) && crate::api::datatype::minted(
            pre,
            post,
            sym.0,
            a,
        )
}

/// Two first-of-their-name addresses for one name are the same address.
pub proof fn lemma_first_sym_unique(h: Seq<JlData>, name: Seq<char>, a: usize, b: usize)
    requires
        first_sym(h, name, a),
        first_sym(h, name, b),
    ensures
        a == b,
{
    if a < b {
        assert(!sym_at(h, a, name));
    }
    if b < a {
        assert(!sym_at(h, b, name));
    }
}

/// The interning law: constructing one valid name twice yields handles
/// on the same foreign symbol.  The first construction either found the
/// name interned or interned it into a heap holding none of that name —
/// exactly the two outcomes `with_name` states — and the second then
/// finds it, at the same address.
pub proof fn lemma_interning(
    pre: Julia,
    mid: Julia,
    post: Julia,
    s1: Symbol,
    s2: Symbol,
    name: Seq<char>,
)
    requires
        interned_symbol(pre, mid, s1, name) || (named_symbol(pre, mid, s1, name) && forall|a: usize|
            !sym_at(pre.store.vals@, a, name)),
        interned_symbol(mid, post, s2, name),
    ensures
        s1.0.addr_of(post) == s2.0.addr_of(post),
        sym_at(post.store.vals@, s1.0.addr_of(post), name),
{
    let a2 = choose|a: usize|
        #[trigger] first_sym(mid.store.vals@, name, a) && crate::api::datatype::minted(
            mid,
            post,
            s2.0,
            a,
        );
    assert(s2.0.addr_of(post) == a2);
    if interned_symbol(pre, mid, s1, name) {
        let a1 = choose|a: usize|
            #[trigger] first_sym(pre.store.vals@, name, a) && crate::api::datatype::minted(
                pre,
                mid,
                s1.0,
                a,
            );
        assert(s1.0.addr_of(mid) == a1);
        assert(mid.store.vals@ == pre.store.vals@);
        lemma_first_sym_unique(mid.store.vals@, name, a1, a2);
        assert(s1.0.addr_of(post) == a1);
    } else {
        let t = choose|t: String| t@ == name && #[trigger] boxed(pre, mid, s1.0, JlData::Sym(t));
        let na = (pre.store.vals@.len() + 1) as usize;
        assert(s1.0.addr_of(mid) == na);
        assert(sym_at(mid.store.vals@, na, name));
        assert forall|b: usize| 1 <= b < na implies !sym_at(mid.store.vals@, b, name) by {
            assert(in_dom(pre.store.vals@, b));
            assert(at(mid.store.vals@, b) == at(pre.store.vals@, b));
            assert(!sym_at(pre.store.vals@, b, name));
        }
        assert(first_sym(mid.store.vals@, name, na));
        lemma_first_sym_unique(mid.store.vals@, name, na, a2);
        assert(s1.0.addr_of(post) == na);
    }
}

/// Find the address interning `name`, if any.
fn find_symbol(rt: &Julia, name: &str) -> (r: Option<usize>)
    ensures
        match r {
            Some(a) => first_sym(rt.store.vals@, name@, a),
            None => forall|a: usize| !sym_at(rt.store.vals@, a, name@),
        },
{
    let n = rt.store.vals.len();
    let mut i: usize = 0;
    while i < n
        invariant
            n == rt.store.vals@.len(),
            i <= n,
            forall|b: usize| 1 <= b <= i ==> !sym_at(rt.store.vals@, b, name@),
        decreases n - i,
    {
        let hit = match &rt.store.vals[i] {
            JlData::Sym(s) => crate::api::heap::streq(s.as_str(), name),
            _ => false,
        };
        if hit {
            return Some(i + 1);
        }
        i += 1;
    }
    None
}

/// Check a name against the symbol rules.
pub(crate) fn check_symbol_name(s: &str) -> (r: bool)
    ensures
        r == valid_symbol_name(s@),
{
    let n = s.unicode_len();
    if n == 0 {
        return false;
    }
    let mut i: usize = 0;
    while i < n
        invariant
            n == s@.len(),
            0 < n,
            i <= n,
            forall|j: int| 0 <= j < i ==> sym_char_ok(s@[j], j == 0),
        decreases n - i,
    {
        let c = s.get_char(i);
        let first = i == 0;
        let ok = (c >= 'a' && c <= 'z') || (c >= 'A' && c <= 'Z') || c == '_' || (c as u32) > 127
            || (!first && c >= '0' && c <= '9') || (!first && c == '!');
        if !ok {
            return false;
        }
        i += 1;
    }
    true
}

impl Symbol {
    /// Construct a new symbol with a name, validated against the runtime's
    /// identifier rules.  Invalid characters fail with `InvalidSymbol` and
    /// nothing is constructed.  Names are interned: constructing a name
    /// that exists already yields a fresh handle on the same foreign
    /// symbol, so equal names lock to equal addresses.
    pub fn with_name(rt: &mut Julia, name: &str) -> (r: Result<Symbol, Error>)
        ensures
            !valid_symbol_name(name@) ==> r == Err::<Symbol, Error>(Error::InvalidSymbol)
                && *final(rt) == *old(rt),
            valid_symbol_name(name@) && (exists|a: usize|
                sym_at(old(rt).store.vals@, a, name@)) ==> (r matches Ok(sym) && interned_symbol(
                *old(rt),
                *final(rt),
                sym,
                name@,
            )),
            valid_symbol_name(name@) && !(exists|a: usize|
                sym_at(old(rt).store.vals@, a, name@)) ==> (r matches Ok(sym) && named_symbol(
                *old(rt),
                *final(rt),
                sym,
                name@,
            )),
    {
        if !check_symbol_name(name) {
            return Err(Error::InvalidSymbol);
        }
        match find_symbol(rt, name) {
            Some(a) => {
                let v = Ref::wrap(rt, a);
                let r = Symbol(v);
                proof {
                    assert(r.0 == v);
                    assert(first_sym(old(rt).store.vals@, name@, a));
                    assert(sym_at(old(rt).store.vals@, a, name@));
                    assert(crate::api::datatype::minted(*old(rt), *rt, r.0, a));
                }
                Ok(r)
            },
            None => {
                let d = JlData::Sym(String::from_str(name));
                let ghost gd = d;
                let v = rt.wrap_value(d);
                let r = Symbol(v);
                proof {
                    assert(r.0 == v);
                    assert(gd == JlData::Sym(gd->Sym_0));
                    assert(gd->Sym_0@ == name@);
                    assert(boxed(*old(rt), *rt, r.0, JlData::Sym(gd->Sym_0)));
                }
                Ok(r)
            },
        }
    }

    /// The textual name of this symbol.  Fails with `PoisonError` through
    /// a poisoned guard, and with `InvalidSymbol` on a symbol carrying no
    /// text of its own (a procedurally generated one).
    pub fn name(&self, rt: &Julia) -> (r: Result<String, Error>)
        requires
            self.0.live(*rt),
        ensures
            match r {
                Ok(s) => !self.0.poisoned_in(*rt) && sym_name_of(
                    rt.store.vals@,
                    self.0.addr_of(*rt),
                ) == Some(s@),
                Err(e) => {
                    ||| (e == Error::PoisonError && self.0.poisoned_in(*rt))
                    ||| (e == Error::InvalidSymbol && !self.0.poisoned_in(*rt) && sym_name_of(
                        rt.store.vals@,
                        self.0.addr_of(*rt),
                    ) is None)
                },
            },
    {
        let a = match self.0.lock(rt) {
            Ok(a) => a,
            Err(e) => {
                return Err(e);
            },
        };
        match rt.store.get(a) {
            Some(JlData::Sym(s)) => Ok(s.clone()),
            _ => Err(Error::InvalidSymbol),
        }
    }

    /// Procedurally generates a new symbol.  Never fails; each call yields
    /// a symbol with a fresh serial number.  The serial counter saturates
    /// at a bound no real process reaches.
    pub fn gensym(rt: &mut Julia) -> (r: Symbol)
        ensures
            boxed(
                (Julia { gensym_counter: old(rt).gensym_counter, ..*old(rt) }),
                (Julia { gensym_counter: old(rt).gensym_counter, ..*final(rt) }),
                r.0,
                JlData::Gensym(old(rt).gensym_counter),
            ),
            final(rt).gensym_counter == if old(rt).gensym_counter < u64::MAX {
                (old(rt).gensym_counter + 1) as u64
            } else {
                old(rt).gensym_counter
            },
    {
        let serial = rt.gensym_counter;
        let sym = Symbol(rt.wrap_value(JlData::Gensym(serial)));
        if rt.gensym_counter < u64::MAX {
            rt.gensym_counter = rt.gensym_counter + 1;
        }
        sym
    }

    /// Returns the root symbol of the runtime's symbol table.  Never
    /// fails.
    pub fn get_root(rt: &mut Julia) -> (r: Symbol)
        ensures
            crate::api::datatype::minted(*old(rt), *final(rt), r.0, old(rt).wk.root_sym),
    {
        Symbol(Ref::wrap(rt, rt.wk.root_sym))
    }
}

/// Trait implemented by textual types which can be used to construct a
/// symbol.
pub trait IntoSymbol: Sized {
    /// The characters of the name this value carries.
    spec fn name_seq(&self) -> Seq<char>;

    /// Construct the symbol, validating the name and interning it.
    fn into_symbol(self, rt: &mut Julia) -> (r: Result<Symbol, Error>)
        ensures
            !valid_symbol_name(self.name_seq()) ==> r == Err::<Symbol, Error>(Error::InvalidSymbol)
                && *final(rt) == *old(rt),
            valid_symbol_name(self.name_seq()) && (exists|a: usize|
                sym_at(old(rt).store.vals@, a, self.name_seq())) ==> (r matches Ok(sym)
                && interned_symbol(*old(rt), *final(rt), sym, self.name_seq())),
            valid_symbol_name(self.name_seq()) && !(exists|a: usize|
                sym_at(old(rt).store.vals@, a, self.name_seq())) ==> (r matches Ok(sym)
                && named_symbol(*old(rt), *final(rt), sym, self.name_seq())),
    ;
}

impl IntoSymbol for &str {
    open spec fn name_seq(&self) -> Seq<char> {
        self@
    }

    fn into_symbol(self, rt: &mut Julia) -> (r: Result<Symbol, Error>) {
        Symbol::with_name(rt, self)
    }
}

impl IntoSymbol for String {
    open spec fn name_seq(&self) -> Seq<char> {
        self@
    }

    fn into_symbol(self, rt: &mut Julia) -> (r: Result<Symbol, Error>) {
        Symbol::with_name(rt, self.as_str())
    }
}

} // verus!
