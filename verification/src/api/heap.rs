//! The model of the foreign heap.
//!
//! The foreign runtime owns every value the binding touches; the host only
//! ever sees addresses.  This module gives the runtime context an explicit
//! store mapping each address to the value the foreign side put there, as
//! far as the binding can observe it: boxed scalars, strings, symbols,
//! ordered sequences, modules with their global bindings, functions, data
//! types and struct instances.  Addresses start at 1 — address 0 is the
//! null pointer and never names a value — and are never reused, matching a
//! non-moving view of the foreign collector.

use vstd::prelude::*;

verus! {

/// One global binding of a module: a name, the bound address, and whether
/// the binding was declared constant.
#[derive(Debug)]
pub struct Binding {
    pub name: String,
    pub value: usize,
    pub constant: bool,
}

/// The observable content of a module.
#[derive(Debug)]
pub struct ModuleData {
    pub name: String,
    pub bindings: Vec<Binding>,
}

/// One named field of a struct instance.
#[derive(Debug)]
pub struct FieldVal {
    pub name: String,
    pub value: usize,
}

/// The observable content of a struct instance: the address of its
/// datatype, the datatype's name, and the field values in declaration
/// order.
#[derive(Debug)]
pub struct StructData {
    pub ty: usize,
    pub typename: String,
    pub fields: Vec<FieldVal>,
}

/// The observable content of a datatype: its name, supertype address,
/// field names and field types, and the flags the type was registered
/// with.
#[derive(Debug)]
pub struct DtyData {
    pub name: String,
    pub supertype: usize,
    pub params: Vec<usize>,
    pub fnames: Vec<String>,
    pub ftypes: Vec<usize>,
    pub is_abstract: bool,
    pub is_mutable: bool,
    pub is_primitive: bool,
    pub nbits: usize,
    pub ninitialized: bool,
}

/// The observable content of a raw-bits value: the address and name of
/// the primitive datatype it instantiates, and its bytes.
#[derive(Debug)]
pub struct BitsData {
    pub ty: usize,
    pub typename: String,
    pub data: Vec<u8>,
}

/// The observable content of a one-dimensional array: the address of its
/// element type and the element addresses in order.
#[derive(Debug)]
pub struct ArrayData {
    pub ty: usize,
    pub elems: Vec<usize>,
}

/// A value on the foreign heap, as far as the binding observes it.
#[derive(Debug)]
pub enum JlData {
    /// The `nothing` singleton.
    Nothing,
    Bool(bool),
    Char(char),
    Int8(i8),
    Int16(i16),
    Int32(i32),
    Int64(i64),
    /// A boxed machine-word signed integer.
    Isize(isize),
    UInt8(u8),
    UInt16(u16),
    UInt32(u32),
    UInt64(u64),
    /// A boxed machine-word unsigned integer.
    Usize(usize),
    /// A foreign string.
    Str(String),
    /// An interned symbol.
    Sym(String),
    /// A procedurally generated symbol, distinguished by its serial number.
    Gensym(u64),
    /// A simple vector of value addresses.
    Svec(Vec<usize>),
    /// A byte array, stored contiguously.
    Bytes(Vec<u8>),
    /// A one-dimensional array of values.
    Array(ArrayData),
    Module(ModuleData),
    /// A callable function object.
    Func(String),
    /// A registered datatype.
    Dty(DtyData),
    /// An instance of a struct type.
    StructVal(StructData),
    /// An instance of a primitive type built from raw bits.
    Bits(BitsData),
    /// A cooperative unit of foreign execution, holding its start function.
    Task(usize),
    /// A parsed but unevaluated expression.
    Expr(String),
    /// A union of the types at the given addresses.
    UnionTy(Vec<usize>),
}

/// Whether `addr` names a value of the heap `h`.
pub open spec fn in_dom(h: Seq<JlData>, addr: usize) -> bool {
    1 <= addr <= h.len()
}

/// The value at `addr`; meaningful only when `in_dom(h, addr)`.
pub open spec fn at(h: Seq<JlData>, addr: usize) -> JlData
    recommends
        in_dom(h, addr),
{
    h[addr - 1]
}

/// The textual name of the dynamic type of the value at `addr`.  An address
/// the model holds no value for is reported as the top type: the binding
/// treats type names as advisory and never fails over them.
pub open spec fn typename_of(h: Seq<JlData>, addr: usize) -> Seq<char> {
    if !in_dom(h, addr) {
        "Any"@
    } else {
        match at(h, addr) {
            JlData::Nothing => "Nothing"@,
            JlData::Bool(_) => "Bool"@,
            JlData::Char(_) => "Char"@,
            JlData::Int8(_) => "Int8"@,
            JlData::Int16(_) => "Int16"@,
            JlData::Int32(_) => "Int32"@,
            JlData::Int64(_) => "Int64"@,
            JlData::Isize(_) => "Int64"@,
            JlData::UInt8(_) => "UInt8"@,
            JlData::UInt16(_) => "UInt16"@,
            JlData::UInt32(_) => "UInt32"@,
            JlData::UInt64(_) => "UInt64"@,
            JlData::Usize(_) => "UInt64"@,
            JlData::Str(_) => "String"@,
            JlData::Sym(_) => "Symbol"@,
            JlData::Gensym(_) => "Symbol"@,
            JlData::Svec(_) => "SimpleVector"@,
            JlData::Bytes(_) => "Array"@,
            JlData::Array(_) => "Array"@,
            JlData::Module(_) => "Module"@,
            JlData::Func(_) => "Function"@,
            JlData::Dty(_) => "DataType"@,
            JlData::StructVal(s) => s.typename@,
            JlData::Bits(b) => b.typename@,
            JlData::Task(_) => "Task"@,
            JlData::Expr(_) => "Expr"@,
            JlData::UnionTy(_) => "Union"@,
        }
    }
}

/// String equality on character content.
pub(crate) fn streq(a: &str, b: &str) -> (r: bool)
    ensures
        r == (a@ == b@),
{
    let x = a.to_owned();
    let y = b.to_owned();
    x == y
}

/// The store of every foreign value the model has observed.  The value at
/// address `a` sits at index `a - 1`.
#[derive(Debug)]
pub struct Heap {
    pub vals: Vec<JlData>,
}

impl Heap {
    /// An empty heap.
    pub fn new() -> (h: Heap)
        ensures
            h.vals@ == Seq::<JlData>::empty(),
    {
        Heap { vals: Vec::new() }
    }

    /// Record a freshly allocated foreign value and return its address.
    pub fn intern(&mut self, d: JlData) -> (addr: usize)
        ensures
            final(self).vals@ == old(self).vals@.push(d),
            addr == old(self).vals@.len() + 1,
            addr != 0,
            in_dom(final(self).vals@, addr),
            at(final(self).vals@, addr) == d,
    {
        self.vals.push(d);
        self.vals.len()
    }

    /// The value at `addr`, if the model holds one.
    pub fn get(&self, addr: usize) -> (r: Option<&JlData>)
        ensures
            match r {
                Some(d) => in_dom(self.vals@, addr) && *d == at(self.vals@, addr),
                None => !in_dom(self.vals@, addr),
            },
    {
        if addr >= 1 && addr <= self.vals.len() {
            Some(&self.vals[addr - 1])
        } else {
            None
        }
    }

    /// Overwrite the value at `addr`, modelling an in-place mutation the
    /// foreign runtime performed on an existing object.
    pub fn put(&mut self, addr: usize, d: JlData)
        requires
            in_dom(old(self).vals@, addr),
        ensures
            final(self).vals@ == old(self).vals@.update(addr - 1, d),
    {
        self.vals[addr - 1] = d;
    }

    /// Exchange the value at `addr` for `d`, returning what was there.
    pub fn swap(&mut self, addr: usize, d: JlData) -> (r: JlData)
        requires
            in_dom(old(self).vals@, addr),
        ensures
            r == at(old(self).vals@, addr),
            final(self).vals@ == old(self).vals@.update(addr - 1, d),
    {
        let mut x = d;
        core::mem::swap(&mut x, &mut self.vals[addr - 1]);
        x
    }

    /// The textual name of the dynamic type of the value at `addr`.
    pub fn typename(&self, addr: usize) -> (r: String)
        ensures
            r@ == typename_of(self.vals@, addr),
    {
        match self.get(addr) {
            None => String::from_str("Any"),
            Some(d) => match d {
                JlData::Nothing => String::from_str("Nothing"),
                JlData::Bool(_) => String::from_str("Bool"),
                JlData::Char(_) => String::from_str("Char"),
                JlData::Int8(_) => String::from_str("Int8"),
                JlData::Int16(_) => String::from_str("Int16"),
                JlData::Int32(_) => String::from_str("Int32"),
                JlData::Int64(_) => String::from_str("Int64"),
                JlData::Isize(_) => String::from_str("Int64"),
                JlData::UInt8(_) => String::from_str("UInt8"),
                JlData::UInt16(_) => String::from_str("UInt16"),
                JlData::UInt32(_) => String::from_str("UInt32"),
                JlData::UInt64(_) => String::from_str("UInt64"),
                JlData::Usize(_) => String::from_str("UInt64"),
                JlData::Str(_) => String::from_str("String"),
                JlData::Sym(_) => String::from_str("Symbol"),
                JlData::Gensym(_) => String::from_str("Symbol"),
                JlData::Svec(_) => String::from_str("SimpleVector"),
                JlData::Bytes(_) => String::from_str("Array"),
                JlData::Array(_) => String::from_str("Array"),
                JlData::Module(_) => String::from_str("Module"),
                JlData::Func(_) => String::from_str("Function"),
                JlData::Dty(_) => String::from_str("DataType"),
                JlData::StructVal(s) => s.typename.clone(),
                JlData::Bits(b) => b.typename.clone(),
                JlData::Task(_) => String::from_str("Task"),
                JlData::Expr(_) => String::from_str("Expr"),
                JlData::UnionTy(_) => String::from_str("Union"),
            },
        }
    }
}

} // verus!
