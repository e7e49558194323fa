//! Main entry point to the binding's api: the runtime context, the garbage
//! collector switch, and the exception bridge around it.

pub mod cells;
pub mod heap;
pub mod array;
pub mod datatype;
pub mod exception;
pub mod expr;
pub mod function;
pub mod module;
pub mod primitive;
pub mod task;
pub mod reference;
pub mod sym;
pub mod value;

pub use self::array::{Array, ByteArray, Svec};
pub use self::datatype::{Datatype, Tuple, Type, TypeBuilder, Union, UnionAll, VarargKind};
pub use self::exception::Exception;
pub use self::expr::Expr;
pub use self::function::{Call, Function};
pub use self::module::Module;
pub use self::primitive::{
    AbstractFloat, Bool, Char, Complex, Int, Int16, Int32, Int64, Int8, Integer, Number, Pointer,
    Rational, Real, Signed, UInt, UInt16, UInt32, UInt64, UInt8, Unsigned, Void,
};
pub use self::reference::Ref;
pub use self::sym::{IntoSymbol, Symbol};
pub use self::task::Task;
pub use self::value::Value;

use vstd::prelude::*;

verus! {

use crate::error::Error;
use crate::version::Version;
use self::cells::CellTable;
use self::heap::{at, in_dom, DtyData, Heap, JlData, ModuleData};

/// Struct for controlling the foreign garbage collector.  The model keeps
/// the one piece of collector state the binding can observe and change: the
/// enable flag.  Collection itself is invisible to handles, because the
/// collector neither moves objects nor frees anything the host still
/// references.
#[derive(Debug)]
pub struct Gc {
    pub enabled: bool,
}

impl Gc {
    /// Enable or disable the garbage collector.
    pub fn enable(&mut self, p: bool)
        ensures
            final(self).enabled == p,
    {
        self.enabled = p;
    }

    /// Check to see if gc is enabled.
    pub fn is_enabled(&self) -> (r: bool)
        ensures
            r == self.enabled,
    {
        self.enabled
    }

    /// Collect immediately.  Set `full` to true if a full garbage collection
    /// should be issued.  Collection changes nothing the binding can see.
    pub fn collect(&mut self, full: bool)
        ensures
            final(self).enabled == old(self).enabled,
    {
    }
}

/// The addresses of the runtime's well-known singletons: the `nothing`
/// value, the built-in datatypes, and the root symbol.
#[derive(Debug)]
pub struct WellKnown {
    pub nothing: usize,
    pub any: usize,
    pub number: usize,
    pub signed: usize,
    pub abstract_float: usize,
    pub boolean: usize,
    pub character: usize,
    pub int8: usize,
    pub uint8: usize,
    pub int16: usize,
    pub uint16: usize,
    pub int32: usize,
    pub uint32: usize,
    pub int64: usize,
    pub uint64: usize,
    pub float16: usize,
    pub float32: usize,
    pub float64: usize,
    pub void: usize,
    pub complex: usize,
    pub void_pointer: usize,
    pub pointer: usize,
    pub root_sym: usize,
}

/// Whether `addr` holds a datatype called `name` on the heap `h`.
pub open spec fn dty_named(h: Seq<JlData>, addr: usize, name: Seq<char>) -> bool {
    &&& in_dom(h, addr)
    &&& at(h, addr) matches JlData::Dty(d) && d.name@ == name
}

/// Whether `addr` holds a module called `name` on the heap `h`.
pub open spec fn module_named(h: Seq<JlData>, addr: usize, name: Seq<char>) -> bool {
    &&& in_dom(h, addr)
    &&& at(h, addr) matches JlData::Module(m) && m.name@ == name
}

/// Whether the well-known registry of a context points at what its names
/// promise.
pub open spec fn wk_ok(h: Seq<JlData>, wk: WellKnown) -> bool {
    &&& in_dom(h, wk.nothing) && at(h, wk.nothing) is Nothing
    &&& dty_named(h, wk.any, "Any"@)
    &&& dty_named(h, wk.number, "Number"@)
    &&& dty_named(h, wk.signed, "Signed"@)
    &&& dty_named(h, wk.abstract_float, "AbstractFloat"@)
    &&& dty_named(h, wk.boolean, "Bool"@)
    &&& dty_named(h, wk.character, "Char"@)
    &&& dty_named(h, wk.int8, "Int8"@)
    &&& dty_named(h, wk.uint8, "UInt8"@)
    &&& dty_named(h, wk.int16, "Int16"@)
    &&& dty_named(h, wk.uint16, "UInt16"@)
    &&& dty_named(h, wk.int32, "Int32"@)
    &&& dty_named(h, wk.uint32, "UInt32"@)
    &&& dty_named(h, wk.int64, "Int64"@)
    &&& dty_named(h, wk.uint64, "UInt64"@)
    &&& dty_named(h, wk.float16, "Float16"@)
    &&& dty_named(h, wk.float32, "Float32"@)
    &&& dty_named(h, wk.float64, "Float64"@)
    &&& dty_named(h, wk.void, "Void"@)
    &&& dty_named(h, wk.complex, "Complex"@)
    &&& dty_named(h, wk.void_pointer, "Ptr"@)
    &&& dty_named(h, wk.pointer, "Ptr"@)
    &&& in_dom(h, wk.root_sym) && at(h, wk.root_sym) is Sym
}

/// Struct for controlling the foreign runtime: the explicit context that
/// stands for the runtime's process-wide state.  It owns the model of the
/// foreign heap, the table of handle cells, the pending-exception slot and
/// the well-known singletons.
#[derive(Debug)]
pub struct Julia {
    pub store: Heap,
    pub cells: CellTable,
    /// The pending-exception slot: the address of an in-flight, uncaught
    /// fault, if one is set.
    pub pending: Option<usize>,
    pub gc: Gc,
    pub main_addr: usize,
    pub core_addr: usize,
    pub base_addr: usize,
    pub top_addr: usize,
    pub at_exit: Option<i32>,
    pub gensym_counter: u64,
    /// The finalizers registered so far: pairs of an object address and
    /// the address of the function to run when the object is collected.
    pub finalizers: Vec<(usize, usize)>,
    /// The addresses whose finalization the host forced, in order.
    pub finalized: Vec<usize>,
    pub wk: WellKnown,
}

/// Record a datatype with the given name, supertype and flags on the heap.
fn intern_dty(
    h: &mut Heap,
    name: &str,
    supertype: usize,
    is_abstract: bool,
    is_primitive: bool,
    nbits: usize,
) -> (addr: usize)
    ensures
        final(h).vals@.len() == old(h).vals@.len() + 1,
        addr == old(h).vals@.len() + 1,
        forall|a: usize|
            in_dom(old(h).vals@, a) ==> in_dom(final(h).vals@, a) && at(final(h).vals@, a) == at(
                old(h).vals@,
                a,
            ),
        dty_named(final(h).vals@, addr, name@),
{
    h.intern(
        JlData::Dty(
            DtyData {
                name: String::from_str(name),
                supertype,
                params: Vec::new(),
                fnames: Vec::new(),
                ftypes: Vec::new(),
                is_abstract,
                is_mutable: false,
                is_primitive,
                nbits,
                ninitialized: false,
            },
        ),
    )
}

/// Record a module with the given name and no bindings on the heap.
fn intern_module(h: &mut Heap, name: &str) -> (addr: usize)
    ensures
        final(h).vals@.len() == old(h).vals@.len() + 1,
        addr == old(h).vals@.len() + 1,
        forall|a: usize|
            in_dom(old(h).vals@, a) ==> in_dom(final(h).vals@, a) && at(final(h).vals@, a) == at(
                old(h).vals@,
                a,
            ),
        module_named(final(h).vals@, addr, name@),
        at(final(h).vals@, addr) matches JlData::Module(m) && m.bindings@ == Seq::<
            crate::api::heap::Binding,
        >::empty(),
{
    h.intern(JlData::Module(ModuleData { name: String::from_str(name), bindings: Vec::new() }))
}

impl Julia {
    /// Initialize the runtime and return the context that stands for it.
    ///
    /// The runtime's single-initialization state is process-wide and outside
    /// this library; the caller reports through `initialized_elsewhere`
    /// whether some other party already started the runtime in this process.
    /// Starting it a second time fails with `JuliaInitialized` rather than
    /// re-entering.
    pub fn new(initialized_elsewhere: bool) -> (r: Result<Julia, Error>)
        ensures
            initialized_elsewhere <==> r == Err::<Julia, Error>(Error::JuliaInitialized),
            match r {
                Ok(jl) => {
                    &&& jl.pending is None
                    &&& jl.cells.slots@.len() == 0
                    &&& wk_ok(jl.store.vals@, jl.wk)
                    &&& module_named(jl.store.vals@, jl.main_addr, "Main"@)
                    &&& module_named(jl.store.vals@, jl.core_addr, "Core"@)
                    &&& module_named(jl.store.vals@, jl.base_addr, "Base"@)
                    &&& jl.top_addr == jl.main_addr
                    &&& at(jl.store.vals@, jl.main_addr) matches JlData::Module(m)
                        && m.bindings@ == Seq::<crate::api::heap::Binding>::empty()
                    &&& jl.at_exit == Some(0i32)
                    &&& jl.gc.enabled
                    &&& jl.finalizers@.len() == 0
                    &&& jl.finalized@.len() == 0
                },
                Err(e) => e == Error::JuliaInitialized,
            },
    {
        if initialized_elsewhere {
            return Err(Error::JuliaInitialized);
        }
        let mut h = Heap::new();
        let nothing = h.intern(JlData::Nothing);
        let any = intern_dty(&mut h, "Any", 0, true, false, 0);
        let number = intern_dty(&mut h, "Number", any, true, false, 0);
        let signed = intern_dty(&mut h, "Signed", number, true, false, 0);
        let abstract_float = intern_dty(&mut h, "AbstractFloat", number, true, false, 0);
        let boolean = intern_dty(&mut h, "Bool", signed, false, true, 8);
        let character = intern_dty(&mut h, "Char", any, false, true, 32);
        let int8 = intern_dty(&mut h, "Int8", signed, false, true, 8);
        let uint8 = intern_dty(&mut h, "UInt8", number, false, true, 8);
        let int16 = intern_dty(&mut h, "Int16", signed, false, true, 16);
        let uint16 = intern_dty(&mut h, "UInt16", number, false, true, 16);
        let int32 = intern_dty(&mut h, "Int32", signed, false, true, 32);
        let uint32 = intern_dty(&mut h, "UInt32", number, false, true, 32);
        let int64 = intern_dty(&mut h, "Int64", signed, false, true, 64);
        let uint64 = intern_dty(&mut h, "UInt64", number, false, true, 64);
        let float16 = intern_dty(&mut h, "Float16", abstract_float, false, true, 16);
        let float32 = intern_dty(&mut h, "Float32", abstract_float, false, true, 32);
        let float64 = intern_dty(&mut h, "Float64", abstract_float, false, true, 64);
        let void = intern_dty(&mut h, "Void", any, false, false, 0);
        let complex = intern_dty(&mut h, "Complex", number, false, false, 0);
        let void_pointer = intern_dty(&mut h, "Ptr", any, false, true, 64);
        let pointer = intern_dty(&mut h, "Ptr", any, false, true, 64);
        let root_sym = h.intern(JlData::Sym(String::new()));
        let main_addr = intern_module(&mut h, "Main");
        let core_addr = intern_module(&mut h, "Core");
        let base_addr = intern_module(&mut h, "Base");
        Ok(
            Julia {
                store: h,
                cells: CellTable::new(),
                pending: None,
                gc: Gc { enabled: true },
                main_addr,
                core_addr,
                base_addr,
                top_addr: main_addr,
                at_exit: Some(0),
                gensym_counter: 0,
                finalizers: Vec::new(),
                finalized: Vec::new(),
                wk: WellKnown {
                    nothing,
                    any,
                    number,
                    signed,
                    abstract_float,
                    boolean,
                    character,
                    int8,
                    uint8,
                    int16,
                    uint16,
                    int32,
                    uint32,
                    int64,
                    uint64,
                    float16,
                    float32,
                    float64,
                    void,
                    complex,
                    void_pointer,
                    pointer,
                    root_sym,
                },
            },
        )
    }

    /// Checks whether the runtime this context stands for is initialized.
    /// A context only exists for an initialized runtime.
    pub fn is_initialized(&self) -> (r: bool)
        ensures
            r,
    {
        true
    }

    /// Returns the version of the running foreign runtime.  The model
    /// stands for one fixed runtime release, so the numbers are constants
    /// rather than values read over the ABI.
    pub fn version(&self) -> (v: Version)
        ensures
            v.name@ == "julia"@,
            v.major == 0,
            v.minor == 6,
            v.patch == 2,
    {
        Version {
            name: "julia",
            major: 0,
            minor: 6,
            patch: 2,
            release: true,
            branch: None,
            commit: None,
        }
    }

    /// Returns a reference to the garbage collector.
    pub fn gc(&self) -> (r: &Gc)
        ensures
            r == &self.gc,
    {
        &self.gc
    }

    /// Returns a mutable reference to the garbage collector.
    pub fn gc_mut(&mut self) -> (r: &mut Gc)
        ensures
            *r == old(self).gc,
            *final(self) == (Julia { gc: *final(r), ..*old(self) }),
    {
        &mut self.gc
    }

    /// Sets status to `at_exit` and consumes the context, tearing the
    /// runtime down with that status.
    pub fn exit(self, at_exit: i32) {
        let mut jl = self;
        jl.at_exit(Some(at_exit));
    }

    /// Sets the status the runtime will exit with.
    pub fn at_exit(&mut self, at_exit: Option<i32>)
        ensures
            *final(self) == (Julia { at_exit, ..*old(self) }),
    {
        self.at_exit = at_exit;
    }
}

} // verus!
