//! The native side of the bridge, as an instrumented model.
//!
//! Store objects, engine boxes and language handles live behind an opaque
//! boundary: they are allocated on the native side and named on this side
//! only by opaque handles. [`Host`] stands for that boundary. It tracks every
//! store object ever created, the engine box each one owns, every module
//! load call it receives and every destroy call made on a store, so that the
//! ownership discipline — one owner at a time, one destruction ever — is a
//! proved invariant rather than a convention.

use vstd::prelude::*;

verus! {

/// Whether a byte sequence contains a null byte anywhere.
pub open spec fn has_nul_byte(s: Seq<u8>) -> bool {
    exists|i: int| 0 <= i < s.len() && s[i] == 0u8
}

/// A well-formed C-style name: null-terminated, with no embedded terminator.
pub open spec fn valid_c_name(s: Seq<u8>) -> bool {
    &&& s.len() >= 1
    &&& s[s.len() - 1] == 0u8
    &&& !has_nul_byte(s.drop_last())
}

/// The host accepts a module exactly when it opens with the bytecode
/// container magic. Anything deeper — validation, compilation, trapping —
/// is the compute engine's own concern and stays behind the boundary; this
/// is the boundary's observable acceptance rule.
pub open spec fn valid_module_bytes(b: Seq<u8>) -> bool {
    &&& b.len() >= 4
    &&& b[0] == 0x00u8
    &&& b[1] == 0x61u8
    &&& b[2] == 0x73u8
    &&& b[3] == 0x6du8
}

/// A handle to a reference-counted compute-engine instance. Handles are
/// copied at will; copies name the same instance.
#[derive(Clone, Copy, Debug, PartialEq, Eq, Structural)]
pub struct Engine {
    id: u64,
}

impl Engine {
    /// The identity of the underlying compute-engine instance.
    pub closed spec fn spec_id(self) -> u64 {
        self.id
    }
}

/// The heap record whose address crosses the boundary when a store is
/// created. It carries a clone of the engine handle; the native store owns
/// it from the moment it is handed over, and the wrapper never frees it.
#[allow(non_camel_case_types)]
#[derive(Clone, Copy)]
pub struct wasm_engine_t {
    pub(crate) engine: Engine,
}

/// An opaque handle to a loaded grammar, either natively compiled or
/// bytecode-backed. Handles are plain values, copied freely; the native
/// object behind one lives as long as the store that produced it.
#[derive(Clone, Copy, Debug, PartialEq, Eq, Structural)]
pub struct Language {
    id: usize,
    bytecode: bool,
}

impl Language {
    /// The index of the loaded module this handle refers to.
    pub closed spec fn spec_id(self) -> int {
        self.id as int
    }

    /// Whether the grammar behind this handle is bytecode-backed.
    pub closed spec fn is_wasm_spec(self) -> bool {
        self.bytecode
    }

    /// Whether this grammar's matching logic runs as bytecode on the compute
    /// engine. A pure query: the result is a function of the handle alone
    /// and nothing is mutated, so repeated calls on the same handle return
    /// the same answer.
    pub fn is_wasm(&self) -> (r: bool)
        ensures
            r == self.is_wasm_spec(),
    {
        self.bytecode
    }
}

/// The lifecycle of a native store object. `Live` means its wrapper owns it;
/// `Attached` means a parser owns it; `Destroyed` is terminal. Exactly one
/// of `Attached` and `Destroyed` is ever reached from `Live` first, and a
/// destroyed store never leaves that state.
#[derive(Clone, Copy, Debug, PartialEq, Eq, Structural)]
pub enum StoreState {
    Live,
    Attached,
    Destroyed,
}

/// One native store object: the engine box it owns, its lifecycle state and
/// the number of destroy calls it has received.
#[derive(Clone, Copy)]
struct StoreSlot {
    engine_box: wasm_engine_t,
    box_freed: bool,
    state: StoreState,
    destroy_calls: u64,
}

impl StoreSlot {
    /// Destroy calls track the lifecycle exactly: one destroy the moment the
    /// store is destroyed, none before; the engine box is freed with it.
    spec fn wf_slot(self) -> bool {
        &&& self.destroy_calls == (if self.state is Destroyed {
            1u64
        } else {
            0u64
        })
        &&& self.box_freed == (self.state is Destroyed)
    }
}

/// One successfully loaded module: the store it was loaded into and the name
/// it was loaded under (without the terminator).
struct ModuleSlot {
    store: usize,
    name: Vec<u8>,
}

/// The instrumented native boundary: every store object, engine box, loaded
/// module and native call, with the single-ownership invariant over them.
pub struct Host {
    engines: u64,
    stores: Vec<StoreSlot>,
    modules: Vec<ModuleSlot>,
    loads: u64,
}

impl Host {
    /// How many store objects the native side has allocated, ever.
    pub closed spec fn store_count(self) -> int {
        self.stores@.len() as int
    }

    /// The lifecycle state of store object `i`.
    pub closed spec fn store_state(self, i: int) -> StoreState
        recommends
            0 <= i < self.store_count(),
    {
        self.stores@[i].state
    }

    /// How many destroy calls store object `i` has received.
    pub closed spec fn destroy_calls(self, i: int) -> u64
        recommends
            0 <= i < self.store_count(),
    {
        self.stores@[i].destroy_calls
    }

    /// Whether the engine box owned by store object `i` has been freed.
    pub closed spec fn box_freed(self, i: int) -> bool
        recommends
            0 <= i < self.store_count(),
    {
        self.stores@[i].box_freed
    }

    /// The engine handle boxed for store object `i`.
    pub closed spec fn store_engine(self, i: int) -> Engine
        recommends
            0 <= i < self.store_count(),
    {
        self.stores@[i].engine_box.engine
    }

    /// How many modules have been loaded successfully, across all stores.
    pub closed spec fn module_count(self) -> int {
        self.modules@.len() as int
    }

    /// The store that module `m` was loaded into.
    pub closed spec fn module_store(self, m: int) -> int
        recommends
            0 <= m < self.module_count(),
    {
        self.modules@[m].store as int
    }

    /// The name module `m` was loaded under, without the terminator.
    pub closed spec fn module_name(self, m: int) -> Seq<u8>
        recommends
            0 <= m < self.module_count(),
    {
        self.modules@[m].name@
    }

    /// How many load calls the native side has received, failures included.
    pub closed spec fn load_calls(self) -> u64 {
        self.loads
    }

    /// How many compute-engine instances have been handed out.
    pub closed spec fn engine_count(self) -> u64 {
        self.engines
    }

    /// The boundary invariant: every store object has seen exactly as many
    /// destroy calls as its state allows — one when destroyed, none before —
    /// its engine box is freed exactly when it is destroyed, and every
    /// recorded module names an existing store under a valid name.
    pub closed spec fn wf(self) -> bool {
        &&& (forall|i: int|
            0 <= i < self.stores@.len() ==> (#[trigger] self.stores@[i]).wf_slot())
        &&& (forall|m: int|
            0 <= m < self.modules@.len() ==> {
                &&& (#[trigger] self.modules@[m]).store < self.stores@.len()
                &&& !has_nul_byte(self.modules@[m].name@)
            })
        &&& self.modules@.len() as int <= self.loads as int
    }

    /// A fresh boundary: no engines, no stores, no modules, no native calls.
    pub fn new() -> (h: Host)
        ensures
            h.wf(),
            h.store_count() == 0,
            h.module_count() == 0,
            h.load_calls() == 0,
            h.engine_count() == 0,
    {
        Host { engines: 0, stores: Vec::new(), modules: Vec::new(), loads: 0 }
    }

    /// Hand out a handle to a freshly initialized compute-engine instance.
    /// Construction has no failure mode at this layer; whatever can go wrong
    /// inside the engine is its own concern.
    pub fn new_engine(&mut self) -> (e: Engine)
        requires
            old(self).wf(),
            old(self).engine_count() < u64::MAX,
        ensures
            final(self).wf(),
            final(self).engine_count() == old(self).engine_count() + 1,
            e.spec_id() == old(self).engine_count(),
            stores_unchanged(*old(self), *final(self)),
            modules_unchanged(*old(self), *final(self)),
            final(self).load_calls() == old(self).load_calls(),
    {
        let e = Engine { id: self.engines };
        self.engines = self.engines + 1;
        e
    }

    /// Create-store at the boundary: the native side takes ownership of the
    /// engine box handed over and allocates a store object referencing it.
    pub(crate) fn store_new(&mut self, c_engine: wasm_engine_t) -> (id: usize)
        requires
            old(self).wf(),
        ensures
            final(self).wf(),
            id as int == old(self).store_count(),
            final(self).store_count() == old(self).store_count() + 1,
            final(self).store_state(id as int) is Live,
            final(self).destroy_calls(id as int) == 0,
            !final(self).box_freed(id as int),
            final(self).store_engine(id as int) == c_engine.engine,
            old_stores_unchanged(*old(self), *final(self)),
            modules_unchanged(*old(self), *final(self)),
            final(self).load_calls() == old(self).load_calls(),
            final(self).engine_count() == old(self).engine_count(),
    {
        let id = self.stores.len();
        self.stores.push(
            StoreSlot {
                engine_box: c_engine,
                box_freed: false,
                state: StoreState::Live,
                destroy_calls: 0,
            },
        );
        id
    }

    /// Load-language at the boundary: the native store checks the module
    /// bytes against the bytecode container magic and either records the
    /// module and yields a bytecode-backed handle, or reports failure. The
    /// name must arrive null-terminated with no embedded terminator.
    pub(crate) fn load_module(&mut self, store: usize, name_z: Vec<u8>, bytes: &[u8]) -> (r: Option<
        Language,
    >)
        requires
            old(self).wf(),
            (store as int) < old(self).store_count(),
            old(self).store_state(store as int) is Live,
            valid_c_name(name_z@),
            old(self).load_calls() < u64::MAX,
        ensures
            final(self).wf(),
            final(self).load_calls() == old(self).load_calls() + 1,
            stores_unchanged(*old(self), *final(self)),
            final(self).engine_count() == old(self).engine_count(),
            (r is Some) <==> valid_module_bytes(bytes@),
            r is Some ==> {
                &&& r->Some_0.spec_id() == old(self).module_count()
                &&& r->Some_0.is_wasm_spec()
                &&& final(self).module_count() == old(self).module_count() + 1
                &&& final(self).module_store(old(self).module_count()) == store as int
                &&& final(self).module_name(old(self).module_count()) == name_z@.drop_last()
                &&& old_modules_unchanged(*old(self), *final(self))
            },
            r is None ==> modules_unchanged(*old(self), *final(self)),
    {
        self.loads = self.loads + 1;
        let ok = bytes.len() >= 4 && bytes[0] == 0x00u8 && bytes[1] == 0x61u8 && bytes[2] == 0x73u8
            && bytes[3] == 0x6du8;
        if ok {
            let id = self.modules.len();
            let mut name = name_z;
            let _ = name.pop();
            self.modules.push(ModuleSlot { store, name });
            Some(Language { id, bytecode: true })
        } else {
            None
        }
    }

    /// Delete-store at the boundary: destroys a store object that was never
    /// destroyed before, and frees the engine box it owned.
    pub(crate) fn store_delete(&mut self, id: usize)
        requires
            old(self).wf(),
            (id as int) < old(self).store_count(),
            !(old(self).store_state(id as int) is Destroyed),
        ensures
            final(self).wf(),
            final(self).store_count() == old(self).store_count(),
            final(self).store_state(id as int) is Destroyed,
            final(self).destroy_calls(id as int) == 1,
            final(self).box_freed(id as int),
            final(self).store_engine(id as int) == old(self).store_engine(id as int),
            stores_unchanged_except(*old(self), *final(self), id as int),
            modules_unchanged(*old(self), *final(self)),
            final(self).load_calls() == old(self).load_calls(),
            final(self).engine_count() == old(self).engine_count(),
    {
        proof {
            assert(old(self).stores@[id as int].wf_slot());
        }
        let slot = self.stores[id];
        self.stores[id] = StoreSlot {
            engine_box: slot.engine_box,
            box_freed: true,
            state: StoreState::Destroyed,
            destroy_calls: slot.destroy_calls + 1,
        };
    }

    /// Set-wasm-store on the native parser: the parser takes over ownership
    /// of a live store object. Nothing is destroyed here; the store merely
    /// changes owner.
    pub(crate) fn store_attach(&mut self, id: usize)
        requires
            old(self).wf(),
            (id as int) < old(self).store_count(),
            old(self).store_state(id as int) is Live,
        ensures
            final(self).wf(),
            final(self).store_count() == old(self).store_count(),
            final(self).store_state(id as int) is Attached,
            final(self).destroy_calls(id as int) == 0,
            !final(self).box_freed(id as int),
            final(self).store_engine(id as int) == old(self).store_engine(id as int),
            stores_unchanged_except(*old(self), *final(self), id as int),
            modules_unchanged(*old(self), *final(self)),
            final(self).load_calls() == old(self).load_calls(),
            final(self).engine_count() == old(self).engine_count(),
    {
        proof {
            assert(old(self).stores@[id as int].wf_slot());
        }
        let slot = self.stores[id];
        self.stores[id] = StoreSlot {
            engine_box: slot.engine_box,
            box_freed: slot.box_freed,
            state: StoreState::Attached,
            destroy_calls: slot.destroy_calls,
        };
    }

    /// The number of store objects the native side has allocated, ever.
    pub fn num_stores(&self) -> (n: usize)
        ensures
            n as int == self.store_count(),
    {
        self.stores.len()
    }

    /// How many destroy calls the given store object has received.
    pub fn store_destroy_calls(&self, id: usize) -> (n: u64)
        requires
            (id as int) < self.store_count(),
        ensures
            n == self.destroy_calls(id as int),
    {
        self.stores[id].destroy_calls
    }

    /// Whether the given store object has been destroyed.
    pub fn store_is_destroyed(&self, id: usize) -> (b: bool)
        requires
            (id as int) < self.store_count(),
        ensures
            b == (self.store_state(id as int) is Destroyed),
    {
        matches!(self.stores[id].state, StoreState::Destroyed)
    }

    /// How many load calls the native side has received, failures included.
    pub fn native_load_calls(&self) -> (n: u64)
        ensures
            n == self.load_calls(),
    {
        self.loads
    }

    /// How many modules have been loaded successfully, across all stores.
    pub fn num_modules(&self) -> (n: usize)
        ensures
            n as int == self.module_count(),
    {
        self.modules.len()
    }
}

/// Store object `i` looks the same at both boundary states: same lifecycle
/// state, destroy count, box state and boxed engine.
pub open spec fn store_unchanged(h1: Host, h2: Host, i: int) -> bool {
    &&& h2.store_state(i) == h1.store_state(i)
    &&& h2.destroy_calls(i) == h1.destroy_calls(i)
    &&& h2.box_freed(i) == h1.box_freed(i)
    &&& h2.store_engine(i) == h1.store_engine(i)
}

/// No store object changed between the two boundary states.
pub open spec fn stores_unchanged(h1: Host, h2: Host) -> bool {
    &&& h2.store_count() == h1.store_count()
    &&& (forall|i: int|
        #![trigger h2.store_state(i)]
        #![trigger h2.destroy_calls(i)]
        #![trigger h2.box_freed(i)]
        #![trigger h2.store_engine(i)]
        0 <= i < h1.store_count() ==> store_unchanged(h1, h2, i))
}

/// No store object but `except` changed between the two boundary states.
pub open spec fn stores_unchanged_except(h1: Host, h2: Host, except: int) -> bool {
    &&& h2.store_count() == h1.store_count()
    &&& (forall|i: int|
        #![trigger h2.store_state(i)]
        #![trigger h2.destroy_calls(i)]
        #![trigger h2.box_freed(i)]
        #![trigger h2.store_engine(i)]
        0 <= i < h1.store_count() && i != except ==> store_unchanged(h1, h2, i))
}

/// Every store object of the first boundary state is unchanged in the
/// second, which may hold more.
pub open spec fn old_stores_unchanged(h1: Host, h2: Host) -> bool {
    forall|i: int|
        #![trigger h2.store_state(i)]
        #![trigger h2.destroy_calls(i)]
        #![trigger h2.box_freed(i)]
        #![trigger h2.store_engine(i)]
        0 <= i < h1.store_count() ==> store_unchanged(h1, h2, i)
}

/// Module record `m` is the same in both boundary states.
pub open spec fn module_unchanged(h1: Host, h2: Host, m: int) -> bool {
    &&& h2.module_store(m) == h1.module_store(m)
    &&& h2.module_name(m) == h1.module_name(m)
}

/// Every module record of the first boundary state is unchanged in the
/// second, which may hold more.
pub open spec fn old_modules_unchanged(h1: Host, h2: Host) -> bool {
    forall|m: int|
        #![trigger h2.module_store(m)]
        #![trigger h2.module_name(m)]
        0 <= m < h1.module_count() ==> module_unchanged(h1, h2, m)
}

/// No module record changed between the two boundary states.
pub open spec fn modules_unchanged(h1: Host, h2: Host) -> bool {
    &&& h2.module_count() == h1.module_count()
    &&& old_modules_unchanged(h1, h2)
}

/// Single-ownership law: under the boundary invariant, a store object has
/// seen at most one destroy call; it has seen one exactly when it is in its
/// terminal destroyed state; and its engine box is freed exactly when the
/// store that owns it is destroyed — never while the store lives.
pub proof fn lemma_single_destruction(h: Host, i: int)
    requires
        h.wf(),
        0 <= i < h.store_count(),
    ensures
        h.destroy_calls(i) <= 1,
        (h.destroy_calls(i) == 1) <==> (h.store_state(i) is Destroyed),
        h.box_freed(i) <==> (h.store_state(i) is Destroyed),
{
    assert(h.stores@[i].wf_slot());
}

} // verus!
