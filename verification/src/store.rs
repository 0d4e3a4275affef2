//! The module store wrapper: sole owner of one native store object.
//!
//! A [`WasmStore`] is constructed against an engine handle, loads any number
//! of named bytecode modules, and then ends in exactly one of two ways: it
//! is disposed of, destroying the native object, or it is transferred into a
//! parser, which takes over that responsibility. Both paths consume the
//! wrapper, so the "destroy exactly once" rule holds by construction: no
//! handle survives through which the object could be destroyed again.

use vstd::prelude::*;

use crate::error::LanguageError;
use crate::host::{
    has_nul_byte, modules_unchanged, old_modules_unchanged, old_stores_unchanged,
    stores_unchanged, stores_unchanged_except, valid_c_name, valid_module_bytes, Engine, Host,
    Language, wasm_engine_t,
};
use vstd::string::StringSliceAdditionalSpecFns;

verus! {

/// The exclusive owner of one native store object, identified by the opaque
/// handle the native side returned at creation.
pub struct WasmStore {
    ptr: usize,
}

impl WasmStore {
    /// The index standing in for the native store pointer. It names the same
    /// object in the host's instrumentation even after ownership has moved.
    pub closed spec fn id(self) -> int {
        self.ptr as int
    }

    /// A wrapper is usable exactly while its native object is live and the
    /// wrapper still holds ownership of it.
    pub open spec fn valid(self, h: Host) -> bool {
        &&& 0 <= self.id() < h.store_count()
        &&& h.store_state(self.id()) is Live
    }

    /// The raw handle value, for looking this store up in the host's
    /// instrumentation before the wrapper is consumed.
    pub fn store_id(&self) -> (r: usize)
        ensures
            r as int == self.id(),
    {
        self.ptr
    }

    /// Construct a store against the given engine. A heap record holding a
    /// clone of the engine handle crosses the boundary, the native side
    /// allocates a store object that takes ownership of it, and the returned
    /// wrapper is that object's sole owner. Freeing the record is the native
    /// side's responsibility from the moment its address crosses.
    pub fn new(host: &mut Host, engine: Engine) -> (result: WasmStore)
        requires
            old(host).wf(),
        ensures
            final(host).wf(),
            result.valid(*final(host)),
            result.id() == old(host).store_count(),
            final(host).store_count() == old(host).store_count() + 1,
            final(host).destroy_calls(result.id()) == 0,
            !final(host).box_freed(result.id()),
            final(host).store_engine(result.id()) == engine,
            old_stores_unchanged(*old(host), *final(host)),
            modules_unchanged(*old(host), *final(host)),
            final(host).load_calls() == old(host).load_calls(),
            final(host).engine_count() == old(host).engine_count(),
    {
        let c_engine = wasm_engine_t { engine: engine.clone() };
        let result = WasmStore { ptr: host.store_new(c_engine) };
        result
    }

    /// Load a named bytecode module into this store.
    ///
    /// A name with an embedded null byte cannot be represented as a
    /// null-terminated identifier: it is rejected up front with
    /// `InvalidName` and the native side is never called. Any other name
    /// reaches the native side in exactly one load call, which succeeds
    /// exactly when the bytes open with the bytecode container magic and
    /// fails with `LoadFailure` otherwise. A successful load yields a
    /// bytecode-backed language, recorded against this store under the given
    /// name. The store survives every outcome and may load any number of
    /// modules.
    pub fn load_language(&mut self, host: &mut Host, name: &str, bytes: &[u8]) -> (r: Result<
        Language,
        LanguageError,
    >)
        requires
            old(host).wf(),
            old(self).valid(*old(host)),
            old(host).load_calls() < u64::MAX,
        ensures
            *final(self) == *old(self),
            final(host).wf(),
            final(self).valid(*final(host)),
            (r is Ok) <==> (!has_nul_byte(name.spec_bytes()) && valid_module_bytes(bytes@)),
            final(host).store_count() == old(host).store_count(),
            final(host).engine_count() == old(host).engine_count(),
            has_nul_byte(name.spec_bytes()) ==> {
                &&& r == Err::<Language, LanguageError>(LanguageError::InvalidName)
                &&& *final(host) == *old(host)
            },
            !has_nul_byte(name.spec_bytes()) ==> {
                &&& final(host).load_calls() == old(host).load_calls() + 1
                &&& stores_unchanged(*old(host), *final(host))
                &&& (r is Ok ==> {
                    &&& r->Ok_0.is_wasm_spec()
                    &&& r->Ok_0.spec_id() == old(host).module_count()
                    &&& final(host).module_count() == old(host).module_count() + 1
                    &&& final(host).module_store(old(host).module_count()) == old(self).id()
                    &&& final(host).module_name(old(host).module_count()) == name.spec_bytes()
                    &&& old_modules_unchanged(*old(host), *final(host))
                })
                &&& (r is Err ==> {
                    &&& r == Err::<Language, LanguageError>(LanguageError::LoadFailure)
                    &&& modules_unchanged(*old(host), *final(host))
                })
            },
    {
        let name_bytes: &[u8] = name.as_bytes();
        if contains_nul(name_bytes) {
            return Err(LanguageError::InvalidName);
        }
        let name_z = to_c_name(name_bytes);
        proof {
            assert(name_z@.drop_last() =~= name.spec_bytes());
        }
        let loaded = host.load_module(self.ptr, name_z, bytes);
        match loaded {
            Some(lang) => Ok(lang),
            None => Err(LanguageError::LoadFailure),
        }
    }

    /// Destroy the store: exactly one native destroy call for its object,
    /// which also frees the engine box the object owned. Consuming the
    /// wrapper leaves nothing behind through which a second destroy could be
    /// made.
    pub fn dispose(self, host: &mut Host)
        requires
            old(host).wf(),
            self.valid(*old(host)),
        ensures
            final(host).wf(),
            final(host).store_count() == old(host).store_count(),
            final(host).store_state(self.id()) is Destroyed,
            final(host).destroy_calls(self.id()) == 1,
            final(host).box_freed(self.id()),
            stores_unchanged_except(*old(host), *final(host), self.id()),
            modules_unchanged(*old(host), *final(host)),
            final(host).load_calls() == old(host).load_calls(),
            final(host).engine_count() == old(host).engine_count(),
    {
        host.store_delete(self.ptr);
    }
}

/// Transfer finality: once a store object is no longer live under its
/// wrapper — it was attached to a parser, or destroyed — no wrapper for it
/// is valid, so neither loading a module nor an independent destroy can go
/// through one.
pub proof fn lemma_transfer_finality(h: Host, s: WasmStore)
    requires
        h.store_state(s.id()) is Attached,
    ensures
        !s.valid(h),
{
}

/// Scan a name's bytes for an embedded null, as the null-terminated
/// conversion at the boundary would encounter it.
fn contains_nul(bytes: &[u8]) -> (r: bool)
    ensures
        r == has_nul_byte(bytes@),
{
    let n = bytes.len();
    let mut i: usize = 0;
    while i < n
        invariant
            i <= n,
            n == bytes@.len(),
            forall|j: int| 0 <= j < i ==> bytes@[j] != 0u8,
        decreases n - i,
    {
        if bytes[i] == 0u8 {
            proof {
                assert(has_nul_byte(bytes@)) by {
                    assert(bytes@[i as int] == 0u8);
                }
            }
            return true;
        }
        i = i + 1;
    }
    false
}

/// Build the null-terminated boundary representation of a name.
fn to_c_name(bytes: &[u8]) -> (r: Vec<u8>)
    requires
        !has_nul_byte(bytes@),
    ensures
        r@ == bytes@ + seq![0u8],
        valid_c_name(r@),
{
    let n = bytes.len();
    let mut r: Vec<u8> = Vec::new();
    let mut i: usize = 0;
    while i < n
        invariant
            i <= n,
            n == bytes@.len(),
            r@ == bytes@.subrange(0, i as int),
        decreases n - i,
    {
        let b = bytes[i];
        r.push(b);
        proof {
            assert(bytes@.subrange(0, i as int).push(bytes@[i as int]) =~= bytes@.subrange(
                0,
                i + 1,
            ));
        }
        i = i + 1;
    }
    r.push(0u8);
    proof {
        assert(bytes@.subrange(0, n as int) =~= bytes@);
        assert(r@ =~= bytes@ + seq![0u8]);
        assert(r@.drop_last() =~= bytes@);
    }
    r
}

} // verus!
