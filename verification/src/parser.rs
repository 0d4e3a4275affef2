//! The parser binding: the destination of a store's ownership transfer.
//!
//! Attaching a store moves exclusive ownership of its native object into
//! the parser; the wrapper is consumed by the call, so it can never load
//! another module or destroy the object afterwards. Replacing an attached
//! store releases the previous one as part of the same operation, and
//! dropping the parser releases whatever it still owns — so at every point
//! exactly one owner is responsible for each store object.

use vstd::prelude::*;

use crate::error::LanguageError;
use crate::host::{
    module_unchanged, modules_unchanged, store_unchanged, stores_unchanged_except, Host,
};
use crate::store::WasmStore;

verus! {

/// A parser instance, holding at most one parser-owned store through which
/// bytecode-backed languages are executed during parsing.
pub struct Parser {
    attached: Option<usize>,
}

impl Parser {
    /// The store object this parser owns, if any.
    pub closed spec fn attached_store(self) -> Option<int> {
        match self.attached {
            Some(p) => Some(p as int),
            None => None,
        }
    }

    /// A parser is well formed against the boundary when whatever store it
    /// holds is recorded there as parser-owned.
    pub open spec fn wf(self, h: Host) -> bool {
        self.attached_store() matches Some(p) ==> {
            &&& 0 <= p < h.store_count()
            &&& h.store_state(p) is Attached
        }
    }

    /// A parser with no store attached.
    pub fn new() -> (p: Parser)
        ensures
            p.attached_store() is None,
    {
        Parser { attached: None }
    }

    /// Transfer exclusive ownership of `store`'s native object into this
    /// parser. The wrapper is consumed by the call: nothing remains through
    /// which the store could be loaded into or destroyed independently. If
    /// a store was already attached, it is released — destroyed, its one
    /// destruction — as part of the same operation, so exactly one store is
    /// parser-owned afterwards. The native call reports no failure status,
    /// so the attach always returns success; the freshly attached store has
    /// still seen no destroy call.
    pub fn set_wasm_store(&mut self, host: &mut Host, store: WasmStore) -> (r: Result<
        (),
        LanguageError,
    >)
        requires
            old(host).wf(),
            old(self).wf(*old(host)),
            store.valid(*old(host)),
        ensures
            r == Ok::<(), LanguageError>(()),
            final(host).wf(),
            final(self).wf(*final(host)),
            final(self).attached_store() == Some(store.id()),
            final(host).store_count() == old(host).store_count(),
            final(host).store_state(store.id()) is Attached,
            final(host).destroy_calls(store.id()) == 0,
            !final(host).box_freed(store.id()),
            (match old(self).attached_store() {
                Some(p) => {
                    &&& final(host).store_state(p) is Destroyed
                    &&& final(host).destroy_calls(p) == 1
                    &&& final(host).box_freed(p)
                    &&& (forall|i: int|
                        #![trigger final(host).store_state(i)]
                        #![trigger final(host).destroy_calls(i)]
                        0 <= i < old(host).store_count() && i != p && i != store.id()
                            ==> store_unchanged(*old(host), *final(host), i))
                },
                None => stores_unchanged_except(*old(host), *final(host), store.id()),
            }),
            modules_unchanged(*old(host), *final(host)),
            final(host).load_calls() == old(host).load_calls(),
            final(host).engine_count() == old(host).engine_count(),
    {
        let id = store.store_id();
        match self.attached {
            Some(prev) => {
                host.store_delete(prev);
            },
            None => {},
        }
        let ghost mid = *host;
        proof {
            if old(self).attached_store() is Some {
                assert(store_unchanged(*old(host), mid, store.id()));
            }
        }
        host.store_attach(id);
        proof {
            if let Some(p) = old(self).attached_store() {
                assert forall|i: int|
                    0 <= i < old(host).store_count() && i != p && i != store.id() implies store_unchanged(
                    *old(host),
                    *final(host),
                    i,
                ) by {
                    assert(store_unchanged(*old(host), mid, i));
                    assert(store_unchanged(mid, *final(host), i));
                }
                assert forall|m: int| 0 <= m < old(host).module_count() implies module_unchanged(
                    *old(host),
                    *final(host),
                    m,
                ) by {
                    assert(module_unchanged(*old(host), mid, m));
                    assert(module_unchanged(mid, *final(host), m));
                }
            }
        }
        self.attached = Some(id);
        Ok(())
    }

    /// Drop the parser, releasing — destroying — whatever store it owns.
    /// This is the downstream destruction in which a transferred store ends:
    /// still exactly one destroy call for that store object.
    pub fn dispose(self, host: &mut Host)
        requires
            old(host).wf(),
            self.wf(*old(host)),
        ensures
            final(host).wf(),
            final(host).store_count() == old(host).store_count(),
            (match self.attached_store() {
                Some(p) => {
                    &&& final(host).store_state(p) is Destroyed
                    &&& final(host).destroy_calls(p) == 1
                    &&& final(host).box_freed(p)
                    &&& stores_unchanged_except(*old(host), *final(host), p)
                },
                None => *final(host) == *old(host),
            }),
            modules_unchanged(*old(host), *final(host)),
            final(host).load_calls() == old(host).load_calls(),
            final(host).engine_count() == old(host).engine_count(),
    {
        match self.attached {
            Some(prev) => {
                host.store_delete(prev);
            },
            None => {},
        }
    }
}

} // verus!
