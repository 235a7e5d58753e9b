//! Set-once storage for the product identifier a process runs under.
//!
//! A [`Registry`] starts empty, accepts exactly one identifier, and rejects
//! every later registration without touching the stored value. Reads return
//! a copy of the stored identifier at any time, including before
//! registration.

use vstd::prelude::*;

use crate::product::{ProductName, ProductNameModel};

verus! {

/// The recoverable failure of a second registration attempt.
#[derive(Clone, Copy, Debug, PartialEq, Eq, Structural)]
pub enum RegisterError {
    /// An identifier was already stored; the stored value is unchanged.
    AlreadyRegistered,
}

/// Set-once storage for a single product identifier. The slot can be filled
/// exactly once and never reset or overwritten.
pub struct Registry {
    slot: Option<ProductName>,
}

/// What one registration attempt does to a registry state: an empty state
/// accepts the identifier, a filled state stays as it is. The flag says
/// whether the attempt succeeded.
pub open spec fn register_step(
    state: Option<ProductNameModel>,
    id: ProductNameModel,
) -> (Option<ProductNameModel>, bool) {
    match state {
        None => (Some(id), true),
        Some(_) => (state, false),
    }
}

/// The state after a whole sequence of registration attempts, in order.
pub open spec fn register_all(
    state: Option<ProductNameModel>,
    ids: Seq<ProductNameModel>,
) -> Option<ProductNameModel>
    decreases ids.len(),
{
    if ids.len() == 0 {
        state
    } else {
        register_all(register_step(state, ids[0]).0, ids.drop_first())
    }
}

/// How many of a sequence of registration attempts succeed, in order.
pub open spec fn register_successes(
    state: Option<ProductNameModel>,
    ids: Seq<ProductNameModel>,
) -> nat
    decreases ids.len(),
{
    if ids.len() == 0 {
        0
    } else {
        let (next, ok) = register_step(state, ids[0]);
        (if ok {
            1nat
        } else {
            0nat
        }) + register_successes(next, ids.drop_first())
    }
}

/// On a filled registry every attempt fails and the state never moves.
proof fn lemma_filled_registry_is_fixed(p: ProductNameModel, ids: Seq<ProductNameModel>)
    ensures
        register_all(Some(p), ids) == Some(p),
        register_successes(Some(p), ids) == 0,
    decreases ids.len(),
{
    if ids.len() > 0 {
        lemma_filled_registry_is_fixed(p, ids.drop_first());
    }
}

/// Of any non-empty sequence of registration attempts on a fresh registry,
/// exactly the first succeeds: the stored value is the first attempt's
/// identifier, and every other attempt observes a failure.
pub proof fn lemma_exactly_one_registration_wins(ids: Seq<ProductNameModel>)
    requires
        ids.len() > 0,
    ensures
        register_all(None, ids) == Some(ids[0]),
        register_successes(None, ids) == 1,
{
    lemma_filled_registry_is_fixed(ids[0], ids.drop_first());
}

/// Registering twice: the first attempt stores its identifier, the second
/// fails and leaves the first identifier stored, unchanged.
pub proof fn lemma_second_registration_rejected(a: ProductNameModel, b: ProductNameModel)
    ensures
        register_step(None, a) == (Some(a), true),
        register_step(register_step(None, a).0, b) == (Some(a), false),
{
}

impl Registry {
    /// The identifier this registry stores, if one was ever registered.
    pub closed spec fn stored(&self) -> Option<ProductNameModel> {
        self.slot.deep_view()
    }

    /// A fresh, empty registry: nothing is registered yet.
    pub fn new() -> (r: Registry)
        ensures
            r.stored() is None,
    {
        Registry { slot: None }
    }

    /// A copy of the stored identifier, or `None` when nothing was ever
    /// registered. Never fails and never changes the registry.
    pub fn current(&self) -> (r: Option<ProductName>)
        ensures
            r.deep_view() == self.stored(),
    {
        match &self.slot {
            Some(p) => Some(p.clone()),
            None => None,
        }
    }
}

impl ProductName {
    /// Stores this identifier if the registry is still empty; a second
    /// registration fails with [`RegisterError::AlreadyRegistered`] and
    /// leaves the stored identifier exactly as it was.
    pub fn set_global(&self, registry: &mut Registry) -> (r: Result<(), RegisterError>)
        ensures
            (final(registry).stored(), r is Ok) == register_step(old(registry).stored(), self@),
            old(registry).stored() is None ==> r is Ok && final(registry).stored() == Some(
                self@,
            ),
            old(registry).stored() is Some ==> r == Err::<(), RegisterError>(
                RegisterError::AlreadyRegistered,
            ) && final(registry).stored() == old(registry).stored(),
    {
        match &registry.slot {
            Some(_) => Err(RegisterError::AlreadyRegistered),
            None => {
                registry.slot = Some(self.clone());
                Ok(())
            },
        }
    }

    /// A copy of the registered identifier, or `None` when nothing was ever
    /// registered.
    pub fn global(registry: &Registry) -> (r: Option<ProductName>)
        ensures
            r.deep_view() == registry.stored(),
    {
        registry.current()
    }
}

} // verus!
