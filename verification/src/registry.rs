//! The function registry: which handler answers to which function id. The
//! table is filled once, when the host starts, and only read after that.

use vstd::prelude::*;
use std::collections::HashMap;

verus! {

/// The number by which the guest names a function of the host.
pub type FunctionId = u32;

/// What the host can do for the guest.
#[derive(Debug, Copy, Clone, PartialEq, Eq, Structural)]
pub enum Handler {
    /// Takes a buffer of at most two bytes, hands the same bytes back and
    /// notes them as the last buffer seen.
    Echo,
    /// Takes four 32-bit numbers and notes them as the last inputs seen.
    RecordInputs,
    /// Takes a buffer of two bytes and charges the second of them as a
    /// further cost.
    ChargeExtra,
    /// Takes nothing and asks for the call to be undone.
    Revert,
    /// Takes a buffer of 32 bytes, notes it as the last buffer seen and
    /// stores it in the caller's name.
    InsertNumber,
}

/// The function id under which the usual table holds `Handler::Echo`.
pub const ECHO_ID: FunctionId = 0;

/// The function id under which the usual table holds `Handler::RecordInputs`.
pub const RECORD_INPUTS_ID: FunctionId = 1;

/// The function id under which the usual table holds `Handler::ChargeExtra`.
pub const CHARGE_EXTRA_ID: FunctionId = 2;

/// The function id under which the usual table holds `Handler::Revert`.
pub const REVERT_ID: FunctionId = 3;

/// The usual table, as a map.
pub open spec fn standard_table() -> Map<FunctionId, Handler> {
    Map::<FunctionId, Handler>::empty().insert(ECHO_ID, Handler::Echo).insert(
        RECORD_INPUTS_ID,
        Handler::RecordInputs,
    ).insert(CHARGE_EXTRA_ID, Handler::ChargeExtra).insert(REVERT_ID, Handler::Revert)
}

/// A table from function ids to handlers.
#[derive(Debug, Clone, PartialEq, Eq)]
pub struct Registry {
    table: HashMap<FunctionId, Handler>,
}

impl View for Registry {
    type V = Map<FunctionId, Handler>;

    closed spec fn view(&self) -> Map<FunctionId, Handler> {
        self.table@
    }
}

impl Registry {
    /// The table that holds no handler.
    pub fn new() -> (registry: Registry)
        ensures
            registry@ == Map::<FunctionId, Handler>::empty(),
    {
        Registry { table: HashMap::new() }
    }

    /// The usual table: `Echo`, `RecordInputs`, `ChargeExtra` and `Revert`
    /// under the ids 0, 1, 2 and 3.
    pub fn standard() -> (registry: Registry)
        ensures
            registry@ == standard_table(),
    {
        let mut registry = Registry::new();
        registry.register(ECHO_ID, Handler::Echo);
        registry.register(RECORD_INPUTS_ID, Handler::RecordInputs);
        registry.register(CHARGE_EXTRA_ID, Handler::ChargeExtra);
        registry.register(REVERT_ID, Handler::Revert);
        registry
    }

    /// Puts `handler` under `id`, unless the id is taken: then the table
    /// stays as it is and the answer is `false`.
    pub fn register(&mut self, id: FunctionId, handler: Handler) -> (added: bool)
        ensures
            added == !old(self)@.contains_key(id),
            added ==> final(self)@ == old(self)@.insert(id, handler),
            !added ==> final(self)@ == old(self)@,
    {
        broadcast use vstd::std_specs::hash::group_hash_axioms;

        if self.table.contains_key(&id) {
            false
        } else {
            self.table.insert(id, handler);
            true
        }
    }

    /// The handler under `id`, if there is one.
    pub fn lookup(&self, id: FunctionId) -> (handler: Option<Handler>)
        ensures
            handler == (if self@.contains_key(id) {
                Some(self@[id])
            } else {
                None
            }),
    {
        broadcast use vstd::std_specs::hash::group_hash_axioms;

        match self.table.get(&id) {
            Some(handler) => Some(*handler),
            None => None,
        }
    }
}

} // verus!
