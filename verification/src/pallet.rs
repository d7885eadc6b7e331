//! The host module: the outbound bridge, through which the host calls a
//! method of the guest, and the extrinsic through which the guest has the
//! host store a value.
//!
//! The host does not invoke the guest from here. Each extrinsic that calls
//! the guest checks the call and hands back a `GuestCall`, which says what
//! to invoke and with what; the caller invokes it and hands the result to
//! `Pallet::conclude`.

use vstd::prelude::*;
use crate::codec::{encode, encode_word, encoded_call, u32_le, CallBuffer, MAX_LENGTH};
use crate::identity::{AccountId, Origin};
use crate::status::STATUS_SUCCESS;
use crate::store::{spec_put, stored, Store};

verus! {

/// What the module refuses.
#[derive(Debug, Copy, Clone, PartialEq, Eq, Structural)]
pub enum Error {
    /// The value to be stored is the value that is stored already.
    ValueAlreadyExists,
    /// The byte sequence handed in has more than `MAX_LENGTH` bytes.
    NewValueTooLarge,
}

/// Why a call did not go through.
#[derive(Debug, Clone, PartialEq, Eq)]
pub enum CallError {
    /// No account signed the call.
    Unauthenticated,
    /// The module refused the call.
    Module(Error),
    /// The guest's method ran to its end and asked for the call to be
    /// undone; these are the bytes that it handed back.
    GuestReverted(Vec<u8>),
    /// The guest's run needed more than the cost ceiling; these are the
    /// bytes of the error with which it was stopped.
    OutOfBudget(Vec<u8>),
    /// The guest's run failed otherwise; these are the bytes of the error
    /// with which it failed.
    GuestFailed(Vec<u8>),
}

/// A `CallError`, its bytes taken as a sequence.
pub enum CallErrorView {
    Unauthenticated,
    Module(Error),
    GuestReverted(Seq<u8>),
    OutOfBudget(Seq<u8>),
    GuestFailed(Seq<u8>),
}

impl View for CallError {
    type V = CallErrorView;

    open spec fn view(&self) -> CallErrorView {
        match self {
            CallError::Unauthenticated => CallErrorView::Unauthenticated,
            CallError::Module(error) => CallErrorView::Module(*error),
            CallError::GuestReverted(data) => CallErrorView::GuestReverted(data@),
            CallError::OutOfBudget(error) => CallErrorView::OutOfBudget(error@),
            CallError::GuestFailed(error) => CallErrorView::GuestFailed(error@),
        }
    }
}

/// What the module tells the outside world.
#[derive(Debug, Clone, PartialEq, Eq)]
pub enum Event {
    /// A method of the guest was called, and it went through.
    CalledContract,
    /// The guest had the host store these bytes.
    CalledPalletFromContract(Vec<u8>),
}

/// An `Event`, its bytes taken as a sequence.
pub enum EventView {
    CalledContract,
    CalledPalletFromContract(Seq<u8>),
}

impl View for Event {
    type V = EventView;

    open spec fn view(&self) -> EventView {
        match self {
            Event::CalledContract => EventView::CalledContract,
            Event::CalledPalletFromContract(bytes) => EventView::CalledPalletFromContract(bytes@),
        }
    }
}

/// The events of a list, each by its view.
pub open spec fn events_view(events: Seq<Event>) -> Seq<EventView> {
    events.map_values(|e: Event| e@)
}

/// A call into the guest that has passed the host's checks and waits to be
/// invoked.
#[derive(Debug, Clone, PartialEq, Eq)]
pub struct GuestCall {
    /// The account in whose name the guest is called.
    pub caller: AccountId,
    /// The guest.
    pub target: AccountId,
    /// The amount that goes from the caller to the guest with the call.
    pub value: u128,
    /// The most that the guest's run may cost.
    pub gas_limit: u64,
    /// The selector of the guest's method and its encoded arguments.
    pub payload: Vec<u8>,
    /// Whether the guest may call back into the context that calls it.
    pub allow_reentry: bool,
}

/// A `GuestCall`, its payload taken as a sequence.
pub struct GuestCallView {
    pub caller: AccountId,
    pub target: AccountId,
    pub value: u128,
    pub gas_limit: u64,
    pub payload: Seq<u8>,
    pub allow_reentry: bool,
}

impl View for GuestCall {
    type V = GuestCallView;

    open spec fn view(&self) -> GuestCallView {
        GuestCallView {
            caller: self.caller,
            target: self.target,
            value: self.value,
            gas_limit: self.gas_limit,
            payload: self.payload@,
            allow_reentry: self.allow_reentry,
        }
    }
}

/// How the guest's run ended.
#[derive(Debug, Clone, PartialEq, Eq)]
pub enum GuestResult {
    /// The method ran to its end and handed back `data`; with `reverted` it
    /// asks for what it did to be undone.
    Returned { reverted: bool, data: Vec<u8> },
    /// The run needed more than the cost ceiling and was stopped with
    /// `error`, the encoded error of whoever ran it.
    OutOfBudget { error: Vec<u8> },
    /// The run failed otherwise, with `error`, the encoded error of whoever
    /// ran it.
    Failed { error: Vec<u8> },
}

/// A `GuestResult`, its bytes taken as sequences.
pub enum GuestResultView {
    Returned { reverted: bool, data: Seq<u8> },
    OutOfBudget { error: Seq<u8> },
    Failed { error: Seq<u8> },
}

impl View for GuestResult {
    type V = GuestResultView;

    open spec fn view(&self) -> GuestResultView {
        match self {
            GuestResult::Returned { reverted, data } => GuestResultView::Returned {
                reverted: *reverted,
                data: data@,
            },
            GuestResult::OutOfBudget { error } => GuestResultView::OutOfBudget { error: error@ },
            GuestResult::Failed { error } => GuestResultView::Failed { error: error@ },
        }
    }
}

/// What a call that went through leaves behind.
#[derive(Debug, Clone, PartialEq, Eq)]
pub struct CallOutcome {
    /// The status code: `0` for success.
    pub status: u32,
    /// The bytes handed back, if any were.
    pub output: Option<Vec<u8>>,
    /// The notifications to send out, in order.
    pub events: Vec<Event>,
}

/// A `CallOutcome`, its bytes taken as sequences.
pub struct CallOutcomeView {
    pub status: u32,
    pub output: Option<Seq<u8>>,
    pub events: Seq<EventView>,
}

impl View for CallOutcome {
    type V = CallOutcomeView;

    open spec fn view(&self) -> CallOutcomeView {
        CallOutcomeView {
            status: self.status,
            output: match self.output {
                Some(bytes) => Some(bytes@),
                None => None,
            },
            events: events_view(self.events@),
        }
    }
}

/// The cost ceiling under which `flip_smart_contract` calls the guest.
pub const FLIP_GAS_LIMIT: u64 = 10000;

/// The word by which `flip_smart_contract` names the guest's method.
pub const FLIP_SELECTOR: u32 = 0x000abcde;

/// What `invoke_guest` answers: the call to invoke, for a signed origin.
pub open spec fn spec_invoke_guest(
    origin: Origin,
    target: AccountId,
    value: u128,
    cost_ceiling: u64,
    payload: Seq<u8>,
    allow_reentry: bool,
) -> Result<GuestCallView, CallErrorView> {
    match origin.signer() {
        None => Err(CallErrorView::Unauthenticated),
        Some(who) => Ok(
            GuestCallView {
                caller: who,
                target,
                value,
                gas_limit: cost_ceiling,
                payload,
                allow_reentry,
            },
        ),
    }
}

/// What `Pallet::call_smart_contract` answers. The origin is looked at
/// first, then the length of the selector; only then is the payload built.
pub open spec fn spec_call_smart_contract(
    origin: Origin,
    dest: AccountId,
    selector: Seq<u8>,
    arg: u32,
    gas_limit: u64,
) -> Result<GuestCallView, CallErrorView> {
    if origin.signer() is None {
        Err(CallErrorView::Unauthenticated)
    } else if selector.len() > MAX_LENGTH {
        Err(CallErrorView::Module(Error::NewValueTooLarge))
    } else {
        spec_invoke_guest(origin, dest, 0, gas_limit, encoded_call(selector, arg), true)
    }
}

/// What `Pallet::conclude` makes of the way the guest's run ended. Only a
/// method that ran to its end and did not ask to be undone makes the call go
/// through. Every other end fails the call, and the error holds the bytes
/// that the run ended with, as they are.
pub open spec fn spec_conclude(result: GuestResultView) -> Result<CallOutcomeView, CallErrorView> {
    match result {
        GuestResultView::OutOfBudget { error } => Err(CallErrorView::OutOfBudget(error)),
        GuestResultView::Failed { error } => Err(CallErrorView::GuestFailed(error)),
        GuestResultView::Returned { reverted, data } => if reverted {
            Err(CallErrorView::GuestReverted(data))
        } else {
            Ok(
                CallOutcomeView {
                    status: STATUS_SUCCESS,
                    output: Some(data),
                    events: seq![EventView::CalledContract],
                },
            )
        },
    }
}

/// A guest that fails fails the call: the call goes through only if the
/// method ran to its end and did not ask to be undone. Where the run ended
/// for want of budget, the call fails with `OutOfBudget`; where it failed
/// otherwise, with `GuestFailed`; where the method asked to be undone, with
/// `GuestReverted`. Each time the error holds the bytes that the run ended
/// with, unchanged.
pub proof fn lemma_guest_failure_is_handed_on(result: GuestResultView)
    ensures
        spec_conclude(result) is Ok <==> (result matches GuestResultView::Returned {
            reverted,
            ..
        } && !reverted),
        result matches GuestResultView::OutOfBudget { error } ==> spec_conclude(result) == Err::<
            CallOutcomeView,
            CallErrorView,
        >(CallErrorView::OutOfBudget(error)),
        result matches GuestResultView::Failed { error } ==> spec_conclude(result) == Err::<
            CallOutcomeView,
            CallErrorView,
        >(CallErrorView::GuestFailed(error)),
        result matches GuestResultView::Returned { reverted, data } ==> (reverted
            ==> spec_conclude(result) == Err::<CallOutcomeView, CallErrorView>(
            CallErrorView::GuestReverted(data),
        )),
{
}

/// What `Pallet::insert_number` answers for a store that holds `entries`,
/// and what the store holds after it.
pub open spec fn spec_insert_number(
    entries: Map<Seq<u8>, Seq<u8>>,
    origin: Origin,
    val: Seq<u8>,
) -> (Result<EventView, CallErrorView>, Map<Seq<u8>, Seq<u8>>) {
    match origin.signer() {
        None => (Err(CallErrorView::Unauthenticated), entries),
        Some(who) => if spec_put(entries, who@, val).0 is Err {
            (Err(CallErrorView::Module(Error::ValueAlreadyExists)), entries)
        } else {
            (Ok(EventView::CalledPalletFromContract(val)), spec_put(entries, who@, val).1)
        },
    }
}

/// Checks a call into the guest and says what to invoke: the guest `target`
/// in the name of the account that signed `origin`, with `value` to hand
/// over, `cost_ceiling` as the most its run may cost, `payload` as its
/// input, and `allow_reentry` passed on as it is. Without a signature there
/// is nothing to invoke.
pub fn invoke_guest(
    origin: &Origin,
    target: AccountId,
    value: u128,
    cost_ceiling: u64,
    payload: Vec<u8>,
    allow_reentry: bool,
) -> (r: Result<GuestCall, CallError>)
    ensures
        match r {
            Ok(call) => spec_invoke_guest(
                *origin,
                target,
                value,
                cost_ceiling,
                payload@,
                allow_reentry,
            ) == Ok::<GuestCallView, CallErrorView>(call@),
            Err(e) => spec_invoke_guest(
                *origin,
                target,
                value,
                cost_ceiling,
                payload@,
                allow_reentry,
            ) == Err::<GuestCallView, CallErrorView>(e@),
        },
{
    match origin.ensure_signed() {
        None => Err(CallError::Unauthenticated),
        Some(who) => Ok(
            GuestCall { caller: who, target, value, gas_limit: cost_ceiling, payload, allow_reentry },
        ),
    }
}

/// The host module, with the store that it owns.
#[derive(Debug, Clone, PartialEq, Eq)]
pub struct Pallet {
    store: Store,
}

impl View for Pallet {
    type V = Map<Seq<u8>, Seq<u8>>;

    /// What the module's store holds.
    closed spec fn view(&self) -> Map<Seq<u8>, Seq<u8>> {
        self.store@
    }
}

impl Pallet {
    /// The module with nothing in its store.
    pub fn new() -> (pallet: Pallet)
        ensures
            pallet@ == Map::<Seq<u8>, Seq<u8>>::empty(),
    {
        Pallet { store: Store::new() }
    }

    /// The bytes stored in the name of `who`: none if nothing was stored.
    pub fn get_items(&self, who: &AccountId) -> (blob: Vec<u8>)
        ensures
            blob@ == stored(self@, who@),
    {
        self.store.get(who)
    }

    /// Calls the method of the guest `dest` that `selector` names, with
    /// `arg` as its argument, no value handed over and `gas_limit` as the
    /// most its run may cost.
    ///
    /// The call must be signed, and the selector of at most `MAX_LENGTH`
    /// bytes: a longer one is refused before any payload is built, so that
    /// nothing is handed back that could be invoked. A signed call with a
    /// selector within the bound is always handed on.
    pub fn call_smart_contract(
        origin: &Origin,
        dest: AccountId,
        selector: Vec<u8>,
        arg: u32,
        gas_limit: u64,
    ) -> (r: Result<GuestCall, CallError>)
        ensures
            match r {
                Ok(call) => spec_call_smart_contract(*origin, dest, selector@, arg, gas_limit)
                    == Ok::<GuestCallView, CallErrorView>(call@),
                Err(e) => spec_call_smart_contract(*origin, dest, selector@, arg, gas_limit)
                    == Err::<GuestCallView, CallErrorView>(e@),
            },
            selector@.len() > MAX_LENGTH ==> r is Err,
            r is Ok <==> origin.signer() is Some && selector@.len() <= MAX_LENGTH,
            origin.signer() is Some ==> (r == Err::<GuestCall, CallError>(
                CallError::Module(Error::NewValueTooLarge),
            ) <==> selector@.len() > MAX_LENGTH),
    {
        if origin.ensure_signed().is_none() {
            return Err(CallError::Unauthenticated);
        }
        let selector: CallBuffer = match CallBuffer::new(selector) {
            Some(buffer) => buffer,
            None => {
                return Err(CallError::Module(Error::NewValueTooLarge));
            },
        };
        let data: Vec<u8> = encode(selector.bytes(), arg);
        invoke_guest(origin, dest, 0, gas_limit, data, true)
    }

    /// Calls the method of the guest `dest` that the word `FLIP_SELECTOR`
    /// names, with no argument and no value handed over, under the cost
    /// ceiling `FLIP_GAS_LIMIT`.
    pub fn flip_smart_contract(origin: &Origin, dest: AccountId) -> (r: Result<
        GuestCall,
        CallError,
    >)
        ensures
            match r {
                Ok(call) => spec_invoke_guest(
                    *origin,
                    dest,
                    0,
                    FLIP_GAS_LIMIT,
                    u32_le(FLIP_SELECTOR),
                    true,
                ) == Ok::<GuestCallView, CallErrorView>(call@),
                Err(e) => spec_invoke_guest(
                    *origin,
                    dest,
                    0,
                    FLIP_GAS_LIMIT,
                    u32_le(FLIP_SELECTOR),
                    true,
                ) == Err::<GuestCallView, CallErrorView>(e@),
            },
    {
        let data: Vec<u8> = encode_word(FLIP_SELECTOR);
        invoke_guest(origin, dest, 0, FLIP_GAS_LIMIT, data, true)
    }

    /// Closes a call into the guest once the guest's run has ended. If the
    /// method ran to its end and did not ask to be undone, the call went
    /// through: its data is handed on and `CalledContract` is sent out. If
    /// not, the call failed and nothing is sent out: the error holds just
    /// the bytes that the run ended with, so that whoever made the call can
    /// hand the guest's own error on.
    pub fn conclude(result: GuestResult) -> (r: Result<CallOutcome, CallError>)
        ensures
            match r {
                Ok(outcome) => spec_conclude(result@) == Ok::<CallOutcomeView, CallErrorView>(
                    outcome@,
                ),
                Err(e) => spec_conclude(result@) == Err::<CallOutcomeView, CallErrorView>(e@),
            },
            r is Ok <==> (result matches GuestResult::Returned { reverted, .. } && !reverted),
    {
        match result {
            GuestResult::OutOfBudget { error } => Err(CallError::OutOfBudget(error)),
            GuestResult::Failed { error } => Err(CallError::GuestFailed(error)),
            GuestResult::Returned { reverted, data } => {
                if reverted {
                    Err(CallError::GuestReverted(data))
                } else {
                    let mut events: Vec<Event> = Vec::new();
                    events.push(Event::CalledContract);
                    let outcome = CallOutcome { status: STATUS_SUCCESS, output: Some(data), events };
                    assert(outcome@.events =~= seq![EventView::CalledContract]);
                    Ok(outcome)
                }
            },
        }
    }

    /// Stores `val` in the name of the account that signed `origin`, and
    /// hands back the notification to send out.
    ///
    /// The call must be signed. If the account holds just these bytes
    /// already, the write is refused with `ValueAlreadyExists`: the store
    /// stays as it is and there is nothing to send out.
    pub fn insert_number(&mut self, origin: &Origin, val: [u8; 32]) -> (r: Result<
        Event,
        CallError,
    >)
        ensures
            match r {
                Ok(event) => (Ok::<EventView, CallErrorView>(event@), final(self)@)
                    == spec_insert_number(old(self)@, *origin, val@),
                Err(e) => (Err::<EventView, CallErrorView>(e@), final(self)@) == spec_insert_number(
                    old(self)@,
                    *origin,
                    val@,
                ),
            },
            r is Err ==> final(self)@ == old(self)@,
    {
        let who: AccountId = match origin.ensure_signed() {
            Some(who) => who,
            None => {
                return Err(CallError::Unauthenticated);
            },
        };
        let blob: Vec<u8> = array_to_vec(&val);
        let noted: Vec<u8> = array_to_vec(&val);
        match self.store.put(who, blob) {
            Err(_) => Err(CallError::Module(Error::ValueAlreadyExists)),
            Ok(()) => Ok(Event::CalledPalletFromContract(noted)),
        }
    }
}

/// The bytes of `array`, as a vector.
pub fn array_to_vec(array: &[u8; 32]) -> (bytes: Vec<u8>)
    ensures
        bytes@ == array@,
{
    let mut bytes: Vec<u8> = Vec::with_capacity(32);
    let mut i: usize = 0;
    while i < 32
        invariant
            i <= 32,
            bytes@.len() == i,
            forall|k: int| 0 <= k < i ==> bytes@[k] == array@[k],
        decreases 32 - i,
    {
        bytes.push(array[i]);
        i = i + 1;
    }
    assert(bytes@ =~= array@);
    bytes
}

} // verus!
