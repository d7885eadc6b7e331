//! The inbound dispatcher: the guest names a function by its id and hands
//! in a buffer; the host finds the handler, reads the input, charges the
//! declared cost, runs the handler and hands back a status code and,
//! where the handler has one, an output buffer.
//!
//! A call goes through the stages `ReceiveId`, `ReadInput`, `ChargeCost`,
//! `Execute` and `WriteOutput`, and ends as `Done`. From `ChargeCost` and
//! from `Execute` it can end as `Reverted`: then the store is as it was
//! before the call. What the handlers note in the call context for those who
//! watch the host is not taken back. An unknown id at `ReceiveId` and a
//! malformed buffer at `ReadInput` are protocol violations: the call ends
//! before anything was charged or done.

use vstd::prelude::*;
use crate::codec::{read_u32, u32_of_le, CallBuffer, DecodeError, MAX_LENGTH};
use crate::identity::{AccountId, Origin};
use crate::meter::{spec_charge, CostMeter};
use crate::pallet::{
    spec_insert_number, CallOutcome, CallOutcomeView, Event, EventView, Pallet,
};
use crate::registry::{FunctionId, Handler, Registry};
use crate::status::{spec_translate, RuntimeCallErr, STATUS_SUCCESS};
use crate::store::stored;
use crate::violation::ProtocolViolation;

verus! {

/// The flag with which a handler asks for the call to be undone.
pub const REVERT_FLAG: u32 = 1;

// ---------------------------------------------------------------------------
// The call context
// ---------------------------------------------------------------------------

/// What the handlers note for those who watch the host: the last buffer and
/// the last four numbers that a handler was given. It outlives the calls,
/// belongs to whoever runs the dispatcher, and is no part of the store: a
/// call that is undone leaves its notes behind.
#[derive(Debug, Clone, PartialEq, Eq)]
pub struct ExtensionCallContext {
    last_seen_buffer: Vec<u8>,
    last_seen_val0: u32,
    last_seen_val1: u32,
    last_seen_val2: u32,
    last_seen_val3: u32,
}

/// An `ExtensionCallContext`, its buffer taken as a sequence.
pub struct ContextView {
    pub last_seen_buffer: Seq<u8>,
    pub last_seen_inputs: (u32, u32, u32, u32),
}

impl View for ExtensionCallContext {
    type V = ContextView;

    closed spec fn view(&self) -> ContextView {
        ContextView {
            last_seen_buffer: self.last_seen_buffer@,
            last_seen_inputs: (
                self.last_seen_val0,
                self.last_seen_val1,
                self.last_seen_val2,
                self.last_seen_val3,
            ),
        }
    }
}

impl ExtensionCallContext {
    /// The context in which nothing was noted yet.
    pub fn new() -> (context: ExtensionCallContext)
        ensures
            context@.last_seen_buffer == Seq::<u8>::empty(),
            context@.last_seen_inputs == (0u32, 0u32, 0u32, 0u32),
    {
        ExtensionCallContext {
            last_seen_buffer: Vec::new(),
            last_seen_val0: 0,
            last_seen_val1: 0,
            last_seen_val2: 0,
            last_seen_val3: 0,
        }
    }

    /// The last buffer that a handler noted.
    pub fn last_seen_buffer(&self) -> (buffer: &Vec<u8>)
        ensures
            buffer@ == self@.last_seen_buffer,
    {
        &self.last_seen_buffer
    }

    /// The last four numbers that a handler noted.
    pub fn last_seen_inputs(&self) -> (inputs: (u32, u32, u32, u32))
        ensures
            inputs == self@.last_seen_inputs,
    {
        (self.last_seen_val0, self.last_seen_val1, self.last_seen_val2, self.last_seen_val3)
    }
}

// ---------------------------------------------------------------------------
// Requests and results
// ---------------------------------------------------------------------------

/// The input of a call, read as the handler's signature says: up to four
/// numbers, or one buffer.
#[derive(Debug, Clone, PartialEq, Eq)]
pub enum Request {
    /// For `Handler::Echo`: the buffer to hand back.
    Echo(Vec<u8>),
    /// For `Handler::RecordInputs`: the four numbers.
    RecordInputs(u32, u32, u32, u32),
    /// For `Handler::ChargeExtra`: the further cost.
    ChargeExtra(u8),
    /// For `Handler::Revert`.
    Revert,
    /// For `Handler::InsertNumber`: the bytes to store.
    InsertNumber([u8; 32]),
}

/// A `Request`, its bytes taken as sequences.
pub enum RequestView {
    Echo(Seq<u8>),
    RecordInputs(u32, u32, u32, u32),
    ChargeExtra(u8),
    Revert,
    InsertNumber(Seq<u8>),
}

impl View for Request {
    type V = RequestView;

    open spec fn view(&self) -> RequestView {
        match self {
            Request::Echo(buffer) => RequestView::Echo(buffer@),
            Request::RecordInputs(a, b, c, d) => RequestView::RecordInputs(*a, *b, *c, *d),
            Request::ChargeExtra(weight) => RequestView::ChargeExtra(*weight),
            Request::Revert => RequestView::Revert,
            Request::InsertNumber(val) => RequestView::InsertNumber(val@),
        }
    }
}

/// Why a call was undone.
#[derive(Debug, Clone, PartialEq, Eq)]
pub enum Revert {
    /// The budget did not cover a cost.
    OutOfBudget,
    /// The handler asked for it, with these flags and this data for the
    /// guest.
    Diverged { flags: u32, data: Vec<u8> },
}

/// A `Revert`, its data taken as a sequence.
pub enum RevertView {
    OutOfBudget,
    Diverged { flags: u32, data: Seq<u8> },
}

impl View for Revert {
    type V = RevertView;

    open spec fn view(&self) -> RevertView {
        match self {
            Revert::OutOfBudget => RevertView::OutOfBudget,
            Revert::Diverged { flags, data } => RevertView::Diverged { flags: *flags, data: data@ },
        }
    }
}

/// How a call ended.
#[derive(Debug, Clone, PartialEq, Eq)]
pub enum Dispatch {
    /// The handler ran to its end.
    Done(CallOutcome),
    /// The call was undone.
    Reverted(Revert),
    /// The protocol was broken: the whole operation is to be given up.
    Fatal(ProtocolViolation),
}

/// A `Dispatch`, its bytes taken as sequences.
pub enum DispatchView {
    Done(CallOutcomeView),
    Reverted(RevertView),
    Fatal(ProtocolViolation),
}

impl View for Dispatch {
    type V = DispatchView;

    open spec fn view(&self) -> DispatchView {
        match self {
            Dispatch::Done(outcome) => DispatchView::Done(outcome@),
            Dispatch::Reverted(revert) => DispatchView::Reverted(revert@),
            Dispatch::Fatal(violation) => DispatchView::Fatal(*violation),
        }
    }
}

/// What the host holds between calls: what is left of the budget, what the
/// handlers noted, and what is stored.
pub struct HostState {
    pub budget: u64,
    pub context: ContextView,
    pub entries: Map<Seq<u8>, Seq<u8>>,
}

// ---------------------------------------------------------------------------
// The stages, as functions on the model
// ---------------------------------------------------------------------------

impl Handler {
    /// The fewest bytes that the handler's input takes.
    pub open spec fn min_input(self) -> nat {
        match self {
            Handler::Echo => 0,
            Handler::RecordInputs => 16,
            Handler::ChargeExtra => 2,
            Handler::Revert => 0,
            Handler::InsertNumber => 32,
        }
    }

    /// The most bytes that the handler's input takes.
    pub open spec fn max_input(self) -> nat {
        match self {
            Handler::Echo => 2,
            Handler::RecordInputs => 16,
            Handler::ChargeExtra => 2,
            Handler::Revert => 0,
            Handler::InsertNumber => 32,
        }
    }
}

/// `ReadInput`: what the input of `handler` is read as. A buffer with fewer
/// bytes than the handler's signature asks for is truncated, and one with
/// more has trailing bytes: neither is cut or filled up.
pub open spec fn spec_read_input(handler: Handler, raw: Seq<u8>) -> Result<RequestView, DecodeError> {
    if raw.len() < handler.min_input() {
        Err(DecodeError::Truncated)
    } else if raw.len() > handler.max_input() {
        Err(DecodeError::TrailingBytes)
    } else {
        Ok(
            match handler {
                Handler::Echo => RequestView::Echo(raw),
                Handler::RecordInputs => RequestView::RecordInputs(
                    u32_of_le(raw.subrange(0, 4)),
                    u32_of_le(raw.subrange(4, 8)),
                    u32_of_le(raw.subrange(8, 12)),
                    u32_of_le(raw.subrange(12, 16)),
                ),
                Handler::ChargeExtra => RequestView::ChargeExtra(raw[1]),
                Handler::Revert => RequestView::Revert,
                Handler::InsertNumber => RequestView::InsertNumber(raw),
            },
        )
    }
}

/// The outcome of a handler that ran to its end with `status`, `output` and
/// `events`.
pub open spec fn done(status: u32, output: Option<Seq<u8>>, events: Seq<EventView>) -> DispatchView {
    DispatchView::Done(CallOutcomeView { status, output, events })
}

/// `Execute` and `WriteOutput`: what running the handler of `request`
/// answers for the caller `caller`, and what the host holds after it. A
/// handler that runs to its end hands back the status code of success.
pub open spec fn spec_execute(request: RequestView, caller: AccountId, state: HostState) -> (
    DispatchView,
    HostState,
) {
    match request {
        RequestView::Echo(buffer) => (
            done(STATUS_SUCCESS, Some(buffer), Seq::empty()),
            HostState {
                budget: state.budget,
                context: ContextView {
                    last_seen_buffer: buffer,
                    last_seen_inputs: state.context.last_seen_inputs,
                },
                entries: state.entries,
            },
        ),
        RequestView::RecordInputs(a, b, c, d) => (
            done(STATUS_SUCCESS, None, Seq::empty()),
            HostState {
                budget: state.budget,
                context: ContextView {
                    last_seen_buffer: state.context.last_seen_buffer,
                    last_seen_inputs: (a, b, c, d),
                },
                entries: state.entries,
            },
        ),
        RequestView::ChargeExtra(weight) => if spec_charge(state.budget, weight as u64).0 is Err {
            (DispatchView::Reverted(RevertView::OutOfBudget), state)
        } else {
            (
                done(STATUS_SUCCESS, None, Seq::empty()),
                HostState {
                    budget: spec_charge(state.budget, weight as u64).1,
                    context: state.context,
                    entries: state.entries,
                },
            )
        },
        RequestView::Revert => (
            DispatchView::Reverted(
                RevertView::Diverged { flags: REVERT_FLAG, data: seq![42u8, 99u8] },
            ),
            state,
        ),
        RequestView::InsertNumber(val) => {
            let noted = ContextView {
                last_seen_buffer: val,
                last_seen_inputs: state.context.last_seen_inputs,
            };
            let written = spec_insert_number(state.entries, Origin::Signed(caller), val);
            match written.0 {
                Err(_) => (
                    DispatchView::Reverted(
                        RevertView::Diverged {
                            flags: REVERT_FLAG,
                            data: RuntimeCallErr::FailToCallRuntime.encoded(),
                        },
                    ),
                    HostState { budget: state.budget, context: noted, entries: state.entries },
                ),
                Ok(event) => (
                    done(STATUS_SUCCESS, None, seq![event]),
                    HostState { budget: state.budget, context: noted, entries: written.1 },
                ),
            }
        },
    }
}

/// From `ReadInput` on: what a call answers once its handler is found.
pub open spec fn spec_handle(
    handler: Handler,
    declared_cost: u64,
    raw_input: Seq<u8>,
    caller: AccountId,
    state: HostState,
) -> (DispatchView, HostState) {
    if raw_input.len() > MAX_LENGTH {
        (DispatchView::Fatal(ProtocolViolation::MalformedBuffer(DecodeError::TooLarge)), state)
    } else {
        match spec_read_input(handler, raw_input) {
            Err(e) => (DispatchView::Fatal(ProtocolViolation::MalformedBuffer(e)), state),
            Ok(request) => if spec_charge(state.budget, declared_cost).0 is Err {
                (DispatchView::Reverted(RevertView::OutOfBudget), state)
            } else {
                spec_execute(
                    request,
                    caller,
                    HostState {
                        budget: spec_charge(state.budget, declared_cost).1,
                        context: state.context,
                        entries: state.entries,
                    },
                )
            },
        }
    }
}

/// What `dispatch` answers, and what the host holds after it.
pub open spec fn spec_dispatch(
    table: Map<FunctionId, Handler>,
    id: FunctionId,
    declared_cost: u64,
    raw_input: Seq<u8>,
    caller: AccountId,
    state: HostState,
) -> (DispatchView, HostState) {
    if !table.contains_key(id) {
        (DispatchView::Fatal(ProtocolViolation::UnknownFunction(id)), state)
    } else {
        spec_handle(table[id], declared_cost, raw_input, caller, state)
    }
}

impl RequestView {
    /// The handler that the request is for.
    pub open spec fn handler(self) -> Handler {
        match self {
            RequestView::Echo(_) => Handler::Echo,
            RequestView::RecordInputs(_, _, _, _) => Handler::RecordInputs,
            RequestView::ChargeExtra(_) => Handler::ChargeExtra,
            RequestView::Revert => Handler::Revert,
            RequestView::InsertNumber(_) => Handler::InsertNumber,
        }
    }
}

/// The stages that a call goes through, in their order.
#[derive(Debug, Copy, Clone, PartialEq, Eq, Structural)]
pub enum Stage {
    /// The handler is looked up.
    ReceiveId,
    /// The input is read.
    ReadInput,
    /// The declared cost is taken from the budget.
    ChargeCost,
    /// The handler runs.
    Execute,
    /// The handler's output is handed back.
    WriteOutput,
}

/// The last stage that a call gets to.
pub open spec fn spec_last_stage(
    table: Map<FunctionId, Handler>,
    id: FunctionId,
    declared_cost: u64,
    raw_input: Seq<u8>,
    caller: AccountId,
    state: HostState,
) -> Stage {
    if !table.contains_key(id) {
        Stage::ReceiveId
    } else if raw_input.len() > MAX_LENGTH || spec_read_input(table[id], raw_input) is Err {
        Stage::ReadInput
    } else if declared_cost > state.budget {
        Stage::ChargeCost
    } else if spec_dispatch(table, id, declared_cost, raw_input, caller, state).0 is Done {
        Stage::WriteOutput
    } else {
        Stage::Execute
    }
}

/// How a call ends goes by the last stage that it gets to. It breaks the
/// protocol at `ReceiveId` and at `ReadInput` and nowhere else; it is undone
/// at `ChargeCost`, for want of budget and with nothing changed, and at
/// `Execute`, with the declared cost taken; and it is done once it gets to
/// `WriteOutput`.
pub proof fn lemma_stage_tells_the_end(
    table: Map<FunctionId, Handler>,
    id: FunctionId,
    declared_cost: u64,
    raw_input: Seq<u8>,
    caller: AccountId,
    state: HostState,
)
    ensures
        ({
            let stage = spec_last_stage(table, id, declared_cost, raw_input, caller, state);
            let (end, after) = spec_dispatch(table, id, declared_cost, raw_input, caller, state);
            &&& stage == Stage::ReceiveId <==> end == DispatchView::Fatal(
                ProtocolViolation::UnknownFunction(id),
            )
            &&& stage == Stage::ReadInput <==> (end matches DispatchView::Fatal(
                ProtocolViolation::MalformedBuffer(_),
            ))
            &&& stage == Stage::ChargeCost ==> end == DispatchView::Reverted(
                RevertView::OutOfBudget,
            ) && after == state
            &&& stage == Stage::Execute ==> end is Reverted && after.budget + declared_cost
                <= state.budget
            &&& stage == Stage::ChargeCost || stage == Stage::Execute <==> end is Reverted
            &&& stage == Stage::WriteOutput <==> end is Done
        }),
{
}

/// Whether a call gets as far as the handler: its id is registered, its
/// input is what the handler's signature asks for, and the budget covers
/// its declared cost.
pub open spec fn reaches_handler(
    table: Map<FunctionId, Handler>,
    id: FunctionId,
    declared_cost: u64,
    raw_input: Seq<u8>,
    state: HostState,
) -> bool {
    &&& table.contains_key(id)
    &&& raw_input.len() <= MAX_LENGTH
    &&& spec_read_input(table[id], raw_input) is Ok
    &&& declared_cost <= state.budget
}

/// Budget enforcement: a call whose declared cost is more than what is left
/// of the budget does not run. Nothing changes: not the store, not the
/// budget, not what was noted. Where the id is registered and the input is
/// well formed, the call ends as undone for want of budget; where not, the
/// protocol violation is met first.
pub proof fn lemma_out_of_budget(
    table: Map<FunctionId, Handler>,
    id: FunctionId,
    declared_cost: u64,
    raw_input: Seq<u8>,
    caller: AccountId,
    state: HostState,
)
    requires
        declared_cost > state.budget,
    ensures
        spec_dispatch(table, id, declared_cost, raw_input, caller, state).1 == state,
        !(spec_dispatch(table, id, declared_cost, raw_input, caller, state).0 is Done),
        table.contains_key(id) && raw_input.len() <= MAX_LENGTH && spec_read_input(
            table[id],
            raw_input,
        ) is Ok ==> spec_dispatch(table, id, declared_cost, raw_input, caller, state).0
            == DispatchView::Reverted(RevertView::OutOfBudget),
{
}

/// Routing: a call under a registered id is answered by the handler that
/// the table holds under that id. The request that runs is one for that
/// handler, read from the call's input, and it runs on the budget less the
/// declared cost.
pub proof fn lemma_runs_registered_handler(
    table: Map<FunctionId, Handler>,
    id: FunctionId,
    declared_cost: u64,
    raw_input: Seq<u8>,
    caller: AccountId,
    state: HostState,
)
    requires
        reaches_handler(table, id, declared_cost, raw_input, state),
    ensures
        spec_read_input(table[id], raw_input)->Ok_0.handler() == table[id],
        spec_dispatch(table, id, declared_cost, raw_input, caller, state) == spec_execute(
            spec_read_input(table[id], raw_input)->Ok_0,
            caller,
            HostState {
                budget: (state.budget - declared_cost) as u64,
                context: state.context,
                entries: state.entries,
            },
        ),
{
}

/// Routing: what a call answers depends on the table only through the
/// handler held under the call's id. No handler held under another id has a
/// part in it.
pub proof fn lemma_routes_by_id_alone(
    table: Map<FunctionId, Handler>,
    other: Map<FunctionId, Handler>,
    id: FunctionId,
    declared_cost: u64,
    raw_input: Seq<u8>,
    caller: AccountId,
    state: HostState,
)
    requires
        table.contains_key(id),
        other.contains_key(id),
        table[id] == other[id],
    ensures
        spec_dispatch(table, id, declared_cost, raw_input, caller, state) == spec_dispatch(
            other,
            id,
            declared_cost,
            raw_input,
            caller,
            state,
        ),
{
}

/// Revert atomicity: a call that is undone leaves the store as it was, and
/// so does one that breaks the protocol, which leaves all else as it was
/// too.
pub proof fn lemma_revert_keeps_store(
    table: Map<FunctionId, Handler>,
    id: FunctionId,
    declared_cost: u64,
    raw_input: Seq<u8>,
    caller: AccountId,
    state: HostState,
)
    ensures
        !(spec_dispatch(table, id, declared_cost, raw_input, caller, state).0 is Done)
            ==> spec_dispatch(table, id, declared_cost, raw_input, caller, state).1.entries
            == state.entries,
        spec_dispatch(table, id, declared_cost, raw_input, caller, state).0 is Fatal
            ==> spec_dispatch(table, id, declared_cost, raw_input, caller, state).1 == state,
{
}

/// What a handler notes before it asks for the call to be undone is not
/// taken back: a call of `InsertNumber` with the bytes that the caller holds
/// already is undone and leaves the store as it was, but the bytes stand as
/// the last buffer seen.
pub proof fn lemma_revert_leaves_notes(
    table: Map<FunctionId, Handler>,
    id: FunctionId,
    declared_cost: u64,
    raw_input: Seq<u8>,
    caller: AccountId,
    state: HostState,
)
    requires
        table.contains_key(id),
        table[id] == Handler::InsertNumber,
        raw_input.len() == 32,
        declared_cost <= state.budget,
        stored(state.entries, caller@) == raw_input,
    ensures
        spec_dispatch(table, id, declared_cost, raw_input, caller, state).0 is Reverted,
        spec_dispatch(table, id, declared_cost, raw_input, caller, state).1.entries
            == state.entries,
        spec_dispatch(
            table,
            id,
            declared_cost,
            raw_input,
            caller,
            state,
        ).1.context.last_seen_buffer == raw_input,
{
}

/// A call that is done says so in the guest's own terms: its status code is
/// that of success, whatever the function id, and the guest reads it as
/// success.
pub proof fn lemma_done_reads_as_success(
    table: Map<FunctionId, Handler>,
    id: FunctionId,
    declared_cost: u64,
    raw_input: Seq<u8>,
    caller: AccountId,
    state: HostState,
)
    requires
        spec_dispatch(table, id, declared_cost, raw_input, caller, state).0 is Done,
    ensures
        spec_dispatch(table, id, declared_cost, raw_input, caller, state).0->Done_0.status
            == STATUS_SUCCESS,
        spec_translate(
            spec_dispatch(table, id, declared_cost, raw_input, caller, state).0->Done_0.status,
        ) == Ok::<Result<(), RuntimeCallErr>, ProtocolViolation>(Ok(())),
{
}

/// Charges are for good: no call leaves more of the budget than it found.
pub proof fn lemma_budget_never_grows(
    table: Map<FunctionId, Handler>,
    id: FunctionId,
    declared_cost: u64,
    raw_input: Seq<u8>,
    caller: AccountId,
    state: HostState,
)
    ensures
        spec_dispatch(table, id, declared_cost, raw_input, caller, state).1.budget
            <= state.budget,
{
}

/// The model of what the host holds.
pub open spec fn host_state(meter: CostMeter, context: ExtensionCallContext, pallet: Pallet) -> HostState {
    HostState { budget: meter@, context: context@, entries: pallet@ }
}

// ---------------------------------------------------------------------------
// The stages, as they run
// ---------------------------------------------------------------------------

/// The bytes of `input`, as a vector of their own.
fn copy_bytes(input: &Vec<u8>) -> (bytes: Vec<u8>)
    ensures
        bytes@ == input@,
{
    let mut bytes: Vec<u8> = Vec::with_capacity(input.len());
    let mut i: usize = 0;
    while i < input.len()
        invariant
            i <= input@.len(),
            bytes@.len() == i,
            forall|k: int| 0 <= k < i ==> bytes@[k] == input@[k],
        decreases input@.len() - i,
    {
        bytes.push(input[i]);
        i = i + 1;
    }
    assert(bytes@ =~= input@);
    bytes
}

/// The 32 bytes of `input`, as an array.
fn to_array(input: &Vec<u8>) -> (array: [u8; 32])
    requires
        input@.len() == 32,
    ensures
        array@ == input@,
{
    let mut array: [u8; 32] = [0u8; 32];
    let mut i: usize = 0;
    while i < 32
        invariant
            i <= 32,
            input@.len() == 32,
            forall|k: int| 0 <= k < i ==> array@[k] == input@[k],
        decreases 32 - i,
    {
        array[i] = input[i];
        i = i + 1;
    }
    assert(array@ =~= input@);
    array
}

/// `ReadInput`: reads the input of a call as the signature of `handler`
/// says.
pub fn read_input(handler: Handler, input: &CallBuffer) -> (r: Result<Request, DecodeError>)
    ensures
        match r {
            Ok(request) => spec_read_input(handler, input@) == Ok::<RequestView, DecodeError>(
                request@,
            ),
            Err(e) => spec_read_input(handler, input@) == Err::<RequestView, DecodeError>(e),
        },
{
    let raw: &Vec<u8> = input.bytes();
    let (least, most): (usize, usize) = match handler {
        Handler::Echo => (0, 2),
        Handler::RecordInputs => (16, 16),
        Handler::ChargeExtra => (2, 2),
        Handler::Revert => (0, 0),
        Handler::InsertNumber => (32, 32),
    };
    if raw.len() < least {
        return Err(DecodeError::Truncated);
    }
    if raw.len() > most {
        return Err(DecodeError::TrailingBytes);
    }
    match handler {
        Handler::Echo => Ok(Request::Echo(copy_bytes(raw))),
        Handler::RecordInputs => {
            let a: u32 = read_u32(raw.as_slice(), 0);
            let b: u32 = read_u32(raw.as_slice(), 4);
            let c: u32 = read_u32(raw.as_slice(), 8);
            let d: u32 = read_u32(raw.as_slice(), 12);
            Ok(Request::RecordInputs(a, b, c, d))
        },
        Handler::ChargeExtra => Ok(Request::ChargeExtra(raw[1])),
        Handler::Revert => Ok(Request::Revert),
        Handler::InsertNumber => Ok(Request::InsertNumber(to_array(raw))),
    }
}

/// The outcome of a handler that ran to its end and sends nothing out.
fn quiet(status: u32, output: Option<Vec<u8>>) -> (out: Dispatch)
    ensures
        out@ == done(
            status,
            match output {
                Some(bytes) => Some(bytes@),
                None => None,
            },
            Seq::empty(),
        ),
{
    let outcome = CallOutcome { status, output, events: Vec::new() };
    assert(outcome@.events =~= Seq::<EventView>::empty());
    Dispatch::Done(outcome)
}

/// `Execute` and `WriteOutput`: runs the handler of `request` for the caller
/// `caller`.
pub fn execute(
    request: Request,
    caller: &AccountId,
    meter: &mut CostMeter,
    context: &mut ExtensionCallContext,
    pallet: &mut Pallet,
) -> (out: Dispatch)
    ensures
        (out@, host_state(*final(meter), *final(context), *final(pallet))) == spec_execute(
            request@,
            *caller,
            host_state(*old(meter), *old(context), *old(pallet)),
        ),
{
    match request {
        Request::Echo(buffer) => {
            context.last_seen_buffer = copy_bytes(&buffer);
            quiet(STATUS_SUCCESS, Some(buffer))
        },
        Request::RecordInputs(a, b, c, d) => {
            context.last_seen_val0 = a;
            context.last_seen_val1 = b;
            context.last_seen_val2 = c;
            context.last_seen_val3 = d;
            quiet(STATUS_SUCCESS, None)
        },
        Request::ChargeExtra(weight) => {
            match meter.charge(weight as u64) {
                Err(_) => Dispatch::Reverted(Revert::OutOfBudget),
                Ok(()) => quiet(STATUS_SUCCESS, None),
            }
        },
        Request::Revert => {
            let mut data: Vec<u8> = Vec::with_capacity(2);
            data.push(42);
            data.push(99);
            assert(data@ =~= seq![42u8, 99u8]);
            Dispatch::Reverted(Revert::Diverged { flags: REVERT_FLAG, data })
        },
        Request::InsertNumber(val) => {
            context.last_seen_buffer = crate::pallet::array_to_vec(&val);
            match pallet.insert_number(&Origin::Signed(*caller), val) {
                Err(_) => Dispatch::Reverted(
                    Revert::Diverged {
                        flags: REVERT_FLAG,
                        data: RuntimeCallErr::FailToCallRuntime.encode(),
                    },
                ),
                Ok(event) => {
                    let mut events: Vec<Event> = Vec::with_capacity(1);
                    let ghost sent = event@;
                    events.push(event);
                    let outcome = CallOutcome { status: STATUS_SUCCESS, output: None, events };
                    assert(outcome@.events =~= seq![sent]);
                    Dispatch::Done(outcome)
                },
            }
        },
    }
}

/// Answers one call of the guest: `id` names the function, `declared_cost`
/// is what the guest says the call costs, `raw_input` is the buffer that
/// it hands in and `caller` the account in whose name it calls.
///
/// An id that `registry` does not hold, and a buffer that has more than
/// `MAX_LENGTH` bytes or is not what the handler's signature asks for, are
/// protocol violations: nothing is charged and nothing changes.
/// If `meter` does not cover the declared cost, the call is undone before
/// the handler runs: again nothing changes. Otherwise the cost is taken,
/// for good, and the handler that `registry` holds under `id` runs, that
/// one and no other. Where it asks for the call to be undone, the store
/// of `pallet` is as before the call; what it noted in `context` stays.
pub fn dispatch(
    registry: &Registry,
    id: FunctionId,
    declared_cost: u64,
    raw_input: Vec<u8>,
    caller: &AccountId,
    meter: &mut CostMeter,
    context: &mut ExtensionCallContext,
    pallet: &mut Pallet,
) -> (out: Dispatch)
    ensures
        (out@, host_state(*final(meter), *final(context), *final(pallet))) == spec_dispatch(
            registry@,
            id,
            declared_cost,
            raw_input@,
            *caller,
            host_state(*old(meter), *old(context), *old(pallet)),
        ),
        out matches Dispatch::Done(outcome) ==> outcome.status == STATUS_SUCCESS,
        !(out is Done) ==> final(pallet)@ == old(pallet)@,
        out is Fatal ==> final(meter)@ == old(meter)@ && final(context)@ == old(context)@,
        declared_cost > old(meter)@ ==> !(out is Done) && final(meter)@ == old(meter)@
            && final(context)@ == old(context)@,
        final(meter)@ <= old(meter)@,
{
    // ReceiveId
    let handler: Handler = match registry.lookup(id) {
        Some(handler) => handler,
        None => {
            return Dispatch::Fatal(ProtocolViolation::UnknownFunction(id));
        },
    };
    // ReadInput
    let input: CallBuffer = match CallBuffer::new(raw_input) {
        Some(input) => input,
        None => {
            return Dispatch::Fatal(ProtocolViolation::MalformedBuffer(DecodeError::TooLarge));
        },
    };
    let request: Request = match read_input(handler, &input) {
        Ok(request) => request,
        Err(e) => {
            return Dispatch::Fatal(ProtocolViolation::MalformedBuffer(e));
        },
    };
    // ChargeCost
    if meter.charge(declared_cost).is_err() {
        return Dispatch::Reverted(Revert::OutOfBudget);
    }
    // Execute, WriteOutput
    execute(request, caller, meter, context, pallet)
}

} // verus!
