use call_bridge::codec::{decode, MAX_LENGTH};
use call_bridge::contract::{ExampleExtension, UpdatedNum};
use call_bridge::identity::{AccountId, Origin};
use call_bridge::pallet::{
    invoke_guest, CallError, CallOutcome, Error, Event, GuestCall, GuestResult, Pallet,
    FLIP_GAS_LIMIT, FLIP_SELECTOR,
};

fn account(tag: u8) -> AccountId {
    AccountId::new([tag; 32])
}

fn selector_of(len: usize) -> Vec<u8> {
    (0..len).map(|i| i as u8).collect()
}

/// Stands for the guest: counts how often it is invoked.
struct CountingGuest {
    invoked: u32,
    answer: GuestResult,
}

impl CountingGuest {
    fn invoke(&mut self, _call: &GuestCall) -> GuestResult {
        self.invoked += 1;
        self.answer.clone()
    }
}

/// Runs an outbound call to its end, as the host's caller does.
fn run(
    guest: &mut CountingGuest,
    origin: &Origin,
    selector: Vec<u8>,
    arg: u32,
) -> Result<CallOutcome, CallError> {
    let call = Pallet::call_smart_contract(origin, account(9), selector, arg, 5000)?;
    Pallet::conclude(guest.invoke(&call))
}

#[test]
fn signed_call_with_a_short_selector_is_handed_on() {
    let origin = Origin::Signed(account(1));
    let call = Pallet::call_smart_contract(&origin, account(2), vec![122, 20, 161, 130], 42, 777);
    assert_eq!(
        call,
        Ok(GuestCall {
            caller: account(1),
            target: account(2),
            value: 0,
            gas_limit: 777,
            payload: vec![16, 122, 20, 161, 130, 42, 0, 0, 0],
            allow_reentry: true,
        })
    );
}

#[test]
fn unsigned_call_is_unauthenticated() {
    for origin in [Origin::Root, Origin::Unsigned] {
        assert_eq!(
            Pallet::call_smart_contract(&origin, account(2), vec![1], 1, 1),
            Err(CallError::Unauthenticated)
        );
        assert_eq!(Pallet::flip_smart_contract(&origin, account(2)), Err(CallError::Unauthenticated));
        assert_eq!(
            invoke_guest(&origin, account(2), 5, 6, vec![7], false),
            Err(CallError::Unauthenticated)
        );
    }
}

#[test]
fn origin_is_looked_at_before_the_selector() {
    assert_eq!(
        Pallet::call_smart_contract(&Origin::Unsigned, account(2), selector_of(60), 1, 1),
        Err(CallError::Unauthenticated)
    );
}

#[test]
fn selector_at_the_bound() {
    let origin = Origin::Signed(account(1));
    assert_eq!(MAX_LENGTH, 50);
    let shorter = Pallet::call_smart_contract(&origin, account(2), selector_of(49), 3, 1)
        .expect("49 bytes are within the bound");
    assert_eq!(decode(&shorter.payload), Ok((selector_of(49), 3)));
    let longest = Pallet::call_smart_contract(&origin, account(2), selector_of(50), 3, 1)
        .expect("50 bytes are within the bound");
    assert_eq!(decode(&longest.payload), Ok((selector_of(50), 3)));
    assert_eq!(
        Pallet::call_smart_contract(&origin, account(2), selector_of(51), 3, 1),
        Err(CallError::Module(Error::NewValueTooLarge))
    );
    assert_eq!(
        Pallet::call_smart_contract(&origin, account(2), selector_of(52), 3, 1),
        Err(CallError::Module(Error::NewValueTooLarge))
    );
}

#[test]
fn oversized_selector_never_reaches_the_guest() {
    let mut guest =
        CountingGuest { invoked: 0, answer: GuestResult::Returned { reverted: false, data: vec![] } };
    let origin = Origin::Signed(account(1));
    for len in [51usize, 52, 64, 1000, 70000] {
        assert_eq!(
            run(&mut guest, &origin, selector_of(len), 1),
            Err(CallError::Module(Error::NewValueTooLarge))
        );
    }
    assert_eq!(guest.invoked, 0);
    assert!(run(&mut guest, &origin, selector_of(4), 1).is_ok());
    assert_eq!(guest.invoked, 1);
}

#[test]
fn selector_of_just_the_most_bytes_reaches_the_guest_once() {
    let mut guest =
        CountingGuest { invoked: 0, answer: GuestResult::Returned { reverted: false, data: vec![] } };
    let origin = Origin::Signed(account(1));
    let call = Pallet::call_smart_contract(&origin, account(9), vec![0u8; 50], 0, 5000)
        .expect("50 bytes are within the bound");
    assert_eq!(call.payload.len(), 55);
    assert_eq!(call.payload[0], 200);
    assert_eq!(&call.payload[1..51], &[0u8; 50][..]);
    assert_eq!(&call.payload[51..], &[0u8, 0, 0, 0][..]);
    assert!(run(&mut guest, &origin, vec![0u8; 50], 0).is_ok());
    assert_eq!(guest.invoked, 1);
}

#[test]
fn empty_selector_is_handed_on() {
    let origin = Origin::Signed(account(1));
    let call = Pallet::call_smart_contract(&origin, account(2), Vec::new(), 0x0102_0304, 1)
        .expect("an empty selector is within the bound");
    assert_eq!(call.payload, vec![0, 4, 3, 2, 1]);
}

#[test]
fn flip_names_the_method_by_a_word() {
    assert_eq!(FLIP_GAS_LIMIT, 10000);
    assert_eq!(FLIP_SELECTOR, 0x000a_bcde);
    let call = Pallet::flip_smart_contract(&Origin::Signed(account(4)), account(5));
    assert_eq!(
        call,
        Ok(GuestCall {
            caller: account(4),
            target: account(5),
            value: 0,
            gas_limit: 10000,
            payload: vec![0xde, 0xbc, 0x0a, 0x00],
            allow_reentry: true,
        })
    );
}

#[test]
fn invoke_guest_passes_everything_on() {
    let call = invoke_guest(&Origin::Signed(account(1)), account(2), 55, 66, vec![1, 2], false);
    assert_eq!(
        call,
        Ok(GuestCall {
            caller: account(1),
            target: account(2),
            value: 55,
            gas_limit: 66,
            payload: vec![1, 2],
            allow_reentry: false,
        })
    );
}

#[test]
fn call_that_went_through_sends_called_contract() {
    let result = GuestResult::Returned { reverted: false, data: vec![1, 2, 3] };
    assert_eq!(
        Pallet::conclude(result),
        Ok(CallOutcome { status: 0, output: Some(vec![1, 2, 3]), events: vec![Event::CalledContract] })
    );
}

#[test]
fn guest_failure_fails_the_call_and_sends_nothing() {
    let mut reverting = CountingGuest {
        invoked: 0,
        answer: GuestResult::Returned { reverted: true, data: vec![42, 99] },
    };
    let origin = Origin::Signed(account(1));
    assert_eq!(
        run(&mut reverting, &origin, vec![1], 1),
        Err(CallError::GuestReverted(vec![42, 99]))
    );
    assert_eq!(reverting.invoked, 1);
    let mut failing =
        CountingGuest { invoked: 0, answer: GuestResult::Failed { error: vec![3, 7, 1] } };
    assert_eq!(run(&mut failing, &origin, vec![1], 1), Err(CallError::GuestFailed(vec![3, 7, 1])));
    assert_eq!(failing.invoked, 1);
}

#[test]
fn guest_error_is_handed_on_unchanged() {
    for error in [vec![], vec![0u8], vec![3, 7, 1], vec![255; 40]] {
        assert_eq!(
            Pallet::conclude(GuestResult::Failed { error: error.clone() }),
            Err(CallError::GuestFailed(error.clone()))
        );
        assert_eq!(
            Pallet::conclude(GuestResult::OutOfBudget { error: error.clone() }),
            Err(CallError::OutOfBudget(error.clone()))
        );
        assert_eq!(
            Pallet::conclude(GuestResult::Returned { reverted: true, data: error.clone() }),
            Err(CallError::GuestReverted(error))
        );
    }
}

#[test]
fn guest_that_runs_out_of_budget_fails_the_call() {
    let mut guest =
        CountingGuest { invoked: 0, answer: GuestResult::OutOfBudget { error: vec![3, 8, 2] } };
    let origin = Origin::Signed(account(1));
    assert_eq!(run(&mut guest, &origin, vec![1], 1), Err(CallError::OutOfBudget(vec![3, 8, 2])));
    let flip = Pallet::flip_smart_contract(&origin, account(5)).expect("the call is signed");
    assert_eq!(flip.gas_limit, 10000);
    assert_eq!(Pallet::conclude(guest.invoke(&flip)), Err(CallError::OutOfBudget(vec![3, 8, 2])));
    assert_eq!(guest.invoked, 2);
}

#[test]
fn insert_number_stores_and_tells() {
    let mut pallet = Pallet::new();
    assert_eq!(pallet.get_items(&account(1)), Vec::<u8>::new());
    let event = pallet.insert_number(&Origin::Signed(account(1)), [3u8; 32]);
    assert_eq!(event, Ok(Event::CalledPalletFromContract(vec![3u8; 32])));
    assert_eq!(pallet.get_items(&account(1)), vec![3u8; 32]);
    assert_eq!(pallet.get_items(&account(2)), Vec::<u8>::new());
}

#[test]
fn insert_number_twice_is_refused_the_second_time() {
    let mut pallet = Pallet::new();
    let origin = Origin::Signed(account(1));
    assert!(pallet.insert_number(&origin, [3u8; 32]).is_ok());
    let after_first = pallet.clone();
    assert_eq!(
        pallet.insert_number(&origin, [3u8; 32]),
        Err(CallError::Module(Error::ValueAlreadyExists))
    );
    assert_eq!(pallet, after_first);
    assert!(pallet.insert_number(&origin, [4u8; 32]).is_ok());
    assert_eq!(pallet.get_items(&account(1)), vec![4u8; 32]);
    assert!(pallet.insert_number(&Origin::Signed(account(2)), [4u8; 32]).is_ok());
}

#[test]
fn insert_number_must_be_signed() {
    let mut pallet = Pallet::new();
    assert_eq!(pallet.insert_number(&Origin::Root, [3u8; 32]), Err(CallError::Unauthenticated));
    assert_eq!(pallet.insert_number(&Origin::Unsigned, [3u8; 32]), Err(CallError::Unauthenticated));
    assert_eq!(pallet, Pallet::new());
}

#[test]
fn host_calls_guest_from_end_to_end() {
    let origin = Origin::Signed(account(1));
    let call = Pallet::call_smart_contract(&origin, account(2), vec![122, 20, 161, 130], 42, 5000)
        .expect("the call is signed and the selector short");
    // the guest's side of the boundary
    let (selector, arg) = decode(&call.payload).expect("the payload is well formed");
    assert_eq!(selector, vec![122, 20, 161, 130]);
    let mut contract = ExampleExtension::default();
    assert_eq!(contract.set_value(arg), Ok(UpdatedNum { result: 42 }));
    assert_eq!(contract.get(), 42);
    // back on the host's side
    let outcome = Pallet::conclude(GuestResult::Returned { reverted: false, data: Vec::new() });
    assert_eq!(
        outcome,
        Ok(CallOutcome { status: 0, output: Some(Vec::new()), events: vec![Event::CalledContract] })
    );
}
