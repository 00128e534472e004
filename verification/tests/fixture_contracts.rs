use contract_lints::fixtures::dos_operation::{DosUnboundedOperation, Payee};
use contract_lints::fixtures::fuzzing::{overflow_trial, Input};
use contract_lints::fixtures::integer_overflow::IntegerOverflowUnderflow;
use contract_lints::fixtures::integer_overflow;
use contract_lints::fixtures::panic_error::{Error, PanicError};
use contract_lints::fixtures::template::Template;
use contract_lints::fixtures::unused_return::{TradingPairErrors, UnusedReturnEnum};

#[test]
fn test_new() {
    let contract = IntegerOverflowUnderflow::new(42);
    assert_eq!(42, contract.value);
}

#[test]
fn test_add() {
    let mut contract = IntegerOverflowUnderflow::new(42);
    contract.add(42);
    assert_eq!(84, contract.value);
}

#[test]
fn test_sub() {
    let mut contract = IntegerOverflowUnderflow::new(42);
    contract.sub(10);
    assert_eq!(32, contract.value);
}

#[test]
fn test_get() {
    let contract = IntegerOverflowUnderflow::new(42);
    assert_eq!(42, contract.get());
}

#[test]
fn lib_constructor_works() {
    let value = 42;
    let contract = IntegerOverflowUnderflow::new(value);
    assert_eq!(contract.get(), value);
}

#[test]
fn add_overflows() {
    let contract = integer_overflow::add_overflows(u8::MAX, 1);
    assert_eq!(contract.get(), 0);
}

#[test]
fn sub_underflows() {
    let mut contract = IntegerOverflowUnderflow::new(u8::MIN);
    contract.sub(1);
    assert_eq!(contract.get(), u8::MAX);
}

#[test]
fn constructor_works_for_every_checked_value() {
    let contract = integer_overflow::constructor_works(7);
    assert_eq!(contract.get(), 7);
    let contract = integer_overflow::constructor_works(u8::MAX);
    assert_eq!(contract.get(), u8::MAX);
}

#[test]
fn sub_underflows_helper_wraps() {
    let contract = integer_overflow::sub_underflows(0, 1);
    assert_eq!(contract.get(), u8::MAX);
    let contract = integer_overflow::sub_underflows(42, 10);
    assert_eq!(contract.get(), 32);
}

#[test]
fn fuzz_trial_holds_at_the_boundaries() {
    assert!(overflow_trial(&Input { value_for_new: u8::MAX, value_for_add: 1, value_for_sub: 0 }));
    assert!(overflow_trial(&Input { value_for_new: 0, value_for_add: 0, value_for_sub: 1 }));
    assert!(overflow_trial(&Input { value_for_new: 42, value_for_add: 42, value_for_sub: 10 }));
}

#[test]
fn dos_constructor_works() {
    let contract = DosUnboundedOperation::new();
    let first_payee = contract.get_payee(0);
    assert!(first_payee.is_none());
}

#[test]
fn next_payee_advances() {
    let mut contract = DosUnboundedOperation::new();
    let first_payee_id = contract.add_payee(1, 100);
    let second_payee_id = contract.add_payee(2, 200);
    assert_eq!(first_payee_id, 0);
    assert_eq!(second_payee_id, 1);
}

#[test]
fn saves_payee_under_its_index() {
    let mut contract = DosUnboundedOperation::new();
    contract.add_payee(5, 1000);
    let payee = contract.get_payee(0).expect("payee not found");
    assert_eq!(payee, Payee { address: 5, value: 1000 });
    assert_eq!(payee.value, 1000);
}

#[test]
fn pay_out_covers_every_payee_in_order() {
    let mut contract = DosUnboundedOperation::new();
    contract.add_payee(1, 10);
    contract.add_payee(2, 20);
    contract.add_payee(3, 30);
    let transfers = contract.pay_out();
    assert_eq!(transfers, vec![(1, 10), (2, 20), (3, 30)]);
    assert_eq!(contract.get_payee(2), Some(Payee { address: 3, value: 30 }));
}

#[test]
fn template_constructor_works() {
    let template = Template::new(false);
    assert_eq!(template.get(), false);
}

#[test]
fn flips_correctly() {
    let mut template = Template::new(false);
    assert_eq!(template.get(), false);
    template.flip();
    assert_eq!(template.get(), true);
}

#[test]
fn checked_add_succeeds_within_range() {
    let mut contract = PanicError::new(1);
    let outcome = contract.add(2);
    assert_eq!(outcome, Ok(()));
    assert_eq!(contract.value, 3);
}

#[test]
fn checked_add_reports_overflow() {
    let mut contract = PanicError::new(u32::MAX);
    let outcome = contract.add(1);
    assert_eq!(outcome, Err(Error::OverflowError));
    assert_eq!(contract.value, u32::MAX);
}

#[test]
fn percentage_difference_result_is_always_the_error() {
    let mut contract = UnusedReturnEnum::new();
    let outcome = contract.get_percentage_difference(100, 150);
    assert_eq!(outcome, Err(TradingPairErrors::Overflow));
    let outcome = contract.get_percentage_difference(1, 0);
    assert_eq!(outcome, Err(TradingPairErrors::Overflow));
}
