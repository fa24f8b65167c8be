use nrf52dk_sys::check;
use nrf52dk_sys::ctypes::c_void;
use nrf52dk_sys::exceptions::Reserved;
use nrf52dk_sys::{IRQn_Type, IRQn_Type_FPU_IRQn, IRQn_Type_Reset_IRQn, IRQn_Type_SysTick_IRQn};

#[test]
fn check_success_code_is_ok() {
    assert_eq!(check(0), Ok(()));
}

#[test]
fn check_nonzero_codes_are_err() {
    assert_eq!(check(1), Err(()));
    // NRF_ERROR_INVALID_STATE
    assert_eq!(check(8), Err(()));
    assert_eq!(check(0x3001), Err(()));
    assert_eq!(check(u32::MAX), Err(()));
}

#[test]
fn check_can_be_unwrapped_on_success() {
    check(0).unwrap();
}

#[test]
fn check_failure_is_not_ok() {
    assert!(check(4).is_err());
    assert!(!check(4).is_ok());
}

#[test]
fn reserved_slot_is_copy() {
    let a = Reserved::Vector;
    let b = a;
    assert_eq!(a, b);
    let table = [Reserved::Vector; 4];
    assert_eq!(table.len(), 4);
}

#[test]
fn c_void_variants_exist() {
    let v = c_void::__variant1;
    assert!(matches!(v, c_void::__variant1));
    assert!(matches!(c_void::__variant2, c_void::__variant2));
}

#[test]
fn irq_numbers_of_the_nrf52832() {
    let reset: IRQn_Type = IRQn_Type_Reset_IRQn;
    assert_eq!(reset, -15);
    assert_eq!(IRQn_Type_SysTick_IRQn, -1);
    assert_eq!(IRQn_Type_FPU_IRQn, 38);
}
