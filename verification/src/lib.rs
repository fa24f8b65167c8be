//! Support for the Nordic nRF52 Development Kit: the C-compatible scalar
//! types, the interrupt numbers of the nRF52832, the reserved slots of the
//! Cortex-M exception table, the translation of SoftDevice/SDK error codes,
//! and the decisions of the Bluetooth stack bring-up.
#![allow(non_camel_case_types, non_snake_case, non_upper_case_globals)]

use vstd::prelude::*;

pub mod ble_stack;
pub mod ctypes;
pub mod exceptions;

verus! {

/// System initialisation of the board: there is nothing to set up before the
/// Bluetooth stack, so it does nothing.
pub fn init_sys() {
}

/// What an SDK or SoftDevice error code means: success exactly when it is zero.
pub open spec fn is_success(ec: u32) -> bool {
    ec == 0
}

/// Only `NRF_SUCCESS`, the code zero, is a success: every other code, such as
/// `NRF_ERROR_SDM_LFCLK_SOURCE_UNKNOWN` (0x1000), is a failure.
pub proof fn lemma_only_zero_succeeds(ec: u32)
    ensures
        is_success(ec) <==> ec == 0,
        ec != 0 ==> !is_success(ec),
        is_success(0),
{
}

/// Turns an SDK or SoftDevice return code into a `Result`: `Ok(())` for
/// `NRF_SUCCESS` (zero), `Err(())` for every other code.
pub fn check(ec: u32) -> (res: Result<(), ()>)
    ensures
        res is Ok <==> is_success(ec),
        res is Err <==> !is_success(ec),
        ec == 0 ==> res == Ok::<(), ()>(()),
        ec != 0 ==> res == Err::<(), ()>(()),
{
    match ec {
        0 => Ok(()),
        _ => Err(()),
    }
}

/// An interrupt number as the CMSIS device header gives it: the core's
/// system exceptions are negative, the nRF52832 peripherals count up from zero.
pub type IRQn_Type = i8;

pub const IRQn_Type_Reset_IRQn: IRQn_Type = -15;
pub const IRQn_Type_NonMaskableInt_IRQn: IRQn_Type = -14;
pub const IRQn_Type_HardFault_IRQn: IRQn_Type = -13;
pub const IRQn_Type_MemoryManagement_IRQn: IRQn_Type = -12;
pub const IRQn_Type_BusFault_IRQn: IRQn_Type = -11;
pub const IRQn_Type_UsageFault_IRQn: IRQn_Type = -10;
pub const IRQn_Type_SVCall_IRQn: IRQn_Type = -5;
pub const IRQn_Type_DebugMonitor_IRQn: IRQn_Type = -4;
pub const IRQn_Type_PendSV_IRQn: IRQn_Type = -2;
pub const IRQn_Type_SysTick_IRQn: IRQn_Type = -1;
pub const IRQn_Type_POWER_CLOCK_IRQn: IRQn_Type = 0;
pub const IRQn_Type_RADIO_IRQn: IRQn_Type = 1;
pub const IRQn_Type_UARTE0_UART0_IRQn: IRQn_Type = 2;
pub const IRQn_Type_SPIM0_SPIS0_TWIM0_TWIS0_SPI0_TWI0_IRQn: IRQn_Type = 3;
pub const IRQn_Type_SPIM1_SPIS1_TWIM1_TWIS1_SPI1_TWI1_IRQn: IRQn_Type = 4;
pub const IRQn_Type_NFCT_IRQn: IRQn_Type = 5;
pub const IRQn_Type_GPIOTE_IRQn: IRQn_Type = 6;
pub const IRQn_Type_SAADC_IRQn: IRQn_Type = 7;
pub const IRQn_Type_TIMER0_IRQn: IRQn_Type = 8;
pub const IRQn_Type_TIMER1_IRQn: IRQn_Type = 9;
pub const IRQn_Type_TIMER2_IRQn: IRQn_Type = 10;
pub const IRQn_Type_RTC0_IRQn: IRQn_Type = 11;
pub const IRQn_Type_TEMP_IRQn: IRQn_Type = 12;
pub const IRQn_Type_RNG_IRQn: IRQn_Type = 13;
pub const IRQn_Type_ECB_IRQn: IRQn_Type = 14;
pub const IRQn_Type_CCM_AAR_IRQn: IRQn_Type = 15;
pub const IRQn_Type_WDT_IRQn: IRQn_Type = 16;
pub const IRQn_Type_RTC1_IRQn: IRQn_Type = 17;
pub const IRQn_Type_QDEC_IRQn: IRQn_Type = 18;
pub const IRQn_Type_COMP_LPCOMP_IRQn: IRQn_Type = 19;
pub const IRQn_Type_SWI0_EGU0_IRQn: IRQn_Type = 20;
pub const IRQn_Type_SWI1_EGU1_IRQn: IRQn_Type = 21;
pub const IRQn_Type_SWI2_EGU2_IRQn: IRQn_Type = 22;
pub const IRQn_Type_SWI3_EGU3_IRQn: IRQn_Type = 23;
pub const IRQn_Type_SWI4_EGU4_IRQn: IRQn_Type = 24;
pub const IRQn_Type_SWI5_EGU5_IRQn: IRQn_Type = 25;
pub const IRQn_Type_TIMER3_IRQn: IRQn_Type = 26;
pub const IRQn_Type_TIMER4_IRQn: IRQn_Type = 27;
pub const IRQn_Type_PWM0_IRQn: IRQn_Type = 28;
pub const IRQn_Type_PDM_IRQn: IRQn_Type = 29;
pub const IRQn_Type_MWU_IRQn: IRQn_Type = 32;
pub const IRQn_Type_PWM1_IRQn: IRQn_Type = 33;
pub const IRQn_Type_PWM2_IRQn: IRQn_Type = 34;
pub const IRQn_Type_SPIM2_SPIS2_SPI2_IRQn: IRQn_Type = 35;
pub const IRQn_Type_RTC2_IRQn: IRQn_Type = 36;
pub const IRQn_Type_I2S_IRQn: IRQn_Type = 37;
pub const IRQn_Type_FPU_IRQn: IRQn_Type = 38;

} // verus!
