use nrf52dk_sys::ble_stack::{
    BleStackInit, CfgId, ClockLfConfig, InitFailure, InitStep, StackCall, BLE_COMMON_CFG_VS_UUID,
    BLE_EVT_BUFFER_LEN, BLE_GAP_CFG_ROLE_COUNT, BLE_GAP_ROLE_COUNT_PERIPH_DEFAULT,
};
use nrf52dk_sys::init_sys;

fn xtal_clock() -> ClockLfConfig {
    ClockLfConfig { source: 1, rc_ctiv: 0, rc_temp_ctiv: 0, xtal_accuracy: 7 }
}

fn role_count_bytes(p: u8) -> [u8; 24] {
    let mut b = [0u8; 24];
    b[0] = p;
    b
}

#[test]
fn new_machine_starts_with_handler_init() {
    let s = BleStackInit::new(xtal_clock(), 1);
    assert_eq!(s.step, InitStep::HandlerInit);
    assert_eq!(s.ram_start, 0);
    assert_eq!(
        s.next_call(),
        StackCall::HandlerInit { clock: xtal_clock(), evt_buffer_len: 100 }
    );
    assert_eq!(BLE_EVT_BUFFER_LEN, 100);
}

#[test]
fn successful_bring_up_issues_calls_in_order() {
    let ram: u32 = 0x2000_1fe8;
    let enabled_ram: u32 = 0x2000_2000;
    let mut s = BleStackInit::new(xtal_clock(), 1);
    let mut calls = Vec::new();
    // (code, RAM start written by the call)
    let answers = [(0, 0), (0, ram), (0, 0), (0, 0), (0, enabled_ram), (0, 0), (0, 0)];
    for (code, out) in answers {
        calls.push(s.next_call());
        s = s.advance(code, out).unwrap();
    }
    assert_eq!(s.step, InitStep::WaitForEvents);
    assert_eq!(s.ram_start, enabled_ram);
    assert_eq!(s.next_call(), StackCall::AppEvtWait);
    assert_eq!(
        calls,
        vec![
            StackCall::HandlerInit { clock: xtal_clock(), evt_buffer_len: 100 },
            StackCall::AppRamStartGet,
            StackCall::CfgSet { cfg_id: CfgId::CommonVsUuid, cfg: [0u8; 24], ram_start: ram },
            StackCall::CfgSet {
                cfg_id: CfgId::GapRoleCount,
                cfg: role_count_bytes(1),
                ram_start: ram
            },
            StackCall::Enable { ram_start: ram },
            StackCall::BleEvtHandlerSet,
            StackCall::SysEvtHandlerSet,
        ]
    );
}

#[test]
fn role_count_payload_carries_peripheral_count() {
    let mut s = BleStackInit::new(xtal_clock(), 3);
    s = s.advance(0, 0).unwrap();
    s = s.advance(0, 0x2000_0000).unwrap();
    s = s.advance(0, 0).unwrap();
    assert_eq!(s.step, InitStep::CfgRoleCount);
    match s.next_call() {
        StackCall::CfgSet { cfg_id, cfg, ram_start } => {
            assert_eq!(cfg_id, CfgId::GapRoleCount);
            assert_eq!(cfg[0], 3);
            assert!(cfg[1..].iter().all(|b| *b == 0));
            assert_eq!(ram_start, 0x2000_0000);
        }
        other => panic!("unexpected call {:?}", other),
    }
}

#[test]
fn ram_start_is_ignored_for_calls_that_do_not_report_it() {
    let s = BleStackInit::new(xtal_clock(), 1);
    let s = s.advance(0, 0xdead_beef).unwrap();
    assert_eq!(s.ram_start, 0);
    assert_eq!(s.step, InitStep::AppRamStartGet);
}

#[test]
fn first_failure_stops_with_step_and_code() {
    let steps = [
        InitStep::HandlerInit,
        InitStep::AppRamStartGet,
        InitStep::CfgVsUuid,
        InitStep::CfgRoleCount,
        InitStep::Enable,
        InitStep::BleEvtHandlerSet,
        InitStep::SysEvtHandlerSet,
    ];
    for k in 0..steps.len() {
        let mut s = BleStackInit::new(xtal_clock(), 1);
        for _ in 0..k {
            s = s.advance(0, 0x2000_0000).unwrap();
        }
        assert_eq!(s.step, steps[k]);
        // NRF_ERROR_NO_MEM
        assert_eq!(s.advance(4, 0), Err(InitFailure { step: steps[k], code: 4 }));
    }
}

#[test]
fn waiting_ignores_the_answer() {
    let mut s = BleStackInit::new(xtal_clock(), 1);
    for _ in 0..7 {
        s = s.advance(0, 0).unwrap();
    }
    assert_eq!(s.advance(5, 9), Ok(s));
    assert_eq!(s.advance(0, 9), Ok(s));
}

#[test]
fn firmware_bring_up_uses_the_crystal_and_default_role_count() {
    let s = BleStackInit::for_firmware();
    assert_eq!(s.step, InitStep::HandlerInit);
    assert_eq!(s.ram_start, 0);
    assert_eq!(s.clock, xtal_clock());
    assert_eq!(s.periph_role_count, 1);
    assert_eq!(BLE_GAP_ROLE_COUNT_PERIPH_DEFAULT, 1);
    assert_eq!(s, BleStackInit::new(xtal_clock(), 1));
}

#[test]
fn cfg_ids_have_their_sdk_numbers() {
    assert_eq!(CfgId::CommonVsUuid.number(), 0x01);
    assert_eq!(CfgId::GapRoleCount.number(), 0x40);
    assert_eq!(BLE_COMMON_CFG_VS_UUID, 1);
    assert_eq!(BLE_GAP_CFG_ROLE_COUNT, 0x40);
}

#[test]
fn init_sys_does_nothing() {
    init_sys();
}
