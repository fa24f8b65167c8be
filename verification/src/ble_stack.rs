//! Bring-up of the S132 SoftDevice's Bluetooth stack.
//!
//! The stack is brought up by a fixed series of SoftDevice calls, each of
//! which answers with an error code. The calls themselves are made by the
//! firmware; this module holds the decisions between them: which call comes
//! next and with which arguments, and what an answer means. A machine starts
//! at [`InitStep::HandlerInit`]; every answer of zero moves it one step on,
//! and the first non-zero answer stops the bring-up with that step and code.
//! Once all calls have succeeded the firmware waits for application events
//! for ever, whatever the wait returns.
use vstd::prelude::*;

use crate::check;
use crate::is_success;

verus! {

/// Length in bytes of the buffer that the SoftDevice handler stores BLE
/// events in.
pub const BLE_EVT_BUFFER_LEN: u16 = 100;

/// `NRF_CLOCK_LF_SRC_XTAL`: the low-frequency clock runs from the crystal.
pub const NRF_CLOCK_LF_SRC_XTAL: u8 = 1;

/// `NRF_CLOCK_LF_XTAL_ACCURACY_20_PPM`: the crystal is accurate to 20 ppm.
pub const NRF_CLOCK_LF_XTAL_ACCURACY_20_PPM: u8 = 7;

/// `BLE_GAP_ROLE_COUNT_PERIPH_DEFAULT`: the default number of peripheral
/// connections.
pub const BLE_GAP_ROLE_COUNT_PERIPH_DEFAULT: u8 = 1;

/// `BLE_COMMON_CFG_VS_UUID`, the SDK number of the vendor-specific UUID item.
pub const BLE_COMMON_CFG_VS_UUID: u32 = 0x01;

/// `BLE_GAP_CFG_ROLE_COUNT`, the SDK number of the GAP role count item.
pub const BLE_GAP_CFG_ROLE_COUNT: u32 = 0x40;

/// The low-frequency clock configuration handed to the SoftDevice
/// (`nrf_clock_lf_cfg_t`).
#[derive(Clone, Copy, Debug, PartialEq, Eq, Structural)]
pub struct ClockLfConfig {
    pub source: u8,
    pub rc_ctiv: u8,
    pub rc_temp_ctiv: u8,
    pub xtal_accuracy: u8,
}

/// The BLE configuration items that the bring-up sets.
#[derive(Clone, Copy, Debug, PartialEq, Eq, Structural)]
pub enum CfgId {
    /// `BLE_COMMON_CFG_VS_UUID`: the number of vendor-specific UUIDs.
    CommonVsUuid,
    /// `BLE_GAP_CFG_ROLE_COUNT`: the number of connections per GAP role.
    GapRoleCount,
}

/// Where the bring-up stands: the call it makes next.
#[derive(Clone, Copy, Debug, PartialEq, Eq, Structural)]
pub enum InitStep {
    HandlerInit,
    AppRamStartGet,
    CfgVsUuid,
    CfgRoleCount,
    Enable,
    BleEvtHandlerSet,
    SysEvtHandlerSet,
    WaitForEvents,
}

/// A SoftDevice call that the firmware is to make, with its arguments.
#[derive(Clone, Copy, Debug, PartialEq, Eq)]
pub enum StackCall {
    /// `softdevice_handler_init` with this clock, an event buffer of
    /// `evt_buffer_len` bytes and no event handler.
    HandlerInit { clock: ClockLfConfig, evt_buffer_len: u16 },
    /// `softdevice_app_ram_start_get`, which reports the application's RAM start.
    AppRamStartGet,
    /// `sd_ble_cfg_set` of item `cfg_id` with the bytes of a `ble_cfg_t`.
    CfgSet { cfg_id: CfgId, cfg: [u8; 24], ram_start: u32 },
    /// `softdevice_enable`, which may report a new RAM start.
    Enable { ram_start: u32 },
    /// `softdevice_ble_evt_handler_set` with the firmware's BLE event handler.
    BleEvtHandlerSet,
    /// `softdevice_sys_evt_handler_set` with the firmware's system event handler.
    SysEvtHandlerSet,
    /// `sd_app_evt_wait`.
    AppEvtWait,
}

/// The bring-up stopped: the call of `step` answered `code`.
#[derive(Clone, Copy, Debug, PartialEq, Eq, Structural)]
pub struct InitFailure {
    pub step: InitStep,
    pub code: u32,
}

/// The state of the bring-up.
#[derive(Clone, Copy, Debug, PartialEq, Eq, Structural)]
pub struct BleStackInit {
    /// The call that comes next.
    pub step: InitStep,
    /// The application RAM start, as last reported by the SoftDevice.
    pub ram_start: u32,
    /// The low-frequency clock the SoftDevice is started with.
    pub clock: ClockLfConfig,
    /// The number of peripheral-role connections to configure.
    pub periph_role_count: u8,
}

/// The `ble_cfg_t` that sets no vendor-specific UUID: all 24 bytes zero.
pub open spec fn vs_uuid_cfg_bytes() -> Seq<u8> {
    Seq::new(24, |i: int| 0u8)
}

/// The `ble_cfg_t` that allows `periph` peripheral connections and no
/// central ones: the first byte is `periph`, the other 23 are zero.
pub open spec fn role_count_cfg_bytes(periph: u8) -> Seq<u8> {
    Seq::new(24, |i: int| if i == 0 { periph } else { 0u8 })
}

/// The clock the firmware starts the SoftDevice with: the crystal, accurate
/// to 20 ppm, with no RC calibration.
pub open spec fn xtal_20ppm_clock() -> ClockLfConfig {
    ClockLfConfig {
        source: NRF_CLOCK_LF_SRC_XTAL,
        rc_ctiv: 0,
        rc_temp_ctiv: 0,
        xtal_accuracy: NRF_CLOCK_LF_XTAL_ACCURACY_20_PPM,
    }
}

/// The SDK number of configuration item `id`.
pub open spec fn cfg_id_value(id: CfgId) -> u32 {
    match id {
        CfgId::CommonVsUuid => BLE_COMMON_CFG_VS_UUID,
        CfgId::GapRoleCount => BLE_GAP_CFG_ROLE_COUNT,
    }
}

impl CfgId {
    /// The SDK number of this configuration item, as `sd_ble_cfg_set` takes it.
    pub fn number(&self) -> (n: u32)
        ensures
            n == cfg_id_value(*self),
            *self == CfgId::CommonVsUuid ==> n == 0x01,
            *self == CfgId::GapRoleCount ==> n == 0x40,
    {
        match self {
            CfgId::CommonVsUuid => BLE_COMMON_CFG_VS_UUID,
            CfgId::GapRoleCount => BLE_GAP_CFG_ROLE_COUNT,
        }
    }
}

/// The step that follows `step` when its call succeeds.
pub open spec fn next_step(step: InitStep) -> InitStep {
    match step {
        InitStep::HandlerInit => InitStep::AppRamStartGet,
        InitStep::AppRamStartGet => InitStep::CfgVsUuid,
        InitStep::CfgVsUuid => InitStep::CfgRoleCount,
        InitStep::CfgRoleCount => InitStep::Enable,
        InitStep::Enable => InitStep::BleEvtHandlerSet,
        InitStep::BleEvtHandlerSet => InitStep::SysEvtHandlerSet,
        InitStep::SysEvtHandlerSet => InitStep::WaitForEvents,
        InitStep::WaitForEvents => InitStep::WaitForEvents,
    }
}

/// Whether the call of `step` reports a RAM start through its argument.
pub open spec fn reports_ram_start(step: InitStep) -> bool {
    step == InitStep::AppRamStartGet || step == InitStep::Enable
}

/// The call that a machine in state `s` makes next is `c`.
pub open spec fn is_call_for(s: BleStackInit, c: StackCall) -> bool {
    match s.step {
        InitStep::HandlerInit => c == StackCall::HandlerInit {
            clock: s.clock,
            evt_buffer_len: BLE_EVT_BUFFER_LEN,
        },
        InitStep::AppRamStartGet => c == StackCall::AppRamStartGet,
        InitStep::CfgVsUuid => match c {
            StackCall::CfgSet { cfg_id, cfg, ram_start } => {
                &&& cfg_id == CfgId::CommonVsUuid
                &&& cfg@ == vs_uuid_cfg_bytes()
                &&& ram_start == s.ram_start
            },
            _ => false,
        },
        InitStep::CfgRoleCount => match c {
            StackCall::CfgSet { cfg_id, cfg, ram_start } => {
                &&& cfg_id == CfgId::GapRoleCount
                &&& cfg@ == role_count_cfg_bytes(s.periph_role_count)
                &&& ram_start == s.ram_start
            },
            _ => false,
        },
        InitStep::Enable => c == StackCall::Enable { ram_start: s.ram_start },
        InitStep::BleEvtHandlerSet => c == StackCall::BleEvtHandlerSet,
        InitStep::SysEvtHandlerSet => c == StackCall::SysEvtHandlerSet,
        InitStep::WaitForEvents => c == StackCall::AppEvtWait,
    }
}

/// What a machine in state `s` becomes when its call answers `code` and
/// reports `ram_start` through its argument: a failure for a non-zero code
/// before the stack runs, else the next step, with the reported RAM start
/// kept where the call reports one. While waiting for events the answer is
/// ignored.
pub open spec fn spec_advance(s: BleStackInit, code: u32, ram_start: u32) -> Result<
    BleStackInit,
    InitFailure,
> {
    if s.step == InitStep::WaitForEvents {
        Ok(s)
    } else if !is_success(code) {
        Err(InitFailure { step: s.step, code })
    } else {
        Ok(
            BleStackInit {
                step: next_step(s.step),
                ram_start: if reports_ram_start(s.step) {
                    ram_start
                } else {
                    s.ram_start
                },
                ..s
            },
        )
    }
}

/// The steps of a bring-up in the order in which their calls are made,
/// ending with the wait for events.
pub open spec fn bring_up_order() -> Seq<InitStep> {
    seq![
        InitStep::HandlerInit,
        InitStep::AppRamStartGet,
        InitStep::CfgVsUuid,
        InitStep::CfgRoleCount,
        InitStep::Enable,
        InitStep::BleEvtHandlerSet,
        InitStep::SysEvtHandlerSet,
        InitStep::WaitForEvents,
    ]
}

/// The position of `step` in [`bring_up_order`].
pub open spec fn step_index(step: InitStep) -> nat {
    match step {
        InitStep::HandlerInit => 0,
        InitStep::AppRamStartGet => 1,
        InitStep::CfgVsUuid => 2,
        InitStep::CfgRoleCount => 3,
        InitStep::Enable => 4,
        InitStep::BleEvtHandlerSet => 5,
        InitStep::SysEvtHandlerSet => 6,
        InitStep::WaitForEvents => 7,
    }
}

/// Every call in `answers` succeeded.
pub open spec fn all_succeed(answers: Seq<(u32, u32)>) -> bool {
    forall|j: int| 0 <= j < answers.len() ==> is_success(#[trigger] answers[j].0)
}

/// The machine `s` fed with `answers`, one [`BleStackInit::advance`] per
/// answer (a code and a reported RAM start), stopping at the first failure.
pub open spec fn run(s: BleStackInit, answers: Seq<(u32, u32)>) -> Result<BleStackInit, InitFailure>
    decreases answers.len(),
{
    if answers.len() == 0 {
        Ok(s)
    } else {
        match spec_advance(s, answers[0].0, answers[0].1) {
            Ok(t) => run(t, answers.drop_first()),
            Err(f) => Err(f),
        }
    }
}

proof fn lemma_index_order(step: InitStep)
    ensures
        step_index(step) < 8,
        bring_up_order()[step_index(step) as int] == step,
        step != InitStep::WaitForEvents ==> step_index(next_step(step)) == step_index(step) + 1,
        step == InitStep::WaitForEvents <==> step_index(step) == 7,
        reports_ram_start(step) <==> (step_index(step) == 1 || step_index(step) == 4),
{
}

proof fn lemma_run_success(s: BleStackInit, answers: Seq<(u32, u32)>)
    requires
        all_succeed(answers),
    ensures
        run(s, answers) is Ok,
        run(s, answers)->Ok_0.step == bring_up_order()[
            vstd::math::min(step_index(s.step) + answers.len() as int, 7)
        ],
        run(s, answers)->Ok_0.clock == s.clock,
        run(s, answers)->Ok_0.periph_role_count == s.periph_role_count,
        step_index(s.step) >= 5 ==> run(s, answers)->Ok_0.ram_start == s.ram_start,
    decreases answers.len(),
{
    lemma_index_order(s.step);
    if answers.len() > 0 {
        assert(is_success(answers[0].0));
        let t = spec_advance(s, answers[0].0, answers[0].1)->Ok_0;
        let rest = answers.drop_first();
        assert forall|j: int| 0 <= j < rest.len() implies is_success(#[trigger] rest[j].0) by {
            assert(rest[j] == answers[j + 1]);
        }
        lemma_index_order(t.step);
        lemma_run_success(t, rest);
    }
}

proof fn lemma_run_split(s: BleStackInit, answers: Seq<(u32, u32)>, k: int)
    requires
        0 <= k <= answers.len(),
        run(s, answers.take(k)) is Ok,
    ensures
        run(s, answers) == run(run(s, answers.take(k))->Ok_0, answers.skip(k)),
    decreases k,
{
    if k > 0 {
        let head = answers.take(k);
        assert(head[0] == answers[0]);
        let t = spec_advance(s, answers[0].0, answers[0].1)->Ok_0;
        assert(head.drop_first() =~= answers.drop_first().take(k - 1));
        assert(answers.skip(k) =~= answers.drop_first().skip(k - 1));
        lemma_run_split(t, answers.drop_first(), k - 1);
    } else {
        assert(answers.skip(0) =~= answers);
    }
}

/// From a machine that has made no call yet, answering every call with
/// success issues the calls in [`bring_up_order`] and then waits for
/// events: after `n` answers the machine stands at the `min(n, 7)`-th step,
/// with the clock and the peripheral role count it was made with.
pub proof fn lemma_bring_up_order(s: BleStackInit, answers: Seq<(u32, u32)>)
    requires
        s.step == InitStep::HandlerInit,
        all_succeed(answers),
    ensures
        run(s, answers) is Ok,
        run(s, answers)->Ok_0.step == bring_up_order()[vstd::math::min(answers.len() as int, 7)],
        run(s, answers)->Ok_0.clock == s.clock,
        run(s, answers)->Ok_0.periph_role_count == s.periph_role_count,
{
    lemma_run_success(s, answers);
}

/// The RAM start that `softdevice_app_ram_start_get` reports (the second
/// answer) is the one that both `sd_ble_cfg_set` calls and
/// `softdevice_enable` are made with, and the one that `softdevice_enable`
/// reports (the fifth answer) is kept from then on.
pub proof fn lemma_ram_start_flow(s: BleStackInit, answers: Seq<(u32, u32)>)
    requires
        s.step == InitStep::HandlerInit,
        all_succeed(answers),
        answers.len() >= 2,
    ensures
        answers.len() <= 4 ==> run(s, answers)->Ok_0.ram_start == answers[1].1,
        answers.len() >= 5 ==> run(s, answers)->Ok_0.ram_start == answers[4].1,
{
    let k: int = if answers.len() <= 4 { 2 } else { 5 };
    let head = answers.take(k);
    assert(head[0] == answers[0]);
    assert(head[1] == answers[1]);
    reveal_with_fuel(run, 6);
    if k == 5 {
        assert(head[2] == answers[2]);
        assert(head[3] == answers[3]);
        assert(head[4] == answers[4]);
    }
    lemma_run_split(s, answers, k);
    let t = run(s, head)->Ok_0;
    let rest = answers.skip(k);
    assert forall|j: int| 0 <= j < rest.len() implies is_success(#[trigger] rest[j].0) by {
        assert(rest[j] == answers[j + k]);
    }
    lemma_run_success(t, rest);
    if k == 2 && answers.len() > 2 {
        assert(rest[0] == answers[2]);
        if answers.len() > 3 {
            assert(rest.drop_first()[0] == answers[3]);
        }
    }
}

/// The first call that does not succeed stops the bring-up: if the first
/// `k` answers of a fresh machine are successes and answer `k` (before the
/// wait for events) is the code `c != 0`, the run fails with the `k`-th
/// step of [`bring_up_order`] and `c`, whatever answers follow.
pub proof fn lemma_first_failure_stops(s: BleStackInit, answers: Seq<(u32, u32)>, k: int)
    requires
        s.step == InitStep::HandlerInit,
        0 <= k < 7,
        k < answers.len(),
        all_succeed(answers.take(k)),
        !is_success(answers[k].0),
    ensures
        run(s, answers) == Err::<BleStackInit, InitFailure>(
            InitFailure { step: bring_up_order()[k], code: answers[k].0 },
        ),
{
    lemma_run_success(s, answers.take(k));
    lemma_run_split(s, answers, k);
    let t = run(s, answers.take(k))->Ok_0;
    assert(answers.skip(k)[0] == answers[k]);
    lemma_index_order(t.step);
}

/// Once the stack waits for events, no answer changes the machine.
pub proof fn lemma_waiting_is_final(s: BleStackInit, answers: Seq<(u32, u32)>)
    requires
        s.step == InitStep::WaitForEvents,
    ensures
        run(s, answers) == Ok::<BleStackInit, InitFailure>(s),
    decreases answers.len(),
{
    if answers.len() > 0 {
        lemma_waiting_is_final(s, answers.drop_first());
    }
}

/// What the call of a machine's current step carries, said through the
/// machine's own fields: the configured clock and an event buffer of 100
/// bytes for the handler, a zero vendor-UUID configuration and a role-count
/// configuration whose first byte is the peripheral count, each with the
/// current RAM start, and the enable with the current RAM start.
pub open spec fn call_carries_state(s: BleStackInit, c: StackCall) -> bool {
    &&& s.step == InitStep::HandlerInit ==> c == (StackCall::HandlerInit {
        clock: s.clock,
        evt_buffer_len: 100,
    })
    &&& s.step == InitStep::AppRamStartGet ==> c == StackCall::AppRamStartGet
    &&& s.step == InitStep::CfgVsUuid ==> (c matches StackCall::CfgSet { cfg_id, cfg, ram_start }
        && cfg_id == CfgId::CommonVsUuid && ram_start == s.ram_start && cfg@.len() == 24
        && forall|i: int| 0 <= i < 24 ==> cfg@[i] == 0)
    &&& s.step == InitStep::CfgRoleCount ==> (c matches StackCall::CfgSet { cfg_id, cfg, ram_start }
        && cfg_id == CfgId::GapRoleCount && ram_start == s.ram_start && cfg@.len() == 24
        && cfg@[0] == s.periph_role_count && forall|i: int| 1 <= i < 24 ==> cfg@[i] == 0)
    &&& s.step == InitStep::Enable ==> c == (StackCall::Enable { ram_start: s.ram_start })
    &&& s.step == InitStep::BleEvtHandlerSet ==> c == StackCall::BleEvtHandlerSet
    &&& s.step == InitStep::SysEvtHandlerSet ==> c == StackCall::SysEvtHandlerSet
    &&& s.step == InitStep::WaitForEvents ==> c == StackCall::AppEvtWait
}

/// The call chosen for a machine passes on what the machine was configured
/// with: the handler is started with exactly the machine's clock (whatever
/// clock it is) and a 100-byte event buffer; the configuration and enable
/// calls carry the machine's RAM start and peripheral count.
pub proof fn lemma_call_carries_configuration(s: BleStackInit, c: StackCall)
    requires
        is_call_for(s, c),
    ensures
        call_carries_state(s, c),
        s.step == InitStep::HandlerInit ==> c == (StackCall::HandlerInit {
            clock: s.clock,
            evt_buffer_len: 100,
        }),
{
}

/// An answer stops the bring-up exactly when it is a non-zero code given
/// before the wait for events; the failure names the step and the code. A
/// zero answer moves on by one step in [`bring_up_order`].
pub proof fn lemma_advance_fails_on_nonzero(s: BleStackInit, code: u32, ram_start: u32)
    ensures
        spec_advance(s, code, ram_start) is Err <==> (s.step != InitStep::WaitForEvents && code
            != 0),
        spec_advance(s, code, ram_start) is Err ==> spec_advance(s, code, ram_start)->Err_0 == (
        InitFailure { step: s.step, code }),
        s.step != InitStep::WaitForEvents && code == 0 ==> step_index(
            spec_advance(s, code, ram_start)->Ok_0.step,
        ) == step_index(s.step) + 1,
{
    lemma_index_order(s.step);
}

/// The firmware's clock is the 20 ppm crystal with no RC calibration, and
/// the configuration items have the SDK numbers 0x01 and 0x40.
pub proof fn lemma_firmware_constants()
    ensures
        xtal_20ppm_clock() == (ClockLfConfig {
            source: 1,
            rc_ctiv: 0,
            rc_temp_ctiv: 0,
            xtal_accuracy: 7,
        }),
        cfg_id_value(CfgId::CommonVsUuid) == 0x01,
        cfg_id_value(CfgId::GapRoleCount) == 0x40,
        BLE_EVT_BUFFER_LEN == 100,
        BLE_GAP_ROLE_COUNT_PERIPH_DEFAULT == 1,
{
}

impl BleStackInit {
    /// The firmware's bring-up: the SoftDevice is started on the crystal at
    /// 20 ppm and allows the default number of peripheral connections.
    pub fn for_firmware() -> (s: Self)
        ensures
            s.step == InitStep::HandlerInit,
            s.ram_start == 0,
            s.clock == xtal_20ppm_clock(),
            s.periph_role_count == BLE_GAP_ROLE_COUNT_PERIPH_DEFAULT,
            s.clock == (ClockLfConfig { source: 1, rc_ctiv: 0, rc_temp_ctiv: 0, xtal_accuracy: 7 }),
            s.periph_role_count == 1,
    {
        let clock = ClockLfConfig {
            source: NRF_CLOCK_LF_SRC_XTAL,
            rc_ctiv: 0,
            rc_temp_ctiv: 0,
            xtal_accuracy: NRF_CLOCK_LF_XTAL_ACCURACY_20_PPM,
        };
        Self::new(clock, BLE_GAP_ROLE_COUNT_PERIPH_DEFAULT)
    }

    /// A bring-up that has made no call yet, to start the SoftDevice with
    /// `clock` and to allow `periph_role_count` peripheral connections.
    pub fn new(clock: ClockLfConfig, periph_role_count: u8) -> (s: Self)
        ensures
            s.step == InitStep::HandlerInit,
            s.ram_start == 0,
            s.clock == clock,
            s.periph_role_count == periph_role_count,
    {
        BleStackInit { step: InitStep::HandlerInit, ram_start: 0, clock, periph_role_count }
    }

    /// The SoftDevice call to make next, with its arguments.
    pub fn next_call(&self) -> (c: StackCall)
        ensures
            is_call_for(*self, c),
            call_carries_state(*self, c),
            self.step == InitStep::HandlerInit ==> c == (StackCall::HandlerInit {
                clock: self.clock,
                evt_buffer_len: 100,
            }),
            self.step == InitStep::Enable ==> c == (StackCall::Enable { ram_start: self.ram_start }),
    {
        match self.step {
            InitStep::HandlerInit => StackCall::HandlerInit {
                clock: self.clock,
                evt_buffer_len: BLE_EVT_BUFFER_LEN,
            },
            InitStep::AppRamStartGet => StackCall::AppRamStartGet,
            InitStep::CfgVsUuid => {
                let cfg: [u8; 24] = [0u8; 24];
                assert(cfg@ =~= vs_uuid_cfg_bytes());
                StackCall::CfgSet { cfg_id: CfgId::CommonVsUuid, cfg, ram_start: self.ram_start }
            },
            InitStep::CfgRoleCount => {
                let p = self.periph_role_count;
                let cfg: [u8; 24] = [
                    p, 0, 0, 0, 0, 0, 0, 0, 0, 0, 0, 0, 0, 0, 0, 0, 0, 0, 0, 0, 0, 0, 0, 0,
                ];
                assert(cfg@ =~= role_count_cfg_bytes(p));
                StackCall::CfgSet { cfg_id: CfgId::GapRoleCount, cfg, ram_start: self.ram_start }
            },
            InitStep::Enable => StackCall::Enable { ram_start: self.ram_start },
            InitStep::BleEvtHandlerSet => StackCall::BleEvtHandlerSet,
            InitStep::SysEvtHandlerSet => StackCall::SysEvtHandlerSet,
            InitStep::WaitForEvents => StackCall::AppEvtWait,
        }
    }

    /// Takes the answer to the call of the current step: its error `code`,
    /// and the RAM start that the call wrote to its argument (read only for
    /// `AppRamStartGet` and `Enable`). Fails with the step and the code on
    /// the first non-zero code; while waiting for events nothing changes.
    pub fn advance(self, code: u32, ram_start: u32) -> (res: Result<Self, InitFailure>)
        ensures
            res == spec_advance(self, code, ram_start),
            res is Err <==> (self.step != InitStep::WaitForEvents && code != 0),
            res is Err ==> res->Err_0 == (InitFailure { step: self.step, code }),
            self.step == InitStep::WaitForEvents ==> res == Ok::<Self, InitFailure>(self),
            res is Ok && self.step != InitStep::WaitForEvents ==> {
                let t = res->Ok_0;
                &&& step_index(t.step) == step_index(self.step) + 1
                &&& t.clock == self.clock
                &&& t.periph_role_count == self.periph_role_count
                &&& t.ram_start == (if self.step == InitStep::AppRamStartGet || self.step
                    == InitStep::Enable {
                    ram_start
                } else {
                    self.ram_start
                })
            },
    {
        match self.step {
            InitStep::WaitForEvents => Ok(self),
            _ => match check(code) {
                Err(()) => Err(InitFailure { step: self.step, code }),
                Ok(()) => {
                    let step = match self.step {
                        InitStep::HandlerInit => InitStep::AppRamStartGet,
                        InitStep::AppRamStartGet => InitStep::CfgVsUuid,
                        InitStep::CfgVsUuid => InitStep::CfgRoleCount,
                        InitStep::CfgRoleCount => InitStep::Enable,
                        InitStep::Enable => InitStep::BleEvtHandlerSet,
                        InitStep::BleEvtHandlerSet => InitStep::SysEvtHandlerSet,
                        InitStep::SysEvtHandlerSet => InitStep::WaitForEvents,
                        InitStep::WaitForEvents => InitStep::WaitForEvents,
                    };
                    let new_ram_start = match self.step {
                        InitStep::AppRamStartGet => ram_start,
                        InitStep::Enable => ram_start,
                        _ => self.ram_start,
                    };
                    Ok(BleStackInit { step, ram_start: new_ram_start, ..self })
                },
            },
        }
    }
}

} // verus!
