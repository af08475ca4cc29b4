use vstd::prelude::*;

use crate::devices::{
    BoolPdoObject, EL2008RxPdo, EthercatDevice, SubDeviceIdentityTuple,
    EL2008_IDENTITY_A, EL2008_IDENTITY_B, EL2008_IDENTITY_C,
};
use crate::error::ControlError;
use crate::machine_identification::{
    unique_of, DeviceHardwareIdentification, DeviceIdentificationIdentified, MachineIdentification,
    MachineIdentificationUnique,
};
use crate::machines::{
    find_role, get_device_identification_by_role, get_subdevice_by_index, roles_distinct,
    same_machine, validate_no_role_dublicates, validate_same_machine_identification_unique,
};

verus! {

/// Vendor number of QiTech machines.
pub const VENDOR_QITECH: u16 = 0x0001;

/// Machine number of the EL2008 test machine.
pub const TEST_EL2008_MACHINE: u16 = 0x0036;

/// Nanoseconds in one millisecond.
pub const NANOS_PER_MILLI: u64 = 1_000_000;

/// Nanoseconds between two state events: state is emitted at 30 Hz.
pub const STATE_EMIT_PERIOD_NS: u64 = 33_333_333;

/// Delay between two steps of the automatic sequence, as built.
pub const DEFAULT_AUTOMATIC_DELAY_MS: u64 = 500;

/// How the machine drives its outputs.
#[derive(Debug, Clone, Copy, PartialEq, Eq, Structural)]
pub enum TestEL2008Mode {
    Manual,
    Home,
    Automatic,
}

/// Whether the machine runs.
#[derive(Debug, Clone, Copy, PartialEq, Eq, Structural)]
pub enum MachineState {
    Stopped,
    Running,
}

/// Where the automatic sequence stands.
#[derive(Debug, Clone, Copy, PartialEq, Eq, Structural)]
pub enum AutomaticPhase {
    /// Turning on the output with this index.
    TurningOn(usize),
    /// Turning off the output with this index.
    TurningOff(usize),
    /// All outputs off, waiting to restart.
    Idle,
}

/// The state that the machine reports to user interfaces.
#[derive(Debug, Clone, Copy)]
pub struct StateEvent {
    pub led_on: [bool; 8],
    pub mode: TestEL2008Mode,
    pub machine_state: MachineState,
    pub automatic_delay_ms: u64,
}

/// The requests that the control plane can send to the machine.
#[derive(Debug, Clone, Copy, PartialEq, Eq, Structural)]
pub enum Mutation {
    SetLed { index: usize, on: bool },
    SetAllLeds { on: bool },
    SetMode { mode: TestEL2008Mode },
    Start,
    Stop,
    Reset,
    SetAutomaticDelay { delay_ms: u64 },
}

/// A test machine that drives the eight outputs of one EL2008 terminal.
///
/// The machine holds the subdevice index of its terminal in the device table;
/// the real-time thread owns that table and hands it to each call.
#[derive(Debug)]
pub struct TestEL2008Machine {
    pub machine_identification_unique: MachineIdentificationUnique,
    pub led_on: [bool; 8],
    pub mode: TestEL2008Mode,
    pub machine_state: MachineState,
    pub automatic_phase: AutomaticPhase,
    pub automatic_delay_ms: u64,
    /// Time of the last automatic step, in nanoseconds.
    pub last_automatic_step_ns: u64,
    /// Time of the last state event, in nanoseconds.
    pub last_state_emit_ns: u64,
    /// Subdevice index of the claimed EL2008.
    pub el2008_index: usize,
}

/// The output image of the EL2008 that shows `leds`.
pub open spec fn leds_pdo(leds: Seq<bool>) -> EL2008RxPdo {
    EL2008RxPdo::from_bits(leds)
}

/// `after` is `before` with the terminal at `idx`, when it is an EL2008,
/// showing `leds`; every other device is kept.
pub open spec fn outputs_applied(
    before: Seq<EthercatDevice>,
    after: Seq<EthercatDevice>,
    idx: int,
    leds: Seq<bool>,
) -> bool {
    &&& after.len() == before.len()
    &&& forall|j: int| 0 <= j < before.len() && j != idx ==> #[trigger] after[j] == before[j]
    &&& 0 <= idx < before.len() && before[idx] is EL2008 ==> after[idx] == before[idx].with_output_image(leds)
    &&& !(0 <= idx < before.len() && before[idx] is EL2008) ==> after[idx] == before[idx]
}

/// The state of a freshly built machine: all outputs off, manual mode,
/// running, the automatic sequence idle with the default delay, both times at
/// `now`, driving the EL2008 at `idx`.
pub open spec fn initial_view(
    unique: MachineIdentificationUnique,
    idx: usize,
    now: u64,
) -> TestEL2008MachineView {
    TestEL2008MachineView {
        machine_identification_unique: unique,
        led_on: all_leds(false),
        mode: TestEL2008Mode::Manual,
        machine_state: MachineState::Running,
        automatic_phase: AutomaticPhase::Idle,
        automatic_delay_ms: DEFAULT_AUTOMATIC_DELAY_MS,
        last_automatic_step_ns: now,
        last_state_emit_ns: now,
        el2008_index: idx,
    }
}

/// Identities of an EL2008 that this machine accepts.
pub open spec fn el2008_accepted(id: SubDeviceIdentityTuple) -> bool {
    id == EL2008_IDENTITY_A || id == EL2008_IDENTITY_B || id == EL2008_IDENTITY_C
}

/// The role of the EL2008 within the machine.
pub const EL2008_ROLE: u16 = 1;

/// Whether the machine can be built from a device group, and then the
/// subdevice index of the EL2008 it claims. The checks run in this order:
/// one machine, distinct roles, a device with the EL2008 role, attached to
/// EtherCAT, with an accepted identity, an EL2008 driver at its index, and
/// that driver not yet claimed by another machine.
pub open spec fn claim_outcome(
    group: Seq<DeviceIdentificationIdentified>,
    identities: Seq<SubDeviceIdentityTuple>,
    devices: Seq<EthercatDevice>,
) -> Result<usize, ControlError> {
    if group.len() == 0 {
        Err(ControlError::EmptyGroup)
    } else if !same_machine(group) {
        Err(ControlError::IdentityMismatch)
    } else if !roles_distinct(group) {
        Err(ControlError::DuplicateRole)
    } else if find_role(group, EL2008_ROLE) is None {
        Err(ControlError::MissingRole)
    } else {
        match find_role(group, EL2008_ROLE)->Some_0.device_hardware_identification {
            DeviceHardwareIdentification::Serial(_) => Err(ControlError::NotEthercat),
            DeviceHardwareIdentification::Ethercat(e) => {
                let idx = e.subdevice_index;
                if idx >= identities.len() {
                    Err(ControlError::IndexOutOfBounds)
                } else if !el2008_accepted(identities[idx as int]) {
                    Err(ControlError::IdentityMismatch)
                } else if idx >= devices.len() {
                    Err(ControlError::IndexOutOfBounds)
                } else if !(devices[idx as int] is EL2008) {
                    Err(ControlError::IdentityMismatch)
                } else if devices[idx as int].used() {
                    Err(ControlError::AlreadyClaimed)
                } else {
                    Ok(idx)
                }
            },
        }
    }
}

/// Writing outputs keeps every driver's kind and claim flag.
pub proof fn lemma_outputs_applied_keeps_claims(
    before: Seq<EthercatDevice>,
    after: Seq<EthercatDevice>,
    idx: int,
    leds: Seq<bool>,
)
    requires
        outputs_applied(before, after, idx, leds),
    ensures
        forall|j: int|
            0 <= j < before.len() ==> (#[trigger] after[j]).used() == before[j].used() && (
            after[j] is EL2008) == (before[j] is EL2008) && (after[j] is EL2004) == (
            before[j] is EL2004),
{
}

proof fn lemma_outputs_applied_twice(
    d0: Seq<EthercatDevice>,
    d1: Seq<EthercatDevice>,
    d2: Seq<EthercatDevice>,
    idx: int,
    l1: Seq<bool>,
    l2: Seq<bool>,
)
    requires
        outputs_applied(d0, d1, idx, l1),
        outputs_applied(d1, d2, idx, l2),
    ensures
        outputs_applied(d0, d2, idx, l2),
{
    if 0 <= idx < d0.len() && d0[idx] is EL2008 {
        assert(d1[idx] is EL2008);
    }
}

impl TestEL2008Machine {
    /// The kind of machine this is.
    pub open spec fn machine_identification_spec() -> MachineIdentification {
        MachineIdentification { vendor: VENDOR_QITECH, machine: TEST_EL2008_MACHINE }
    }

    /// The kind of machine this is: vendor QiTech, machine `TEST_EL2008_MACHINE`.
    pub fn machine_identification() -> (r: MachineIdentification)
        ensures
            r == Self::machine_identification_spec(),
    {
        MachineIdentification { vendor: VENDOR_QITECH, machine: TEST_EL2008_MACHINE }
    }

    /// The automatic phase names an output that exists.
    pub open spec fn wf(&self) -> bool {
        match self.automatic_phase {
            AutomaticPhase::TurningOn(i) => i < 8,
            AutomaticPhase::TurningOff(i) => i < 8,
            AutomaticPhase::Idle => true,
        }
    }

    /// Manual switching of outputs is allowed.
    pub open spec fn manual_running(&self) -> bool {
        self.mode == TestEL2008Mode::Manual && self.machine_state == MachineState::Running
    }

    /// Builds the machine from its device group and claims its EL2008 in the
    /// device table. `subdevice_identities` holds the identity of each
    /// subdevice, in bus order. On failure the device table is untouched.
    pub fn new(
        device_group: &Vec<DeviceIdentificationIdentified>,
        subdevice_identities: &Vec<SubDeviceIdentityTuple>,
        devices: &mut Vec<EthercatDevice>,
        now_ns: u64,
    ) -> (r: Result<Self, ControlError>)
        ensures
            (r is Ok) <==> claim_outcome(device_group@, subdevice_identities@, old(devices)@) is Ok,
            r is Err ==> r->Err_0 == claim_outcome(
                device_group@,
                subdevice_identities@,
                old(devices)@,
            )->Err_0 && final(devices)@ == old(devices)@,
            r is Ok ==> ({
                let idx = claim_outcome(device_group@, subdevice_identities@, old(devices)@)->Ok_0;
                &&& r->Ok_0.wf()
                &&& r->Ok_0@ == initial_view(unique_of(device_group@[0]), idx, now_ns)
                &&& final(devices)@ == old(devices)@.update(idx as int, old(devices)@[idx as int].with_used(true))
            }),
    {
        validate_same_machine_identification_unique(device_group)?;
        validate_no_role_dublicates(device_group)?;
        let device = get_device_identification_by_role(device_group, EL2008_ROLE)?;
        let idx = match &device.device_hardware_identification {
            DeviceHardwareIdentification::Ethercat(e) => e.subdevice_index,
            DeviceHardwareIdentification::Serial(_) => {
                return Err(ControlError::NotEthercat);
            },
        };
        let identity = *get_subdevice_by_index(subdevice_identities, idx)?;
        let accepted = (identity.0 == EL2008_IDENTITY_A.0 && identity.1 == EL2008_IDENTITY_A.1
            && identity.2 == EL2008_IDENTITY_A.2) || (identity.0 == EL2008_IDENTITY_B.0
            && identity.1 == EL2008_IDENTITY_B.1 && identity.2 == EL2008_IDENTITY_B.2) || (
        identity.0 == EL2008_IDENTITY_C.0 && identity.1 == EL2008_IDENTITY_C.1 && identity.2
            == EL2008_IDENTITY_C.2);
        if !accepted {
            return Err(ControlError::IdentityMismatch);
        }
        if idx >= devices.len() {
            return Err(ControlError::IndexOutOfBounds);
        }
        let is_el2008 = match &devices[idx] {
            EthercatDevice::EL2008(_) => true,
            _ => false,
        };
        if !is_el2008 {
            return Err(ControlError::IdentityMismatch);
        }
        if devices[idx].is_used() {
            return Err(ControlError::AlreadyClaimed);
        }
        let mut d = devices.remove(idx);
        d.set_used(true);
        devices.insert(idx, d);
        assert(devices@ =~= old(devices)@.update(idx as int, old(devices)@[idx as int].with_used(true)));
        let machine = TestEL2008Machine {
            machine_identification_unique: device_group[0].device_machine_identification.machine_identification_unique,
            led_on: [false; 8],
            mode: TestEL2008Mode::Manual,
            machine_state: MachineState::Running,
            automatic_phase: AutomaticPhase::Idle,
            automatic_delay_ms: DEFAULT_AUTOMATIC_DELAY_MS,
            last_automatic_step_ns: now_ns,
            last_state_emit_ns: now_ns,
            el2008_index: idx,
        };
        assert(machine@.led_on =~= all_leds(false));
        Ok(machine)
    }

    /// The state to report.
    pub fn state_event(&self) -> (r: StateEvent)
        ensures
            r == (StateEvent {
                led_on: self.led_on,
                mode: self.mode,
                machine_state: self.machine_state,
                automatic_delay_ms: self.automatic_delay_ms,
            }),
    {
        StateEvent {
            led_on: self.led_on,
            mode: self.mode,
            machine_state: self.machine_state,
            automatic_delay_ms: self.automatic_delay_ms,
        }
    }

    /// Sets one output, in manual mode while running and for an index below 8;
    /// otherwise changes nothing.
    pub fn set_led(&mut self, index: usize, on: bool)
        ensures
            final(self)@ == old(self)@.set_led(index, on),
    {
        if self.mode == TestEL2008Mode::Manual && self.machine_state == MachineState::Running
            && index < 8 {
            self.led_on[index] = on;
        }
        assert(self@.led_on =~= old(self)@.set_led(index, on).led_on);
    }

    /// Sets all outputs, in manual mode while running; otherwise changes nothing.
    pub fn set_all_leds(&mut self, on: bool)
        ensures
            final(self)@ == old(self)@.set_all_leds(on),
    {
        if self.mode == TestEL2008Mode::Manual && self.machine_state == MachineState::Running {
            self.led_on = [on; 8];
        }
        assert(self@.led_on =~= old(self)@.set_all_leds(on).led_on);
    }

    /// Starts the machine in its current mode: in home mode all outputs go
    /// off and are applied, in automatic mode the sequence restarts at `now`.
    pub fn start(&mut self, now_ns: u64, devices: &mut Vec<EthercatDevice>)
        ensures
            final(self)@ == old(self)@.start(now_ns),
            old(self).mode == TestEL2008Mode::Home ==> outputs_applied(
                old(devices)@,
                final(devices)@,
                old(self).el2008_index as int,
                final(self).led_on@,
            ),
            old(self).mode != TestEL2008Mode::Home ==> final(devices)@ == old(devices)@,
    {
        match self.mode {
            TestEL2008Mode::Manual => {
                self.machine_state = MachineState::Running;
            },
            TestEL2008Mode::Home => {
                self.machine_state = MachineState::Running;
                self.go_home(devices);
            },
            TestEL2008Mode::Automatic => {
                self.machine_state = MachineState::Running;
                self.automatic_phase = AutomaticPhase::TurningOn(0);
                self.last_automatic_step_ns = now_ns;
            },
        }
        assert(self@.led_on =~= old(self)@.start(now_ns).led_on);
    }

    /// Stops the machine; in automatic mode the sequence goes idle.
    pub fn stop(&mut self)
        ensures
            final(self)@ == old(self)@.stop(),
    {
        self.machine_state = MachineState::Stopped;
        if self.mode == TestEL2008Mode::Automatic {
            self.automatic_phase = AutomaticPhase::Idle;
        }
    }

    /// Stops the machine, turns all outputs off and applies them.
    pub fn reset(&mut self, devices: &mut Vec<EthercatDevice>)
        ensures
            final(self)@ == old(self)@.reset(),
            outputs_applied(old(devices)@, final(devices)@, old(self).el2008_index as int, final(self).led_on@),
    {
        self.machine_state = MachineState::Stopped;
        self.led_on = [false; 8];
        self.automatic_phase = AutomaticPhase::Idle;
        self.apply_outputs(devices);
        assert(self@.led_on =~= old(self)@.reset().led_on);
    }

    /// Turns all outputs off and applies them.
    fn go_home(&mut self, devices: &mut Vec<EthercatDevice>)
        ensures
            *final(self) == (TestEL2008Machine { led_on: final(self).led_on, ..*old(self) }),
            final(self).led_on@ == all_leds(false),
            outputs_applied(old(devices)@, final(devices)@, old(self).el2008_index as int, final(self).led_on@),
    {
        self.led_on = [false; 8];
        assert(self.led_on@ =~= all_leds(false));
        self.apply_outputs(devices);
    }

    /// Changes the mode while stopped; the automatic sequence goes idle.
    pub fn set_mode(&mut self, mode: TestEL2008Mode)
        ensures
            final(self)@ == old(self)@.set_mode(mode),
    {
        if self.machine_state == MachineState::Stopped {
            self.mode = mode;
            self.automatic_phase = AutomaticPhase::Idle;
        }
    }

    /// Sets the delay between two automatic steps.
    pub fn set_automatic_delay(&mut self, delay_ms: u64)
        ensures
            final(self)@ == old(self)@.set_automatic_delay(delay_ms),
    {
        self.automatic_delay_ms = delay_ms;
    }

    /// Takes one step of the automatic sequence when it is due at `now` and
    /// applies the outputs; otherwise changes nothing.
    pub fn execute_automatic(&mut self, now_ns: u64, devices: &mut Vec<EthercatDevice>)
        requires
            old(self).wf(),
        ensures
            final(self).wf(),
            final(self)@ == old(self)@.automatic(now_ns),
            old(self)@.automatic_due(now_ns) ==> outputs_applied(
                old(devices)@,
                final(devices)@,
                old(self).el2008_index as int,
                final(self).led_on@,
            ),
            !old(self)@.automatic_due(now_ns) ==> final(devices)@ == old(devices)@,
    {
        if self.mode != TestEL2008Mode::Automatic || self.machine_state != MachineState::Running {
            return;
        }
        let elapsed = now_ns.saturating_sub(self.last_automatic_step_ns);
        if self.automatic_delay_ms > u64::MAX / NANOS_PER_MILLI {
            assert(self.automatic_delay_ms * NANOS_PER_MILLI > u64::MAX) by (nonlinear_arith)
                requires
                    self.automatic_delay_ms > u64::MAX / NANOS_PER_MILLI,
            ;
            return;
        }
        assert(self.automatic_delay_ms * NANOS_PER_MILLI <= u64::MAX) by (nonlinear_arith)
            requires
                self.automatic_delay_ms <= u64::MAX / NANOS_PER_MILLI,
        ;
        if elapsed < self.automatic_delay_ms * NANOS_PER_MILLI {
            return;
        }
        self.last_automatic_step_ns = now_ns;
        match self.automatic_phase {
            AutomaticPhase::TurningOn(index) => {
                self.led_on[index] = true;
                if index == 7 {
                    self.automatic_phase = AutomaticPhase::TurningOff(7);
                } else {
                    self.automatic_phase = AutomaticPhase::TurningOn(index + 1);
                }
            },
            AutomaticPhase::TurningOff(index) => {
                self.led_on[index] = false;
                if index == 0 {
                    self.automatic_phase = AutomaticPhase::Idle;
                } else {
                    self.automatic_phase = AutomaticPhase::TurningOff(index - 1);
                }
            },
            AutomaticPhase::Idle => {
                self.automatic_phase = AutomaticPhase::TurningOn(0);
            },
        }
        assert(self@.led_on =~= old(self)@.automatic(now_ns).led_on);
        self.apply_outputs(devices);
    }

    /// Applies a control-plane request at `now`, then writes the outputs to
    /// the claimed EL2008.
    pub fn api_mutate(&mut self, mutation: Mutation, now_ns: u64, devices: &mut Vec<EthercatDevice>)
        requires
            old(self).wf(),
        ensures
            final(self).wf(),
            final(self)@ == old(self)@.mutate(mutation, now_ns),
            outputs_applied(old(devices)@, final(devices)@, old(self).el2008_index as int, final(self).led_on@),
    {
        let ghost d0 = devices@;
        match mutation {
            Mutation::SetLed { index, on } => self.set_led(index, on),
            Mutation::SetAllLeds { on } => self.set_all_leds(on),
            Mutation::SetMode { mode } => self.set_mode(mode),
            Mutation::Start => self.start(now_ns, devices),
            Mutation::Stop => self.stop(),
            Mutation::Reset => self.reset(devices),
            Mutation::SetAutomaticDelay { delay_ms } => self.set_automatic_delay(delay_ms),
        }
        let ghost d1 = devices@;
        self.apply_outputs(devices);
        proof {
            if d1 != d0 {
                lemma_outputs_applied_twice(d0, d1, devices@, self.el2008_index as int, self.led_on@, self.led_on@);
            }
        }
    }

    /// One cycle of the machine at `now`: applies the request taken from its
    /// inbox, if any, then advances the automatic sequence. Returns whether a
    /// state event is due, and then records `now` as the time of that event.
    pub fn act(&mut self, now_ns: u64, message: Option<Mutation>, devices: &mut Vec<EthercatDevice>) -> (emit: bool)
        requires
            old(self).wf(),
        ensures
            final(self).wf(),
            emit == old(self)@.act_emits(message, now_ns),
            final(self)@ == old(self)@.acted(message, now_ns),
            old(self)@.act_writes(message, now_ns) ==> outputs_applied(
                old(devices)@,
                final(devices)@,
                old(self).el2008_index as int,
                final(self).led_on@,
            ),
            !old(self)@.act_writes(message, now_ns) ==> final(devices)@ == old(devices)@,
    {
        let ghost d0 = devices@;
        if let Some(mu) = message {
            self.api_mutate(mu, now_ns, devices);
        }
        let ghost d1 = devices@;
        let ghost l1 = self.led_on@;
        let ghost due = self@.automatic_due(now_ns);
        self.execute_automatic(now_ns, devices);
        proof {
            if message is Some && due {
                lemma_outputs_applied_twice(d0, d1, devices@, self.el2008_index as int, l1, self.led_on@);
            }
        }
        if now_ns.saturating_sub(self.last_state_emit_ns) > STATE_EMIT_PERIOD_NS {
            self.last_state_emit_ns = now_ns;
            true
        } else {
            false
        }
    }

    /// Writes the outputs to the claimed EL2008 in the device table.
    pub fn apply_outputs(&self, devices: &mut Vec<EthercatDevice>)
        ensures
            outputs_applied(old(devices)@, final(devices)@, self.el2008_index as int, self.led_on@),
    {
        let idx = self.el2008_index;
        if idx < devices.len() {
            let mut d = devices.remove(idx);
            match d {
                EthercatDevice::EL2008(ref mut x) => {
                    x.rxpdo = EL2008RxPdo {
                        channel1: BoolPdoObject { value: self.led_on[0] },
                        channel2: BoolPdoObject { value: self.led_on[1] },
                        channel3: BoolPdoObject { value: self.led_on[2] },
                        channel4: BoolPdoObject { value: self.led_on[3] },
                        channel5: BoolPdoObject { value: self.led_on[4] },
                        channel6: BoolPdoObject { value: self.led_on[5] },
                        channel7: BoolPdoObject { value: self.led_on[6] },
                        channel8: BoolPdoObject { value: self.led_on[7] },
                    };
                },
                _ => {},
            }
            devices.insert(idx, d);
            assert(devices@ =~= old(devices)@.update(idx as int, devices@[idx as int]));
        }
    }
}

/// The state of a `TestEL2008Machine` as mathematical values.
pub struct TestEL2008MachineView {
    pub machine_identification_unique: MachineIdentificationUnique,
    pub led_on: Seq<bool>,
    pub mode: TestEL2008Mode,
    pub machine_state: MachineState,
    pub automatic_phase: AutomaticPhase,
    pub automatic_delay_ms: u64,
    pub last_automatic_step_ns: u64,
    pub last_state_emit_ns: u64,
    pub el2008_index: usize,
}

impl View for TestEL2008Machine {
    type V = TestEL2008MachineView;

    open spec fn view(&self) -> TestEL2008MachineView {
        TestEL2008MachineView {
            machine_identification_unique: self.machine_identification_unique,
            led_on: self.led_on@,
            mode: self.mode,
            machine_state: self.machine_state,
            automatic_phase: self.automatic_phase,
            automatic_delay_ms: self.automatic_delay_ms,
            last_automatic_step_ns: self.last_automatic_step_ns,
            last_state_emit_ns: self.last_state_emit_ns,
            el2008_index: self.el2008_index,
        }
    }
}

/// Time from `since` to `now` in nanoseconds, zero when `now` is earlier.
pub open spec fn elapsed_ns(since: u64, now: u64) -> int {
    if now >= since {
        now - since
    } else {
        0
    }
}

/// Eight outputs, all at `on`.
pub open spec fn all_leds(on: bool) -> Seq<bool> {
    Seq::new(8, |k: int| on)
}

/// The outputs after one step of the automatic sequence in phase `p`.
pub open spec fn step_leds(p: AutomaticPhase, leds: Seq<bool>) -> Seq<bool> {
    match p {
        AutomaticPhase::TurningOn(i) => leds.update(i as int, true),
        AutomaticPhase::TurningOff(i) => leds.update(i as int, false),
        AutomaticPhase::Idle => leds,
    }
}

/// The phase after one step of the automatic sequence: outputs turn on from
/// the first to the last, then off from the last to the first, then it restarts.
pub open spec fn next_phase(p: AutomaticPhase) -> AutomaticPhase {
    match p {
        AutomaticPhase::TurningOn(i) => if i == 7 {
            AutomaticPhase::TurningOff(7)
        } else {
            AutomaticPhase::TurningOn((i + 1) as usize)
        },
        AutomaticPhase::TurningOff(i) => if i == 0 {
            AutomaticPhase::Idle
        } else {
            AutomaticPhase::TurningOff((i - 1) as usize)
        },
        AutomaticPhase::Idle => AutomaticPhase::TurningOn(0),
    }
}

impl TestEL2008MachineView {
    /// Manual switching of outputs is allowed.
    pub open spec fn manual_running(self) -> bool {
        self.mode == TestEL2008Mode::Manual && self.machine_state == MachineState::Running
    }

    /// After setting one output.
    pub open spec fn set_led(self, index: usize, on: bool) -> Self {
        if self.manual_running() && index < 8 {
            TestEL2008MachineView { led_on: self.led_on.update(index as int, on), ..self }
        } else {
            self
        }
    }

    /// After setting all outputs.
    pub open spec fn set_all_leds(self, on: bool) -> Self {
        if self.manual_running() {
            TestEL2008MachineView { led_on: all_leds(on), ..self }
        } else {
            self
        }
    }

    /// After starting at `now`.
    pub open spec fn start(self, now: u64) -> Self {
        match self.mode {
            TestEL2008Mode::Manual => TestEL2008MachineView {
                machine_state: MachineState::Running,
                ..self
            },
            TestEL2008Mode::Home => TestEL2008MachineView {
                machine_state: MachineState::Running,
                led_on: all_leds(false),
                ..self
            },
            TestEL2008Mode::Automatic => TestEL2008MachineView {
                machine_state: MachineState::Running,
                automatic_phase: AutomaticPhase::TurningOn(0),
                last_automatic_step_ns: now,
                ..self
            },
        }
    }

    /// After stopping.
    pub open spec fn stop(self) -> Self {
        TestEL2008MachineView {
            machine_state: MachineState::Stopped,
            automatic_phase: if self.mode == TestEL2008Mode::Automatic {
                AutomaticPhase::Idle
            } else {
                self.automatic_phase
            },
            ..self
        }
    }

    /// After a reset.
    pub open spec fn reset(self) -> Self {
        TestEL2008MachineView {
            machine_state: MachineState::Stopped,
            led_on: all_leds(false),
            automatic_phase: AutomaticPhase::Idle,
            ..self
        }
    }

    /// After a mode change request.
    pub open spec fn set_mode(self, mode: TestEL2008Mode) -> Self {
        if self.machine_state == MachineState::Stopped {
            TestEL2008MachineView { mode, automatic_phase: AutomaticPhase::Idle, ..self }
        } else {
            self
        }
    }

    /// After setting the automatic delay.
    pub open spec fn set_automatic_delay(self, delay_ms: u64) -> Self {
        TestEL2008MachineView { automatic_delay_ms: delay_ms, ..self }
    }

    /// After a control-plane request at `now`.
    pub open spec fn mutate(self, m: Mutation, now: u64) -> Self {
        match m {
            Mutation::SetLed { index, on } => self.set_led(index, on),
            Mutation::SetAllLeds { on } => self.set_all_leds(on),
            Mutation::SetMode { mode } => self.set_mode(mode),
            Mutation::Start => self.start(now),
            Mutation::Stop => self.stop(),
            Mutation::Reset => self.reset(),
            Mutation::SetAutomaticDelay { delay_ms } => self.set_automatic_delay(delay_ms),
        }
    }

    /// The automatic sequence takes a step at `now`.
    pub open spec fn automatic_due(self, now: u64) -> bool {
        &&& self.mode == TestEL2008Mode::Automatic
        &&& self.machine_state == MachineState::Running
        &&& elapsed_ns(self.last_automatic_step_ns, now) >= self.automatic_delay_ms * NANOS_PER_MILLI
    }

    /// After the automatic sequence had its chance to step at `now`.
    pub open spec fn automatic(self, now: u64) -> Self {
        if self.automatic_due(now) {
            TestEL2008MachineView {
                led_on: step_leds(self.automatic_phase, self.led_on),
                automatic_phase: next_phase(self.automatic_phase),
                last_automatic_step_ns: now,
                ..self
            }
        } else {
            self
        }
    }

    /// The state after the request taken from the inbox, if any.
    pub open spec fn before_automatic(self, message: Option<Mutation>, now: u64) -> Self {
        match message {
            Some(mu) => self.mutate(mu, now),
            None => self,
        }
    }

    /// A cycle writes the outputs: a request came, or the automatic sequence stepped.
    pub open spec fn act_writes(self, message: Option<Mutation>, now: u64) -> bool {
        message is Some || self.before_automatic(message, now).automatic_due(now)
    }

    /// A cycle ends with a state event.
    pub open spec fn act_emits(self, message: Option<Mutation>, now: u64) -> bool {
        self.before_automatic(message, now).automatic(now).emit_due(now)
    }

    /// The state after one cycle at `now`.
    pub open spec fn acted(self, message: Option<Mutation>, now: u64) -> Self {
        let m2 = self.before_automatic(message, now).automatic(now);
        if m2.emit_due(now) {
            TestEL2008MachineView { last_state_emit_ns: now, ..m2 }
        } else {
            m2
        }
    }

    /// A state event is due at `now`.
    pub open spec fn emit_due(self, now: u64) -> bool {
        elapsed_ns(self.last_state_emit_ns, now) > STATE_EMIT_PERIOD_NS
    }
}

} // verus!
