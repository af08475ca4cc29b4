use qitech_control::devices::{
    device_from_subdevice_identity_tuple, EL2004Port, EL2004RxPdo, EL2008Port, EL2008RxPdo,
    EthercatDevice, BoolPdoObject, EL2004, EL2008, EL2004_IDENTITY_B, EL2008_IDENTITY_A,
    EL2008_IDENTITY_C, devices_from_subdevices,
};
use qitech_control::bits::{get_bit, read_image, set_bit, write_image};
use qitech_control::error::ControlError;
use qitech_control::machine_identification::{
    DeviceHardwareIdentification, DeviceHardwareIdentificationEthercat,
    DeviceIdentification, DeviceMachineIdentification, MachineIdentification,
    MachineIdentificationUnique,
};
use qitech_control::rt_loop::{
    add_machines, copy_ethercat_inputs, copy_ethercat_outputs, delete_machine, loop_once,
    update_failure_counter, watchdog_tripped, CycleOutcome, EXIT_CONNECTION_LOST,
};
use qitech_control::setup::{set_ethercat_devices, group_devices_by_identification};
use qitech_control::test_el2008_machine::{
    AutomaticPhase, MachineState, Mutation, TestEL2008Machine, TestEL2008Mode,
};

fn tag(vendor: u16, machine: u16, serial: u16, role: u16) -> DeviceMachineIdentification {
    DeviceMachineIdentification {
        machine_identification_unique: MachineIdentificationUnique {
            machine_identification: MachineIdentification { vendor, machine },
            serial,
        },
        role,
    }
}

fn device(t: Option<DeviceMachineIdentification>, index: usize) -> DeviceIdentification {
    DeviceIdentification {
        device_machine_identification: t,
        device_hardware_identification: DeviceHardwareIdentification::Ethercat(
            DeviceHardwareIdentificationEthercat { subdevice_index: index },
        ),
    }
}

/// One EL2008 tagged for the test machine, built and claimed.
fn el2008_bus() -> (Vec<EthercatDevice>, Vec<TestEL2008Machine>) {
    let identities = vec![EL2008_IDENTITY_A];
    let mut devices = vec![device_from_subdevice_identity_tuple(EL2008_IDENTITY_A).unwrap()];
    let bus = vec![device(Some(tag(1, 0x36, 1, 1)), 0)];
    let grouping = group_devices_by_identification(&bus);
    let (machines, objs) = set_ethercat_devices(&grouping.device_groups, &identities, &mut devices, 0);
    assert_eq!(objs.len(), 1);
    assert_eq!(objs[0].error, None);
    (devices, machines)
}

fn run_cycle(
    failures: &mut u32,
    devices: &mut Vec<EthercatDevice>,
    machines: &mut Vec<TestEL2008Machine>,
    message: Option<Mutation>,
    outputs: &mut Vec<Vec<u8>>,
) -> Result<CycleOutcome, ControlError> {
    let inputs = vec![Vec::new(); devices.len()];
    let messages = vec![message; machines.len()];
    loop_once(failures, Some(true), &inputs, outputs, devices, machines, &messages, 1_000)
}

#[test]
fn digital_output_echo() {
    let (mut devices, mut machines) = el2008_bus();
    assert!(devices[0].is_used());
    let mut failures: u32 = 0;
    let mut outputs = vec![vec![0u8]];
    let r = run_cycle(
        &mut failures,
        &mut devices,
        &mut machines,
        Some(Mutation::SetAllLeds { on: true }),
        &mut outputs,
    );
    assert!(matches!(r, Ok(CycleOutcome::Completed(_))));
    assert_eq!(outputs[0], vec![0xFF]);
    let r = run_cycle(
        &mut failures,
        &mut devices,
        &mut machines,
        Some(Mutation::SetLed { index: 3, on: false }),
        &mut outputs,
    );
    assert!(r.is_ok());
    assert_eq!(outputs[0], vec![0xF7]);
}

#[test]
fn mutation_reaches_machine_and_driver() {
    let (mut devices, mut machines) = el2008_bus();
    let mut failures: u32 = 0;
    let mut outputs = vec![vec![0u8]];
    let r = run_cycle(
        &mut failures,
        &mut devices,
        &mut machines,
        Some(Mutation::SetLed { index: 0, on: true }),
        &mut outputs,
    );
    assert!(r.is_ok());
    assert!(machines[0].led_on[0]);
    match &devices[0] {
        EthercatDevice::EL2008(d) => assert!(d.get_output(EL2008Port::DO1)),
        _ => panic!("expected an EL2008"),
    }
    assert_eq!(outputs[0], vec![0x01]);
}

#[test]
fn unidentified_slave_builds_no_machine() {
    let identities = vec![EL2008_IDENTITY_A];
    let mut devices = vec![device_from_subdevice_identity_tuple(EL2008_IDENTITY_A).unwrap()];
    let bus = vec![device(Some(tag(0, 0, 0, 0)), 0)];
    let grouping = group_devices_by_identification(&bus);
    assert_eq!(grouping.unidentified_devices.len(), 1);
    let (machines, objs) = set_ethercat_devices(&grouping.device_groups, &identities, &mut devices, 0);
    assert!(machines.is_empty());
    assert!(objs.is_empty());
    assert!(!devices[0].is_used());
}

#[test]
fn duplicate_role_builds_no_machine() {
    let identities = vec![EL2008_IDENTITY_A, EL2008_IDENTITY_A];
    let mut devices = vec![
        device_from_subdevice_identity_tuple(EL2008_IDENTITY_A).unwrap(),
        device_from_subdevice_identity_tuple(EL2008_IDENTITY_A).unwrap(),
    ];
    let bus = vec![device(Some(tag(1, 0x36, 1, 1)), 0), device(Some(tag(1, 0x36, 1, 1)), 1)];
    let grouping = group_devices_by_identification(&bus);
    assert_eq!(grouping.device_groups.len(), 1);
    let (machines, objs) = set_ethercat_devices(&grouping.device_groups, &identities, &mut devices, 0);
    assert!(machines.is_empty());
    assert_eq!(objs.len(), 1);
    assert_eq!(objs[0].error, Some(ControlError::DuplicateRole));
    assert_eq!(objs[0].error.unwrap().describe(), "duplicate role");
    assert!(!devices[0].is_used());
    assert!(!devices[1].is_used());
}

#[test]
fn machine_construction_failures() {
    let mut devices = vec![device_from_subdevice_identity_tuple(EL2004_IDENTITY_B).unwrap()];
    let group = vec![qitech_control::machine_identification::DeviceIdentificationIdentified {
        device_machine_identification: tag(1, 0x36, 1, 1),
        device_hardware_identification: DeviceHardwareIdentification::Ethercat(
            DeviceHardwareIdentificationEthercat { subdevice_index: 0 },
        ),
    }];
    let r = TestEL2008Machine::new(&group, &vec![EL2008_IDENTITY_C], &mut devices, 0);
    assert_eq!(r.err(), Some(ControlError::IdentityMismatch));
    let r = TestEL2008Machine::new(&group, &vec![EL2004_IDENTITY_B], &mut devices, 0);
    assert_eq!(r.err(), Some(ControlError::IdentityMismatch));
    let r = TestEL2008Machine::new(&group, &vec![], &mut devices, 0);
    assert_eq!(r.err(), Some(ControlError::IndexOutOfBounds));
    let group2 = vec![qitech_control::machine_identification::DeviceIdentificationIdentified {
        device_machine_identification: tag(1, 0x36, 1, 2),
        ..group[0].clone()
    }];
    let r = TestEL2008Machine::new(&group2, &vec![EL2008_IDENTITY_A], &mut devices, 0);
    assert_eq!(r.err(), Some(ControlError::MissingRole));
    assert!(!devices[0].is_used());
    let other = vec![qitech_control::machine_identification::DeviceIdentificationIdentified {
        device_machine_identification: tag(1, 0x99, 1, 1),
        ..group[0].clone()
    }];
    let r = qitech_control::registry::new_machine(&other, &vec![EL2008_IDENTITY_A], &mut devices, 0);
    assert_eq!(r.err(), Some(ControlError::MachineNotFound));
}

#[test]
fn watchdog_trips_after_twenty_failures() {
    let (mut devices, mut machines) = el2008_bus();
    let mut failures: u32 = 0;
    let mut outputs = vec![vec![0u8]];
    let inputs = vec![Vec::new()];
    let messages = vec![Some(Mutation::SetAllLeds { on: true })];
    for cycle in 1..=19u32 {
        let r = loop_once(&mut failures, Some(false), &inputs, &mut outputs, &mut devices,
            &mut machines, &messages, 0);
        assert!(matches!(r, Ok(CycleOutcome::Completed(_))));
        assert_eq!(failures, cycle);
    }
    assert_eq!(outputs[0], vec![0xFF]);
    let messages = vec![Some(Mutation::SetAllLeds { on: false })];
    let r = loop_once(&mut failures, Some(false), &inputs, &mut outputs, &mut devices,
        &mut machines, &messages, 0);
    let outcome = r.unwrap();
    assert!(matches!(outcome, CycleOutcome::ConnectionLost));
    assert_eq!(outcome.exit_code(), Some(EXIT_CONNECTION_LOST));
    assert_eq!(outcome.exit_code(), Some(2));
    // the machines did not act in the cycle that tripped
    assert!(machines[0].led_on.iter().all(|on| *on));
    assert_eq!(outputs[0], vec![0xFF]);
}

#[test]
fn watchdog_counter_resets_on_success() {
    let mut failures: u32 = 0;
    for _ in 0..19 {
        failures = update_failure_counter(failures, false);
        assert!(!watchdog_tripped(failures));
    }
    assert_eq!(failures, 19);
    failures = update_failure_counter(failures, true);
    assert_eq!(failures, 0);
    for _ in 0..20 {
        failures = update_failure_counter(failures, false);
    }
    assert!(watchdog_tripped(failures));
    assert_eq!(update_failure_counter(u32::MAX, false), u32::MAX);
}

#[test]
fn unclaimed_drivers_are_skipped() {
    let mut devices = vec![
        device_from_subdevice_identity_tuple(EL2008_IDENTITY_A).unwrap(),
        device_from_subdevice_identity_tuple(EL2004_IDENTITY_B).unwrap(),
    ];
    devices[1].set_used(true);
    let mut outputs = vec![vec![0xAAu8], vec![0xF0u8]];
    assert_eq!(copy_ethercat_outputs(&mut devices, &mut outputs), Ok(()));
    assert_eq!(outputs[0], vec![0xAA]);
    assert_eq!(outputs[1], vec![0xF0]);
    let mut short = vec![vec![0xAAu8], vec![]];
    assert_eq!(copy_ethercat_outputs(&mut devices, &mut short), Err(ControlError::ShortBuffer));
    assert_eq!(copy_ethercat_inputs(&mut devices, &vec![vec![], vec![]]), Ok(()));
}

#[test]
fn short_output_buffer_stops_the_cycle() {
    let (mut devices, mut machines) = el2008_bus();
    let mut failures: u32 = 3;
    let mut outputs: Vec<Vec<u8>> = vec![vec![]];
    let inputs = vec![Vec::new()];
    let messages = vec![None];
    let r = loop_once(&mut failures, Some(true), &inputs, &mut outputs, &mut devices,
        &mut machines, &messages, 0);
    assert_eq!(r.err(), Some(ControlError::ShortBuffer));
    assert_eq!(failures, 0);
}

#[test]
fn cycle_without_setup_only_acts() {
    let (mut devices, mut machines) = el2008_bus();
    let mut failures: u32 = 5;
    let mut outputs = vec![vec![0u8]];
    let inputs = vec![Vec::new()];
    let messages = vec![Some(Mutation::SetAllLeds { on: true })];
    let r = loop_once(&mut failures, None, &inputs, &mut outputs, &mut devices,
        &mut machines, &messages, 0);
    assert!(r.is_ok());
    assert_eq!(failures, 5);
    assert_eq!(outputs[0], vec![0]);
    assert!(machines[0].led_on[7]);
}

#[test]
fn machines_are_added_once_and_deleted() {
    let (_devices, machines) = el2008_bus();
    let (_devices2, more) = el2008_bus();
    let mut list: Vec<TestEL2008Machine> = Vec::new();
    add_machines(&mut list, machines);
    add_machines(&mut list, more);
    assert_eq!(list.len(), 1);
    let id = list[0].machine_identification_unique;
    delete_machine(&mut list, id);
    assert!(list.is_empty());
}

#[test]
fn automatic_sequence_walks_the_outputs() {
    let (mut devices, mut machines) = el2008_bus();
    let m = &mut machines[0];
    m.set_mode(TestEL2008Mode::Automatic);
    assert_eq!(m.mode, TestEL2008Mode::Manual);
    m.stop();
    m.set_mode(TestEL2008Mode::Automatic);
    assert_eq!(m.mode, TestEL2008Mode::Automatic);
    m.set_automatic_delay(1);
    m.start(0, &mut devices);
    assert_eq!(m.machine_state, MachineState::Running);
    assert_eq!(m.automatic_phase, AutomaticPhase::TurningOn(0));
    // not yet due
    m.execute_automatic(999_999, &mut devices);
    assert_eq!(m.automatic_phase, AutomaticPhase::TurningOn(0));
    let mut now: u64 = 0;
    for _ in 0..8 {
        now += 1_000_000;
        m.execute_automatic(now, &mut devices);
    }
    assert!(m.led_on.iter().all(|on| *on));
    assert_eq!(m.automatic_phase, AutomaticPhase::TurningOff(7));
    for _ in 0..8 {
        now += 1_000_000;
        m.execute_automatic(now, &mut devices);
    }
    assert!(m.led_on.iter().all(|on| !*on));
    assert_eq!(m.automatic_phase, AutomaticPhase::Idle);
    now += 1_000_000;
    m.execute_automatic(now, &mut devices);
    assert_eq!(m.automatic_phase, AutomaticPhase::TurningOn(0));
    m.reset(&mut devices);
    assert_eq!(m.machine_state, MachineState::Stopped);
    assert_eq!(m.automatic_phase, AutomaticPhase::Idle);
}

#[test]
fn home_mode_turns_outputs_off() {
    let (mut devices, mut machines) = el2008_bus();
    let m = &mut machines[0];
    m.set_all_leds(true);
    m.apply_outputs(&mut devices);
    m.stop();
    m.set_mode(TestEL2008Mode::Home);
    m.set_all_leds(false);
    assert!(m.led_on[0]);
    m.start(5, &mut devices);
    assert!(m.led_on.iter().all(|on| !*on));
    match &devices[0] {
        EthercatDevice::EL2008(d) => assert!(!d.get_output(EL2008Port::DO8)),
        _ => panic!("expected an EL2008"),
    }
    let s = m.state_event();
    assert_eq!(s.mode, TestEL2008Mode::Home);
    assert_eq!(s.automatic_delay_ms, 500);
}

#[test]
fn state_is_emitted_at_thirty_hertz() {
    let (mut devices, mut machines) = el2008_bus();
    let m = &mut machines[0];
    assert!(!m.act(33_333_333, None, &mut devices));
    assert!(m.act(33_333_334, None, &mut devices));
    assert!(!m.act(40_000_000, None, &mut devices));
}

#[test]
fn driver_registry() {
    assert!(matches!(device_from_subdevice_identity_tuple(EL2008_IDENTITY_A), Ok(EthercatDevice::EL2008(_))));
    assert!(matches!(device_from_subdevice_identity_tuple(EL2004_IDENTITY_B), Ok(EthercatDevice::EL2004(_))));
    assert!(matches!(device_from_subdevice_identity_tuple(EL2008_IDENTITY_C), Ok(EthercatDevice::EL2008(_))));
    assert!(matches!(device_from_subdevice_identity_tuple((0, 0, 0)), Err(ControlError::NoDriver)));
    let d = device_from_subdevice_identity_tuple(EL2004_IDENTITY_B).unwrap();
    assert_eq!(d.output_len(), 4);
    assert_eq!(d.input_len(), 0);
    assert!(!d.is_used());
    assert!(!d.is_module());
    assert!(d.get_module().is_none());
}

#[test]
fn output_encode_then_decode_round_trips() {
    let mut pdo = EL2008::new().rxpdo;
    pdo.channel2 = BoolPdoObject { value: true };
    pdo.channel8 = BoolPdoObject { value: true };
    let mut buf = vec![0u8, 0x55];
    pdo.write(&mut buf).unwrap();
    assert_eq!(buf, vec![0x82, 0x55]);
    assert_eq!(EL2008RxPdo::read(&buf).unwrap(), pdo);

    let mut el2004 = EL2004::new();
    el2004.set_output(EL2004Port::DO3, true);
    assert!(el2004.get_output(EL2004Port::DO3));
    let mut buf = vec![0xF0u8];
    el2004.rxpdo.write(&mut buf).unwrap();
    assert_eq!(buf, vec![0xF4]);
    assert_eq!(EL2004RxPdo::read(&buf).unwrap(), el2004.rxpdo);
}

#[test]
fn empty_buffers_are_short() {
    let mut d = device_from_subdevice_identity_tuple(EL2008_IDENTITY_A).unwrap();
    let mut empty: Vec<u8> = Vec::new();
    assert_eq!(d.output(&mut empty), Err(ControlError::ShortBuffer));
    assert_eq!(d.input(&empty), Ok(()));
    assert_eq!(EL2008RxPdo::read(&empty), Err(ControlError::ShortBuffer));
    let d4 = device_from_subdevice_identity_tuple(EL2004_IDENTITY_B).unwrap();
    assert_eq!(d4.output(&mut empty), Err(ControlError::ShortBuffer));
}

#[test]
fn bit_access_is_lsb_first() {
    let mut buf = vec![0u8, 0u8];
    set_bit(&mut buf, 9, true);
    assert_eq!(buf, vec![0, 0x02]);
    assert!(get_bit(&buf, 9));
    assert!(!get_bit(&buf, 8));
    set_bit(&mut buf, 9, false);
    assert_eq!(buf, vec![0, 0]);
    let mut b = vec![0u8];
    assert_eq!(write_image(&mut b, &vec![true, false, true]), Ok(()));
    assert_eq!(b, vec![0x05]);
    assert_eq!(read_image(&b, 3), Ok(vec![true, false, true]));
    assert_eq!(read_image(&b, 9), Err(ControlError::ShortBuffer));
    assert_eq!(write_image(&mut b, &vec![true; 9]), Err(ControlError::ShortBuffer));
}

#[test]
fn claimed_driver_cannot_be_claimed_again() {
    let (mut devices, machines) = el2008_bus();
    assert_eq!(machines.len(), 1);
    let group = vec![qitech_control::machine_identification::DeviceIdentificationIdentified {
        device_machine_identification: tag(1, 0x36, 2, 1),
        device_hardware_identification: DeviceHardwareIdentification::Ethercat(
            DeviceHardwareIdentificationEthercat { subdevice_index: 0 },
        ),
    }];
    let r = TestEL2008Machine::new(&group, &vec![EL2008_IDENTITY_A], &mut devices, 0);
    assert_eq!(r.err(), Some(ControlError::AlreadyClaimed));
    assert!(devices[0].is_used());
}

#[test]
fn two_groups_on_one_driver_build_one_machine() {
    let identities = vec![EL2008_IDENTITY_A];
    let mut devices = devices_from_subdevices(&identities);
    let groups = vec![
        vec![qitech_control::machine_identification::DeviceIdentificationIdentified {
            device_machine_identification: tag(1, 0x36, 1, 1),
            device_hardware_identification: DeviceHardwareIdentification::Ethercat(
                DeviceHardwareIdentificationEthercat { subdevice_index: 0 },
            ),
        }],
        vec![qitech_control::machine_identification::DeviceIdentificationIdentified {
            device_machine_identification: tag(1, 0x36, 2, 1),
            device_hardware_identification: DeviceHardwareIdentification::Ethercat(
                DeviceHardwareIdentificationEthercat { subdevice_index: 0 },
            ),
        }],
    ];
    let (machines, objs) = set_ethercat_devices(&groups, &identities, &mut devices, 7);
    assert_eq!(machines.len(), 1);
    assert_eq!(objs[0].error, None);
    assert_eq!(objs[1].error, Some(ControlError::AlreadyClaimed));
    let m = &machines[0];
    assert_eq!(m.led_on, [false; 8]);
    assert_eq!(m.mode, TestEL2008Mode::Manual);
    assert_eq!(m.machine_state, MachineState::Running);
    assert_eq!(m.automatic_phase, AutomaticPhase::Idle);
    assert_eq!(m.last_automatic_step_ns, 7);
    assert_eq!(m.el2008_index, 0);
}

#[test]
fn device_table_marks_unsupported_subdevices() {
    let table = devices_from_subdevices(&vec![EL2008_IDENTITY_A, (9, 9, 9), EL2004_IDENTITY_B]);
    assert_eq!(table.len(), 3);
    assert!(matches!(table[0], EthercatDevice::EL2008(_)));
    assert!(matches!(table[1], EthercatDevice::Unsupported((9, 9, 9))));
    assert!(matches!(table[2], EthercatDevice::EL2004(_)));
    assert_eq!(table[1].output_len(), 0);
}

#[test]
fn later_machine_with_same_id_is_skipped_in_order() {
    let (_d1, mut first) = el2008_bus();
    let (_d2, second) = el2008_bus();
    let a = first.remove(0);
    let mut b = second.into_iter().next().unwrap();
    b.machine_identification_unique.serial = 9;
    let mut dup = el2008_bus().1.remove(0);
    dup.set_automatic_delay(1);
    let mut list: Vec<TestEL2008Machine> = Vec::new();
    add_machines(&mut list, vec![a, b, dup]);
    assert_eq!(list.len(), 2);
    assert_eq!(list[0].machine_identification_unique.serial, 1);
    assert_eq!(list[0].automatic_delay_ms, 500);
    assert_eq!(list[1].machine_identification_unique.serial, 9);
}

#[test]
fn unclaimed_buffers_kept_when_a_claimed_one_is_short() {
    let mut devices = vec![
        device_from_subdevice_identity_tuple(EL2008_IDENTITY_A).unwrap(),
        device_from_subdevice_identity_tuple(EL2004_IDENTITY_B).unwrap(),
    ];
    devices[1].set_used(true);
    let mut outputs = vec![vec![0xAAu8], vec![]];
    assert_eq!(copy_ethercat_outputs(&mut devices, &mut outputs), Err(ControlError::ShortBuffer));
    assert_eq!(outputs[0], vec![0xAA]);
}
