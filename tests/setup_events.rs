use qitech_control::app_state::{
    coupler_module_meta_data, cycle_jitter_ns, jitter_sample, EthercatDevicesEvent, EthercatDevicesEventBuilder,
};
use qitech_control::devices::Module;
use qitech_control::machine_identification::{
    DeviceHardwareIdentification, DeviceHardwareIdentificationEthercat,
    DeviceMachineIdentification, MachineIdentification, MachineIdentificationUnique,
};

fn module(slot: u16, addr: u16) -> Module {
    Module {
        slot,
        belongs_to_addr: addr,
        has_tx: true,
        has_rx: false,
        vendor_id: 0x21,
        product_id: 0x750,
        tx_offset: 0,
        rx_offset: 0,
    }
}

#[test]
fn coupler_modules_become_devices() {
    let t = DeviceMachineIdentification {
        machine_identification_unique: MachineIdentificationUnique {
            machine_identification: MachineIdentification { vendor: 1, machine: 0x34 },
            serial: 5,
        },
        role: 1,
    };
    let modules = vec![module(1, 0x1000), module(2, 0x2000), module(3, 0x1000)];
    let name = "wago module".to_string();
    let r = coupler_module_meta_data(0x1000, &modules, Some(t), &name, 2);
    assert_eq!(r.len(), 2);
    assert_eq!(r[0].configured_address, 1);
    assert_eq!(r[1].configured_address, 3);
    assert_eq!(r[1].name, "wago module");
    assert_eq!(r[1].revision, 2);
    assert_eq!(r[1].device_identification.device_machine_identification, Some(t));
    assert_eq!(
        r[1].device_identification.device_hardware_identification,
        DeviceHardwareIdentification::Ethercat(DeviceHardwareIdentificationEthercat {
            subdevice_index: 3
        })
    );
}

#[test]
fn jitter_is_signed() {
    assert_eq!(cycle_jitter_ns(300_500, 300_000), 500);
    assert_eq!(cycle_jitter_ns(299_000, 300_000), -1_000);
}

#[test]
fn setup_events() {
    let b = EthercatDevicesEventBuilder();
    assert!(matches!(b.initializing(), EthercatDevicesEvent::Initializing(true)));
    match b.build(vec![]) {
        EthercatDevicesEvent::Done(done) => assert!(done.devices.is_empty()),
        _ => panic!("expected Done"),
    }
}

#[test]
fn jitter_sample_per_cycle_after_the_first() {
    assert_eq!(jitter_sample(None, 1_000, 300), None);
    assert_eq!(jitter_sample(Some(1_000), 1_250, 300), Some(-50));
    assert_eq!(jitter_sample(Some(1_000), 999, 300), None);
}
