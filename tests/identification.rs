use qitech_control::app_state::{
    add_machines_if_not_exists, machine_device_identification_writes, remove_machine,
    update_device_identification, EtherCatDeviceMetaData, MachineDeviceInfoRequest,
};
use qitech_control::devices::{EL2004_IDENTITY_A, EL2008_IDENTITY_A};
use qitech_control::error::ControlError;
use qitech_control::machine_identification::{
    get_identification_addresses, machine_device_identification, DeviceHardwareIdentification,
    DeviceHardwareIdentificationEthercat, DeviceHardwareIdentificationSerial,
    DeviceIdentification, DeviceIdentificationIdentified, DeviceMachineIdentification,
    MachineIdentification, MachineIdentificationAddresses, MachineIdentificationUnique,
};
use qitech_control::machines::{
    get_device_identification_by_role, get_subdevice_by_index, validate_no_role_dublicates,
    validate_same_machine_identification_unique,
};
use qitech_control::setup::{
    device_identifications_from_reads, group_devices_by_identification, MachineObj,
};
use std::collections::HashMap;

fn unique(vendor: u16, machine: u16, serial: u16) -> MachineIdentificationUnique {
    MachineIdentificationUnique {
        machine_identification: MachineIdentification { vendor, machine },
        serial,
    }
}

fn tag(vendor: u16, machine: u16, serial: u16, role: u16) -> DeviceMachineIdentification {
    DeviceMachineIdentification {
        machine_identification_unique: unique(vendor, machine, serial),
        role,
    }
}

fn ethercat(index: usize) -> DeviceHardwareIdentification {
    DeviceHardwareIdentification::Ethercat(DeviceHardwareIdentificationEthercat {
        subdevice_index: index,
    })
}

fn device(t: Option<DeviceMachineIdentification>, index: usize) -> DeviceIdentification {
    DeviceIdentification {
        device_machine_identification: t,
        device_hardware_identification: ethercat(index),
    }
}

fn identified(t: DeviceMachineIdentification, index: usize) -> DeviceIdentificationIdentified {
    DeviceIdentificationIdentified {
        device_machine_identification: t,
        device_hardware_identification: ethercat(index),
    }
}

#[test]
fn validity_needs_all_values_non_zero() {
    assert!(tag(1, 0x36, 1, 1).is_valid());
    assert!(!tag(0, 0x36, 1, 1).is_valid());
    assert!(!tag(1, 0, 1, 1).is_valid());
    assert!(!tag(1, 0x36, 0, 1).is_valid());
    assert!(!tag(1, 0x36, 1, 0).is_valid());
    assert!(unique(1, 2, 3).is_valid());
    assert!(!MachineIdentification { vendor: 1, machine: 0 }.is_valid());
}

#[test]
fn grouping_splits_by_machine_and_keeps_order() {
    let devices = vec![
        device(Some(tag(1, 0x36, 1, 1)), 0),
        device(Some(tag(1, 0x36, 2, 1)), 1),
        device(None, 2),
        device(Some(tag(1, 0x36, 1, 2)), 3),
        device(Some(tag(0, 0, 0, 0)), 4),
    ];
    let r = group_devices_by_identification(&devices);
    assert_eq!(r.device_groups.len(), 2);
    assert_eq!(r.device_groups[0].len(), 2);
    assert_eq!(r.device_groups[0][0].device_machine_identification, tag(1, 0x36, 1, 1));
    assert_eq!(r.device_groups[0][1].device_machine_identification, tag(1, 0x36, 1, 2));
    assert_eq!(r.device_groups[1].len(), 1);
    assert_eq!(r.device_groups[1][0].device_machine_identification, tag(1, 0x36, 2, 1));
    assert_eq!(r.unidentified_devices.len(), 2);
    assert_eq!(r.unidentified_devices[0].device_machine_identification, None);
    assert_eq!(
        r.unidentified_devices[1].device_machine_identification,
        Some(tag(0, 0, 0, 0))
    );
}

#[test]
fn grouping_of_empty_bus_is_empty() {
    let r = group_devices_by_identification(&vec![]);
    assert!(r.device_groups.is_empty());
    assert!(r.unidentified_devices.is_empty());
}

#[test]
fn same_machine_validation() {
    let empty: Vec<DeviceIdentificationIdentified> = vec![];
    assert_eq!(
        validate_same_machine_identification_unique(&empty),
        Err(ControlError::EmptyGroup)
    );
    let good = vec![identified(tag(1, 2, 3, 1), 0), identified(tag(1, 2, 3, 2), 1)];
    assert_eq!(validate_same_machine_identification_unique(&good), Ok(()));
    let bad = vec![identified(tag(1, 2, 3, 1), 0), identified(tag(1, 2, 4, 2), 1)];
    assert_eq!(
        validate_same_machine_identification_unique(&bad),
        Err(ControlError::IdentityMismatch)
    );
}

#[test]
fn role_duplicates_are_rejected() {
    let good = vec![identified(tag(1, 2, 3, 1), 0), identified(tag(1, 2, 3, 2), 1)];
    assert_eq!(validate_no_role_dublicates(&good), Ok(()));
    let bad = vec![
        identified(tag(1, 2, 3, 1), 0),
        identified(tag(1, 2, 3, 2), 1),
        identified(tag(1, 2, 3, 1), 2),
    ];
    assert_eq!(validate_no_role_dublicates(&bad), Err(ControlError::DuplicateRole));
}

#[test]
fn role_lookup_finds_first_or_reports_missing() {
    let group = vec![identified(tag(1, 2, 3, 1), 4), identified(tag(1, 2, 3, 2), 7)];
    let d = get_device_identification_by_role(&group, 2).unwrap();
    assert_eq!(d.device_hardware_identification.clone(), ethercat(7));
    assert_eq!(
        get_device_identification_by_role(&group, 9).err(),
        Some(ControlError::MissingRole)
    );
}

#[test]
fn subdevice_lookup_by_index() {
    let table = vec![10u32, 20, 30];
    assert_eq!(get_subdevice_by_index(&table, 1), Ok(&20));
    assert_eq!(get_subdevice_by_index(&table, 3), Err(ControlError::IndexOutOfBounds));
}

#[test]
fn identified_conversion() {
    let d = device(Some(tag(1, 2, 3, 4)), 5);
    let i = DeviceIdentificationIdentified::try_from(d).unwrap();
    assert_eq!(i.device_machine_identification, tag(1, 2, 3, 4));
    let back: DeviceIdentification = i.into();
    assert_eq!(back.device_machine_identification, Some(tag(1, 2, 3, 4)));
    let serial = DeviceIdentification {
        device_machine_identification: None,
        device_hardware_identification: DeviceHardwareIdentification::Serial(
            DeviceHardwareIdentificationSerial { path: "/dev/ttyUSB0".to_string() },
        ),
    };
    assert_eq!(
        DeviceIdentificationIdentified::try_from(serial).err(),
        Some(ControlError::Unidentified)
    );
}

#[test]
fn address_map_by_identity() {
    let a = get_identification_addresses(EL2008_IDENTITY_A).unwrap();
    assert_eq!(a, MachineIdentificationAddresses::default());
    assert_eq!(a.vendor_word, 0x28);
    assert_eq!(a.machine_word, 0x29);
    assert_eq!(a.serial_word, 0x2a);
    assert_eq!(a.role_word, 0x2b);
    assert!(get_identification_addresses(EL2004_IDENTITY_A).is_ok());
    assert_eq!(
        get_identification_addresses((0x99, 0x1, 0x1)),
        Err(ControlError::UnknownAddressMap)
    );
    let custom = MachineIdentificationAddresses::new(1, 2, 3, 4);
    assert_eq!(custom.role_word, 4);
    assert_eq!(custom.serial_word, 2);
}

#[test]
fn tag_from_reads() {
    assert_eq!(
        machine_device_identification(Some(2), Some(0x36), Some(7), Some(1)),
        Ok(tag(2, 0x36, 7, 1))
    );
    assert_eq!(
        machine_device_identification(Some(2), None, Some(7), Some(1)),
        Err(ControlError::NvMemoryRead)
    );
}

#[test]
fn reads_become_bus_ordered_identifications() {
    let reads = vec![Ok(tag(1, 2, 3, 4)), Err(ControlError::NvMemoryRead), Ok(tag(0, 0, 0, 0))];
    let r = device_identifications_from_reads(&reads);
    assert_eq!(r.len(), 3);
    assert_eq!(r[2].device_machine_identification, None);
    assert_eq!(r[0].device_machine_identification, Some(tag(1, 2, 3, 4)));
    assert_eq!(r[1].device_machine_identification, None);
    assert_eq!(r[1].device_hardware_identification.clone(), ethercat(1));
}

#[test]
fn nv_memory_write_round_trip() {
    let t = tag(2, 0x36, 7, 1);
    let writes = machine_device_identification_writes(EL2008_IDENTITY_A, &t).unwrap();
    assert_eq!(writes, vec![(0x28, 2), (0x2a, 7), (0x29, 0x36), (0x2b, 1)]);
    let mut mem: HashMap<u16, u16> = HashMap::new();
    for (word, value) in &writes {
        mem.insert(*word, *value);
    }
    let a = get_identification_addresses(EL2008_IDENTITY_A).unwrap();
    let read = machine_device_identification(
        mem.get(&a.vendor_word).copied(),
        mem.get(&a.machine_word).copied(),
        mem.get(&a.serial_word).copied(),
        mem.get(&a.role_word).copied(),
    );
    assert_eq!(read, Ok(t));
    assert_eq!(
        machine_device_identification_writes((7, 7, 7), &t),
        Err(ControlError::UnknownAddressMap)
    );
}

fn meta(index: usize) -> EtherCatDeviceMetaData {
    EtherCatDeviceMetaData {
        configured_address: 0x1000 + index as u16,
        name: format!("dev{}", index),
        vendor_id: 2,
        product_id: 3,
        revision: 4,
        device_identification: device(None, index),
    }
}

#[test]
fn write_request_updates_metadata() {
    let mut metas = vec![meta(0), meta(1)];
    let request = MachineDeviceInfoRequest {
        device_machine_identification: tag(1, 0x36, 1, 1),
        hardware_identification_ethercat: DeviceHardwareIdentificationEthercat {
            subdevice_index: 1,
        },
    };
    assert!(update_device_identification(&mut metas, &request));
    assert_eq!(metas[0].device_identification.device_machine_identification, None);
    assert_eq!(
        metas[1].device_identification.device_machine_identification,
        Some(tag(1, 0x36, 1, 1))
    );
    let missing = MachineDeviceInfoRequest {
        hardware_identification_ethercat: DeviceHardwareIdentificationEthercat {
            subdevice_index: 9,
        },
        ..request
    };
    assert!(!update_device_identification(&mut metas, &missing));
}

#[test]
fn machine_reports_are_added_once_and_removed() {
    let a = MachineObj { machine_identification_unique: unique(1, 2, 3), error: None };
    let b = MachineObj { machine_identification_unique: unique(1, 2, 4), error: None };
    let mut current = vec![a];
    add_machines_if_not_exists(&mut current, vec![a, b]);
    assert_eq!(current, vec![a, b]);
    remove_machine(&mut current, &unique(1, 2, 3));
    assert_eq!(current, vec![b]);
    remove_machine(&mut current, &unique(9, 9, 9));
    assert_eq!(current, vec![b]);
}
