use vstd::prelude::*;

use crate::devices::{
    SubDeviceIdentityTuple, EL2004_IDENTITY_A, EL2004_IDENTITY_B, EL2008_IDENTITY_A,
    EL2008_IDENTITY_B, EL2008_IDENTITY_C,
};
use crate::error::ControlError;

verus! {

/// Identifies a kind of machine: its vendor and its model.
#[derive(Debug, Clone, Copy, PartialEq, Eq, Structural, Hash)]
pub struct MachineIdentification {
    pub vendor: u16,
    pub machine: u16,
}

impl MachineIdentification {
    /// Both values are non-zero.
    pub open spec fn valid(&self) -> bool {
        self.vendor != 0 && self.machine != 0
    }

    /// Checks that both values are non-zero.
    pub fn is_valid(&self) -> (r: bool)
        ensures
            r == self.valid(),
    {
        self.vendor != 0 && self.machine != 0
    }
}

/// Identifies one physical machine: its kind and its serial number.
#[derive(Debug, Clone, Copy, PartialEq, Eq, Structural, Hash)]
pub struct MachineIdentificationUnique {
    pub machine_identification: MachineIdentification,
    pub serial: u16,
}

impl MachineIdentificationUnique {
    /// Vendor, machine and serial are all non-zero.
    pub open spec fn valid(&self) -> bool {
        self.machine_identification.valid() && self.serial != 0
    }

    /// Checks that vendor, machine and serial are all non-zero.
    pub fn is_valid(&self) -> (r: bool)
        ensures
            r == self.valid(),
    {
        self.machine_identification.is_valid() && self.serial != 0
    }
}

/// The tag that a device carries in its non-volatile memory: the machine it
/// belongs to and its role within that machine.
#[derive(Debug, Clone, Copy, PartialEq, Eq, Structural)]
pub struct DeviceMachineIdentification {
    pub machine_identification_unique: MachineIdentificationUnique,
    pub role: u16,
}

impl DeviceMachineIdentification {
    /// All four values are non-zero: the device is identified.
    pub open spec fn valid(&self) -> bool {
        self.machine_identification_unique.valid() && self.role != 0
    }

    /// Checks that vendor, machine, serial and role are all non-zero.
    pub fn is_valid(&self) -> (r: bool)
        ensures
            r == self.valid(),
    {
        self.machine_identification_unique.is_valid() && self.role != 0
    }
}

/// Locates an EtherCAT device by its position on the bus.
#[derive(Debug, Clone, Copy, PartialEq, Eq, Structural)]
pub struct DeviceHardwareIdentificationEthercat {
    pub subdevice_index: usize,
}

/// Locates a serial device by its device path.
#[derive(Debug, PartialEq, Eq)]
pub struct DeviceHardwareIdentificationSerial {
    pub path: String,
}

impl Clone for DeviceHardwareIdentificationSerial {
    fn clone(&self) -> (r: Self)
        ensures
            r == *self,
    {
        DeviceHardwareIdentificationSerial { path: self.path.clone() }
    }
}

/// Where a device is attached.
#[derive(Debug, PartialEq, Eq)]
pub enum DeviceHardwareIdentification {
    Ethercat(DeviceHardwareIdentificationEthercat),
    Serial(DeviceHardwareIdentificationSerial),
}

impl Clone for DeviceHardwareIdentification {
    fn clone(&self) -> (r: Self)
        ensures
            r == *self,
    {
        match self {
            DeviceHardwareIdentification::Ethercat(e) => DeviceHardwareIdentification::Ethercat(*e),
            DeviceHardwareIdentification::Serial(s) => DeviceHardwareIdentification::Serial(s.clone()),
        }
    }
}

/// A device as found on the bus: where it is attached and, when its
/// non-volatile memory could be read, its machine tag.
#[derive(Debug, PartialEq, Eq)]
pub struct DeviceIdentification {
    pub device_machine_identification: Option<DeviceMachineIdentification>,
    pub device_hardware_identification: DeviceHardwareIdentification,
}

impl Clone for DeviceIdentification {
    fn clone(&self) -> (r: Self)
        ensures
            r == *self,
    {
        DeviceIdentification {
            device_machine_identification: self.device_machine_identification,
            device_hardware_identification: self.device_hardware_identification.clone(),
        }
    }
}

/// A device whose machine tag is known.
#[derive(Debug, PartialEq, Eq)]
pub struct DeviceIdentificationIdentified {
    pub device_machine_identification: DeviceMachineIdentification,
    pub device_hardware_identification: DeviceHardwareIdentification,
}

impl Clone for DeviceIdentificationIdentified {
    fn clone(&self) -> (r: Self)
        ensures
            r == *self,
    {
        DeviceIdentificationIdentified {
            device_machine_identification: self.device_machine_identification,
            device_hardware_identification: self.device_hardware_identification.clone(),
        }
    }
}

/// The identified form of a device whose tag is present.
pub open spec fn to_identified(d: DeviceIdentification) -> DeviceIdentificationIdentified
    recommends
        d.device_machine_identification is Some,
{
    DeviceIdentificationIdentified {
        device_machine_identification: d.device_machine_identification->Some_0,
        device_hardware_identification: d.device_hardware_identification,
    }
}

impl From<DeviceIdentificationIdentified> for DeviceIdentification {
    fn from(value: DeviceIdentificationIdentified) -> (r: Self) {
        DeviceIdentification {
            device_machine_identification: Some(value.device_machine_identification),
            device_hardware_identification: value.device_hardware_identification,
        }
    }
}

impl vstd::std_specs::convert::FromSpecImpl<DeviceIdentificationIdentified> for DeviceIdentification {
    open spec fn obeys_from_spec() -> bool {
        true
    }

    open spec fn from_spec(v: DeviceIdentificationIdentified) -> DeviceIdentification {
        DeviceIdentification {
            device_machine_identification: Some(v.device_machine_identification),
            device_hardware_identification: v.device_hardware_identification,
        }
    }
}

impl DeviceIdentificationIdentified {
    /// Keeps a device whose machine tag is present; fails with `Unidentified` otherwise.
    pub fn try_from(value: DeviceIdentification) -> (r: Result<Self, ControlError>)
        ensures
            value.device_machine_identification is Some ==> r == Ok::<Self, ControlError>(
                to_identified(value),
            ),
            value.device_machine_identification is None ==> r == Err::<Self, ControlError>(
                ControlError::Unidentified,
            ),
    {
        match value.device_machine_identification {
            Some(m) => Ok(DeviceIdentificationIdentified {
                device_machine_identification: m,
                device_hardware_identification: value.device_hardware_identification,
            }),
            None => Err(ControlError::Unidentified),
        }
    }
}

/// The machine a tagged device belongs to.
pub open spec fn unique_of(d: DeviceIdentificationIdentified) -> MachineIdentificationUnique {
    d.device_machine_identification.machine_identification_unique
}

/// The role of a tagged device.
pub open spec fn role_of(d: DeviceIdentificationIdentified) -> u16 {
    d.device_machine_identification.role
}

/// The word offsets in non-volatile memory that hold the four identification values.
#[derive(Debug, Clone, Copy, PartialEq, Eq, Structural)]
pub struct MachineIdentificationAddresses {
    pub vendor_word: u16,
    pub serial_word: u16,
    pub machine_word: u16,
    pub role_word: u16,
}

impl MachineIdentificationAddresses {
    /// Builds an address map from its four word offsets.
    pub fn new(vendor_word: u16, serial_word: u16, machine_word: u16, device_word: u16) -> (r: Self)
        ensures
            r == (MachineIdentificationAddresses {
                vendor_word,
                serial_word,
                machine_word,
                role_word: device_word,
            }),
    {
        MachineIdentificationAddresses { vendor_word, serial_word, machine_word, role_word: device_word }
    }

    /// The default layout: vendor, machine, serial and role in consecutive words.
    pub open spec fn default_spec() -> Self {
        MachineIdentificationAddresses {
            vendor_word: 0x0028,
            machine_word: 0x0029,
            serial_word: 0x002a,
            role_word: 0x002b,
        }
    }
}

impl Default for MachineIdentificationAddresses {
    fn default() -> (r: Self)
        ensures
            r == Self::default_spec(),
    {
        MachineIdentificationAddresses {
            vendor_word: 0x0028,
            machine_word: 0x0029,
            serial_word: 0x002a,
            role_word: 0x002b,
        }
    }
}

impl MachineIdentificationAddresses {
    /// The four word offsets differ from each other.
    pub open spec fn distinct(&self) -> bool {
        &&& self.vendor_word != self.serial_word
        &&& self.vendor_word != self.machine_word
        &&& self.vendor_word != self.role_word
        &&& self.serial_word != self.machine_word
        &&& self.serial_word != self.role_word
        &&& self.machine_word != self.role_word
    }
}

/// Subdevice identities whose identification words sit at the default offsets.
pub open spec fn has_default_address_map(id: SubDeviceIdentityTuple) -> bool {
    ||| id == EL2004_IDENTITY_A
    ||| id == EL2004_IDENTITY_B
    ||| id == EL2008_IDENTITY_A
    ||| id == EL2008_IDENTITY_B
    ||| id == EL2008_IDENTITY_C
}

fn same_identity(a: SubDeviceIdentityTuple, b: SubDeviceIdentityTuple) -> (r: bool)
    ensures
        r == (a == b),
{
    a.0 == b.0 && a.1 == b.1 && a.2 == b.2
}

/// The offsets of the identification words of a subdevice, by its identity;
/// fails with `UnknownAddressMap` for an identity without a known layout.
pub fn get_identification_addresses(subdevice_identity: SubDeviceIdentityTuple) -> (r: Result<
    MachineIdentificationAddresses,
    ControlError,
>)
    ensures
        has_default_address_map(subdevice_identity) ==> r == Ok::<
            MachineIdentificationAddresses,
            ControlError,
        >(MachineIdentificationAddresses::default_spec()),
        !has_default_address_map(subdevice_identity) ==> r == Err::<
            MachineIdentificationAddresses,
            ControlError,
        >(ControlError::UnknownAddressMap),
{
    let id = subdevice_identity;
    if same_identity(id, EL2004_IDENTITY_A) || same_identity(id, EL2004_IDENTITY_B)
        || same_identity(id, EL2008_IDENTITY_A) || same_identity(id, EL2008_IDENTITY_B)
        || same_identity(id, EL2008_IDENTITY_C) {
        Ok(MachineIdentificationAddresses::default())
    } else {
        Err(ControlError::UnknownAddressMap)
    }
}

/// The tag made of the four identification words.
pub open spec fn tag_of(vendor: u16, machine: u16, serial: u16, role: u16) -> DeviceMachineIdentification {
    DeviceMachineIdentification {
        machine_identification_unique: MachineIdentificationUnique {
            machine_identification: MachineIdentification { vendor, machine },
            serial,
        },
        role,
    }
}

/// Builds a device's tag from the results of the four non-volatile memory
/// reads; fails with `NvMemoryRead` when any of them failed.
pub fn machine_device_identification(
    vendor: Option<u16>,
    machine: Option<u16>,
    serial: Option<u16>,
    role: Option<u16>,
) -> (r: Result<DeviceMachineIdentification, ControlError>)
    ensures
        (r is Ok) <==> (vendor is Some && machine is Some && serial is Some && role is Some),
        r is Ok ==> r->Ok_0 == tag_of(
            vendor->Some_0,
            machine->Some_0,
            serial->Some_0,
            role->Some_0,
        ),
        r is Err ==> r == Err::<DeviceMachineIdentification, ControlError>(ControlError::NvMemoryRead),
{
    match (vendor, machine, serial, role) {
        (Some(vendor), Some(machine), Some(serial), Some(role)) => Ok(DeviceMachineIdentification {
            machine_identification_unique: MachineIdentificationUnique {
                machine_identification: MachineIdentification { vendor, machine },
                serial,
            },
            role,
        }),
        _ => Err(ControlError::NvMemoryRead),
    }
}

/// The `(word offset, value)` writes that store a tag: vendor, serial,
/// machine, then role.
pub open spec fn identification_writes_spec(
    addresses: MachineIdentificationAddresses,
    tag: DeviceMachineIdentification,
) -> Seq<(u16, u16)> {
    seq![
        (addresses.vendor_word, tag.machine_identification_unique.machine_identification.vendor),
        (addresses.serial_word, tag.machine_identification_unique.serial),
        (addresses.machine_word, tag.machine_identification_unique.machine_identification.machine),
        (addresses.role_word, tag.role),
    ]
}

/// The non-volatile memory writes that store a device's tag, in the order
/// they are issued.
pub fn identification_writes(
    addresses: &MachineIdentificationAddresses,
    device_identification: &DeviceMachineIdentification,
) -> (r: Vec<(u16, u16)>)
    ensures
        r@ == identification_writes_spec(*addresses, *device_identification),
{
    let mut v: Vec<(u16, u16)> = Vec::new();
    v.push(
        (
            addresses.vendor_word,
            device_identification.machine_identification_unique.machine_identification.vendor,
        ),
    );
    v.push((addresses.serial_word, device_identification.machine_identification_unique.serial));
    v.push(
        (
            addresses.machine_word,
            device_identification.machine_identification_unique.machine_identification.machine,
        ),
    );
    v.push((addresses.role_word, device_identification.role));
    assert(v@ =~= identification_writes_spec(*addresses, *device_identification));
    v
}

/// Non-volatile memory after the writes, in order.
pub open spec fn apply_writes(mem: Map<u16, u16>, writes: Seq<(u16, u16)>) -> Map<u16, u16>
    decreases writes.len(),
{
    if writes.len() == 0 {
        mem
    } else {
        apply_writes(mem, writes.drop_last()).insert(writes.last().0, writes.last().1)
    }
}

/// The tag that reading the four identification words of `mem` yields.
pub open spec fn read_tag(mem: Map<u16, u16>, a: MachineIdentificationAddresses) -> DeviceMachineIdentification {
    tag_of(mem[a.vendor_word], mem[a.machine_word], mem[a.serial_word], mem[a.role_word])
}

/// Writing a tag to a device's non-volatile memory and reading the
/// identification words back yields the same tag, whatever the memory held.
pub proof fn lemma_write_then_read(
    mem: Map<u16, u16>,
    addresses: MachineIdentificationAddresses,
    tag: DeviceMachineIdentification,
)
    requires
        addresses.distinct(),
    ensures
        read_tag(apply_writes(mem, identification_writes_spec(addresses, tag)), addresses) == tag,
{
    let w = identification_writes_spec(addresses, tag);
    let w3 = w.drop_last();
    let w2 = w3.drop_last();
    let w1 = w2.drop_last();
    let w0 = w1.drop_last();
    assert(w0 =~= Seq::<(u16, u16)>::empty());
    let m1 = mem.insert(addresses.vendor_word, w[0].1);
    let m2 = m1.insert(addresses.serial_word, w[1].1);
    let m3 = m2.insert(addresses.machine_word, w[2].1);
    assert(apply_writes(mem, w0) == mem);
    assert(apply_writes(mem, w1) == m1);
    assert(apply_writes(mem, w2) == m2);
    assert(apply_writes(mem, w3) == m3);
    let after = apply_writes(mem, w);
    assert(after == m3.insert(addresses.role_word, w[3].1));
    assert(after[addresses.vendor_word] == tag.machine_identification_unique.machine_identification.vendor);
    assert(after[addresses.serial_word] == tag.machine_identification_unique.serial);
    assert(after[addresses.machine_word] == tag.machine_identification_unique.machine_identification.machine);
    assert(after[addresses.role_word] == tag.role);
}

} // verus!
