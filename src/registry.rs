use vstd::prelude::*;

use crate::devices::{EthercatDevice, SubDeviceIdentityTuple};
use crate::error::ControlError;
use crate::machine_identification::{DeviceIdentificationIdentified, MachineIdentification};
use crate::test_el2008_machine::{claim_outcome, initial_view, TestEL2008Machine};

verus! {

/// The kind of machine a device group stands for: that of its first device.
pub open spec fn group_machine_identification(group: Seq<DeviceIdentificationIdentified>) -> MachineIdentification {
    group[0].device_machine_identification.machine_identification_unique.machine_identification
}

/// Whether a machine can be built from a device group, and then the subdevice
/// index of the device it claims.
pub open spec fn machine_outcome(
    group: Seq<DeviceIdentificationIdentified>,
    identities: Seq<SubDeviceIdentityTuple>,
    devices: Seq<EthercatDevice>,
) -> Result<usize, ControlError> {
    if group.len() == 0 {
        Err(ControlError::EmptyGroup)
    } else if group_machine_identification(group) != TestEL2008Machine::machine_identification_spec() {
        Err(ControlError::MachineNotFound)
    } else {
        claim_outcome(group, identities, devices)
    }
}

/// Builds the machine that the device group's machine identification names,
/// claiming its devices in the device table; fails with `MachineNotFound`
/// when no machine is registered for it. On failure the table is untouched.
pub fn new_machine(
    device_group: &Vec<DeviceIdentificationIdentified>,
    subdevice_identities: &Vec<SubDeviceIdentityTuple>,
    devices: &mut Vec<EthercatDevice>,
    now_ns: u64,
) -> (r: Result<TestEL2008Machine, ControlError>)
    ensures
        (r is Ok) <==> machine_outcome(device_group@, subdevice_identities@, old(devices)@) is Ok,
        r is Err ==> r->Err_0 == machine_outcome(
            device_group@,
            subdevice_identities@,
            old(devices)@,
        )->Err_0 && final(devices)@ == old(devices)@,
        r is Ok ==> ({
            let idx = machine_outcome(device_group@, subdevice_identities@, old(devices)@)->Ok_0;
            &&& r->Ok_0.wf()
            &&& r->Ok_0@ == initial_view(
                device_group@[0].device_machine_identification.machine_identification_unique,
                idx,
                now_ns,
            )
            &&& final(devices)@ == old(devices)@.update(
                idx as int,
                old(devices)@[idx as int].with_used(true),
            )
        }),
{
    if device_group.len() == 0 {
        return Err(ControlError::EmptyGroup);
    }
    let mi = device_group[0].device_machine_identification.machine_identification_unique.machine_identification;
    if mi == TestEL2008Machine::machine_identification() {
        TestEL2008Machine::new(device_group, subdevice_identities, devices, now_ns)
    } else {
        Err(ControlError::MachineNotFound)
    }
}

} // verus!
