use vstd::prelude::*;

use crate::error::ControlError;
use crate::machine_identification::{
    role_of, unique_of, DeviceIdentificationIdentified, MachineIdentificationUnique,
};

verus! {

/// Every device of the group belongs to the machine of the first one.
pub open spec fn same_machine(group: Seq<DeviceIdentificationIdentified>) -> bool {
    forall|k: int| 0 <= k < group.len() ==> unique_of(#[trigger] group[k]) == unique_of(group[0])
}

/// No two devices of the group share a role.
pub open spec fn roles_distinct(group: Seq<DeviceIdentificationIdentified>) -> bool {
    forall|a: int, b: int|
        0 <= a < b < group.len() ==> role_of(#[trigger] group[a]) != role_of(#[trigger] group[b])
}

/// Checks that the group is non-empty and that all its devices belong to one machine.
pub fn validate_same_machine_identification_unique(
    identified_device_group: &Vec<DeviceIdentificationIdentified>,
) -> (r: Result<(), ControlError>)
    ensures
        identified_device_group@.len() == 0 ==> r == Err::<(), ControlError>(ControlError::EmptyGroup),
        identified_device_group@.len() > 0 ==> (r is Ok <==> same_machine(identified_device_group@)),
        identified_device_group@.len() > 0 && r is Err ==> r == Err::<(), ControlError>(
            ControlError::IdentityMismatch,
        ),
{
    if identified_device_group.len() == 0 {
        return Err(ControlError::EmptyGroup);
    }
    let first: MachineIdentificationUnique =
        identified_device_group[0].device_machine_identification.machine_identification_unique;
    let mut i: usize = 0;
    while i < identified_device_group.len()
        invariant
            0 <= i <= identified_device_group@.len(),
            first == unique_of(identified_device_group@[0]),
            forall|k: int| 0 <= k < i ==> unique_of(#[trigger] identified_device_group@[k]) == first,
        decreases identified_device_group@.len() - i,
    {
        if identified_device_group[i].device_machine_identification.machine_identification_unique
            != first {
            return Err(ControlError::IdentityMismatch);
        }
        i += 1;
    }
    Ok(())
}

/// Checks that no two devices of the group share a role.
pub fn validate_no_role_dublicates(identified_device_group: &Vec<DeviceIdentificationIdentified>) -> (r:
    Result<(), ControlError>)
    ensures
        r is Ok <==> roles_distinct(identified_device_group@),
        r is Err ==> r == Err::<(), ControlError>(ControlError::DuplicateRole),
{
    let ghost g = identified_device_group@;
    let mut roles: Vec<u16> = Vec::new();
    let mut i: usize = 0;
    while i < identified_device_group.len()
        invariant
            g == identified_device_group@,
            0 <= i <= g.len(),
            roles@.len() == i,
            forall|k: int| 0 <= k < i ==> roles@[k] == role_of(#[trigger] g[k]),
            forall|a: int, b: int| 0 <= a < b < i ==> role_of(#[trigger] g[a]) != role_of(#[trigger] g[b]),
        decreases g.len() - i,
    {
        let role = identified_device_group[i].device_machine_identification.role;
        let mut k: usize = 0;
        while k < roles.len()
            invariant
                0 <= k <= roles@.len(),
                roles@.len() == i,
                g == identified_device_group@,
                i < g.len(),
                role == role_of(g[i as int]),
                forall|a: int| 0 <= a < i ==> roles@[a] == role_of(#[trigger] g[a]),
                forall|a: int| 0 <= a < k ==> roles@[a] != role,
            decreases roles@.len() - k,
        {
            if roles[k] == role {
                assert(role_of(g[k as int]) == role_of(g[i as int]));
                return Err(ControlError::DuplicateRole);
            }
            k += 1;
        }
        roles.push(role);
        i += 1;
    }
    Ok(())
}

/// The first device of the group that carries `role`.
pub open spec fn find_role(group: Seq<DeviceIdentificationIdentified>, role: u16) -> Option<
    DeviceIdentificationIdentified,
>
    decreases group.len(),
{
    if group.len() == 0 {
        None
    } else if role_of(group[0]) == role {
        Some(group[0])
    } else {
        find_role(group.subrange(1, group.len() as int), role)
    }
}

proof fn lemma_find_role_skip(group: Seq<DeviceIdentificationIdentified>, i: int, role: u16)
    requires
        0 <= i < group.len(),
        role_of(group[i]) != role,
    ensures
        find_role(group.subrange(i, group.len() as int), role) == find_role(
            group.subrange(i + 1, group.len() as int),
            role,
        ),
{
    assert(group.subrange(i, group.len() as int).subrange(1, group.len() - i) =~= group.subrange(
        i + 1,
        group.len() as int,
    ));
}

/// Finds the first device of the group that carries `role`; fails with
/// `MissingRole` when none does.
pub fn get_device_identification_by_role(
    identified_device_group: &Vec<DeviceIdentificationIdentified>,
    role: u16,
) -> (r: Result<&DeviceIdentificationIdentified, ControlError>)
    ensures
        (r is Ok) <==> find_role(identified_device_group@, role) is Some,
        r is Ok ==> *r->Ok_0 == find_role(identified_device_group@, role)->Some_0,
        r is Err ==> r == Err::<&DeviceIdentificationIdentified, ControlError>(
            ControlError::MissingRole,
        ),
{
    let ghost g = identified_device_group@;
    assert(g.subrange(0, g.len() as int) =~= g);
    let mut i: usize = 0;
    while i < identified_device_group.len()
        invariant
            g == identified_device_group@,
            0 <= i <= g.len(),
            find_role(g, role) == find_role(g.subrange(i as int, g.len() as int), role),
        decreases g.len() - i,
    {
        if identified_device_group[i].device_machine_identification.role == role {
            return Ok(&identified_device_group[i]);
        }
        proof {
            lemma_find_role_skip(g, i as int, role);
        }
        i += 1;
    }
    Err(ControlError::MissingRole)
}

/// The entry of a bus-ordered table at a subdevice index; fails with
/// `IndexOutOfBounds` past its end.
pub fn get_subdevice_by_index<T>(subdevices: &Vec<T>, subdevice_index: usize) -> (r: Result<
    &T,
    ControlError,
>)
    ensures
        subdevice_index < subdevices@.len() ==> r is Ok && *r->Ok_0 == subdevices@[subdevice_index as int],
        subdevice_index >= subdevices@.len() ==> r == Err::<&T, ControlError>(
            ControlError::IndexOutOfBounds,
        ),
{
    if subdevice_index < subdevices.len() {
        Ok(&subdevices[subdevice_index])
    } else {
        Err(ControlError::IndexOutOfBounds)
    }
}

/// Whether a machine is connected to another one, and to which.
#[derive(Debug, Clone, Copy, PartialEq, Eq, Structural)]
pub struct MachineCrossConnectionState {
    pub machine_identification_unique: Option<MachineIdentificationUnique>,
    pub is_available: bool,
}

/// A directed link between two machines.
#[derive(Debug, Clone, Copy, PartialEq, Eq, Structural)]
pub struct CrossConnection {
    pub src: MachineIdentificationUnique,
    pub dest: MachineIdentificationUnique,
}

/// Requests for the thread that coordinates machines with each other.
#[derive(Debug, Clone, Copy, PartialEq, Eq, Structural)]
pub enum AsyncThreadMessage {
    NoMsg,
    ConnectOneWayRequest(CrossConnection),
    DisconnectMachines(CrossConnection),
}

/// Parameters for opening a serial device.
#[derive(Debug)]
pub struct SerialDeviceNewParams {
    pub path: String,
}

/// Identifies a kind of serial device by its USB vendor and product.
#[derive(Debug, Clone, Copy, PartialEq, Eq, Structural, Hash)]
pub struct SerialDeviceIdentification {
    pub vendor_id: u16,
    pub product_id: u16,
}

} // verus!
