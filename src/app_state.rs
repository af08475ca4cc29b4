use vstd::prelude::*;

use crate::devices::{Module, SubDeviceIdentityTuple};
use crate::error::ControlError;
use crate::machine_identification::{
    get_identification_addresses, has_default_address_map, identification_writes,
    identification_writes_spec, DeviceHardwareIdentification,
    DeviceHardwareIdentificationEthercat, DeviceIdentification, DeviceMachineIdentification,
    MachineIdentificationAddresses, MachineIdentificationUnique,
};
use crate::setup::MachineObj;

verus! {

/// What the control plane keeps of each subdevice, captured during setup.
#[derive(Debug)]
pub struct EtherCatDeviceMetaData {
    pub configured_address: u16,
    pub name: String,
    pub vendor_id: u32,
    pub product_id: u32,
    pub revision: u32,
    pub device_identification: DeviceIdentification,
}

impl Clone for EtherCatDeviceMetaData {
    fn clone(&self) -> (r: Self)
        ensures
            r == *self,
    {
        EtherCatDeviceMetaData {
            configured_address: self.configured_address,
            name: self.name.clone(),
            vendor_id: self.vendor_id,
            product_id: self.product_id,
            revision: self.revision,
            device_identification: self.device_identification.clone(),
        }
    }
}

/// A request to store a tag in the non-volatile memory of one subdevice.
#[derive(Debug, Clone, Copy, PartialEq, Eq, Structural)]
pub struct MachineDeviceInfoRequest {
    pub device_machine_identification: DeviceMachineIdentification,
    pub hardware_identification_ethercat: DeviceHardwareIdentificationEthercat,
}

/// The answer to a bus recovery request.
#[derive(Debug, Clone, Copy, PartialEq, Eq, Structural)]
pub struct RecoverResponse {
    pub ok: bool,
}

/// The non-volatile memory writes that store `tag` in a subdevice with the
/// given identity, in the order they are issued; fails with
/// `UnknownAddressMap` when the identity's word layout is unknown.
pub fn machine_device_identification_writes(
    subdevice_identity: SubDeviceIdentityTuple,
    tag: &DeviceMachineIdentification,
) -> (r: Result<Vec<(u16, u16)>, ControlError>)
    ensures
        (r is Ok) <==> has_default_address_map(subdevice_identity),
        r is Ok ==> r->Ok_0@ == identification_writes_spec(
            MachineIdentificationAddresses::default_spec(),
            *tag,
        ),
        r is Err ==> r == Err::<Vec<(u16, u16)>, ControlError>(ControlError::UnknownAddressMap),
{
    let addresses = get_identification_addresses(subdevice_identity)?;
    Ok(identification_writes(&addresses, tag))
}

/// The subdevice index of an EtherCAT device.
pub open spec fn ethercat_index(d: DeviceIdentification) -> Option<usize> {
    match d.device_hardware_identification {
        DeviceHardwareIdentification::Ethercat(e) => Some(e.subdevice_index),
        DeviceHardwareIdentification::Serial(_) => None,
    }
}

/// The metadata at `i` describes the EtherCAT subdevice with index `target`.
pub open spec fn meta_at(metas: Seq<EtherCatDeviceMetaData>, i: int, target: usize) -> bool {
    0 <= i < metas.len() && ethercat_index(metas[i].device_identification) == Some(target)
}

/// The metadata with the tag of `request` recorded.
pub open spec fn with_tag(meta: EtherCatDeviceMetaData, request: MachineDeviceInfoRequest) -> EtherCatDeviceMetaData {
    EtherCatDeviceMetaData {
        device_identification: DeviceIdentification {
            device_machine_identification: Some(request.device_machine_identification),
            ..meta.device_identification
        },
        ..meta
    }
}

/// Records the tag of a write request in the metadata of the first subdevice
/// with the request's subdevice index; the rest is kept. Returns whether one
/// was found.
pub fn update_device_identification(
    metas: &mut Vec<EtherCatDeviceMetaData>,
    request: &MachineDeviceInfoRequest,
) -> (r: bool)
    ensures
        r <==> exists|i: int| #[trigger] meta_at(old(metas)@, i, request.hardware_identification_ethercat.subdevice_index),
        !r ==> final(metas)@ == old(metas)@,
        r ==> exists|i: int|
            #[trigger] meta_at(old(metas)@, i, request.hardware_identification_ethercat.subdevice_index)
                && (forall|k: int| 0 <= k < i ==> !meta_at(old(metas)@, k, request.hardware_identification_ethercat.subdevice_index))
                && final(metas)@ == old(metas)@.update(i, with_tag(old(metas)@[i], *request)),
{
    let target = request.hardware_identification_ethercat.subdevice_index;
    let mut i: usize = 0;
    while i < metas.len()
        invariant
            metas@ == old(metas)@,
            0 <= i <= metas@.len(),
            target == request.hardware_identification_ethercat.subdevice_index,
            forall|k: int| 0 <= k < i ==> !#[trigger] meta_at(metas@, k, target),
        decreases metas@.len() - i,
    {
        let matches = match &metas[i].device_identification.device_hardware_identification {
            DeviceHardwareIdentification::Ethercat(e) => e.subdevice_index == target,
            DeviceHardwareIdentification::Serial(_) => false,
        };
        if matches {
            assert(meta_at(old(metas)@, i as int, target));
            let mut meta = metas.remove(i);
            meta.device_identification.device_machine_identification = Some(
                request.device_machine_identification,
            );
            metas.insert(i, meta);
            assert(metas@ =~= old(metas)@.update(i as int, with_tag(old(metas)@[i as int], *request)));
            return true;
        }
        i += 1;
    }
    false
}

/// A report for each group of the grouping, none with an error.
pub fn machine_objs_from_groups(
    device_groups: &Vec<Vec<crate::machine_identification::DeviceIdentificationIdentified>>,
) -> (r: Vec<MachineObj>)
    requires
        forall|g: int| 0 <= g < device_groups@.len() ==> #[trigger] device_groups@[g]@.len() > 0,
    ensures
        r@.len() == device_groups@.len(),
        forall|g: int|
            0 <= g < device_groups@.len() ==> #[trigger] r@[g] == (MachineObj {
                machine_identification_unique: crate::setup::group_unique(device_groups@[g]@),
                error: None,
            }),
{
    let mut out: Vec<MachineObj> = Vec::new();
    let mut g: usize = 0;
    while g < device_groups.len()
        invariant
            forall|x: int| 0 <= x < device_groups@.len() ==> #[trigger] device_groups@[x]@.len() > 0,
            0 <= g <= device_groups@.len(),
            out@.len() == g,
            forall|x: int|
                0 <= x < g ==> #[trigger] out@[x] == (MachineObj {
                    machine_identification_unique: crate::setup::group_unique(device_groups@[x]@),
                    error: None,
                }),
        decreases device_groups@.len() - g,
    {
        assert(device_groups@[g as int]@.len() > 0);
        let unique = device_groups[g][0].device_machine_identification.machine_identification_unique;
        out.push(MachineObj { machine_identification_unique: unique, error: None });
        g += 1;
    }
    out
}

/// The list contains a report for `id`.
pub open spec fn has_machine(objs: Seq<MachineObj>, id: MachineIdentificationUnique) -> bool {
    exists|k: int| 0 <= k < objs.len() && (#[trigger] objs[k]).machine_identification_unique == id
}

/// Appends the reports, in order, whose machine had no report before the call.
pub fn add_machines_if_not_exists(current: &mut Vec<MachineObj>, machines: Vec<MachineObj>)
    ensures
        final(current)@ == old(current)@ + machines@.filter(
            |m: MachineObj| !has_machine(old(current)@, m.machine_identification_unique),
        ),
{
    let ghost existing = current@;
    let ghost pred = |m: MachineObj| !has_machine(existing, m.machine_identification_unique);
    let n0 = current.len();
    let mut i: usize = 0;
    proof {
        reveal(Seq::filter);
        assert(machines@.subrange(0, 0) =~= Seq::<MachineObj>::empty());
        assert(current@ =~= existing + machines@.subrange(0, 0).filter(pred));
    }
    while i < machines.len()
        invariant
            pred == (|m: MachineObj| !has_machine(existing, m.machine_identification_unique)),
            n0 == existing.len(),
            n0 <= current@.len(),
            0 <= i <= machines@.len(),
            current@.subrange(0, n0 as int) == existing,
            current@ == existing + machines@.subrange(0, i as int).filter(pred),
        decreases machines@.len() - i,
    {
        let m = machines[i];
        let mut found = false;
        let mut k: usize = 0;
        while k < n0
            invariant
                n0 == existing.len(),
                n0 <= current@.len(),
                0 <= k <= n0,
                current@.subrange(0, n0 as int) == existing,
                !found ==> forall|x: int|
                    0 <= x < k ==> (#[trigger] existing[x]).machine_identification_unique
                        != m.machine_identification_unique,
                found ==> has_machine(existing, m.machine_identification_unique),
            decreases n0 - k,
        {
            assert(current@[k as int] == existing[k as int]);
            if current[k].machine_identification_unique == m.machine_identification_unique {
                found = true;
            }
            k += 1;
        }
        proof {
            reveal(Seq::filter);
            assert(machines@.subrange(0, i as int + 1).drop_last() =~= machines@.subrange(0, i as int));
            assert(found == !pred(m));
        }
        let ghost prev = current@;
        if !found {
            current.push(m);
        }
        proof {
            assert(current@.subrange(0, n0 as int) =~= existing);
            assert(machines@.subrange(0, i as int + 1).filter(pred) == if pred(m) {
                machines@.subrange(0, i as int).filter(pred).push(m)
            } else {
                machines@.subrange(0, i as int).filter(pred)
            });
            assert(current@ =~= existing + machines@.subrange(0, i as int + 1).filter(pred));
        }
        i += 1;
    }
    assert(machines@.subrange(0, machines@.len() as int) =~= machines@);
}

/// Removes every report of machine `machine_id`, keeping the order of the others.
pub fn remove_machine(current: &mut Vec<MachineObj>, machine_id: &MachineIdentificationUnique)
    ensures
        final(current)@ == old(current)@.filter(
            |m: MachineObj| m.machine_identification_unique != *machine_id,
        ),
{
    let ghost orig = current@;
    let ghost pred = |m: MachineObj| m.machine_identification_unique != *machine_id;
    let mut kept: Vec<MachineObj> = Vec::new();
    let mut i: usize = 0;
    proof {
        reveal(Seq::filter);
        assert(orig.subrange(0, 0) =~= Seq::<MachineObj>::empty());
    }
    while i < current.len()
        invariant
            current@ == orig,
            pred == (|m: MachineObj| m.machine_identification_unique != *machine_id),
            0 <= i <= orig.len(),
            kept@ == orig.subrange(0, i as int).filter(pred),
        decreases orig.len() - i,
    {
        let m = current[i];
        proof {
            reveal(Seq::filter);
            assert(orig.subrange(0, i as int + 1).drop_last() =~= orig.subrange(0, i as int));
            assert(orig.subrange(0, i as int + 1).filter(pred) == if pred(m) {
                kept@.push(m)
            } else {
                kept@
            });
        }
        if m.machine_identification_unique != *machine_id {
            kept.push(m);
        }
        i += 1;
    }
    assert(orig.subrange(0, orig.len() as int) =~= orig);
    *current = kept;
}

/// The device list sent to user interfaces once setup is done.
#[derive(Debug)]
pub struct EthercatSetupDone {
    pub devices: Vec<EtherCatDeviceMetaData>,
}

/// The state of the bus setup as user interfaces see it.
#[derive(Debug)]
pub enum EthercatDevicesEvent {
    Initializing(bool),
    Done(EthercatSetupDone),
    Error(String),
}

/// Builds the bus setup events.
#[derive(Debug, Clone, Copy)]
pub struct EthercatDevicesEventBuilder();

impl EthercatDevicesEventBuilder {
    /// The event that announces a setup in progress.
    pub fn initializing(&self) -> (r: EthercatDevicesEvent)
        ensures
            r == EthercatDevicesEvent::Initializing(true),
    {
        EthercatDevicesEvent::Initializing(true)
    }

    /// The event that lists the devices of a finished setup.
    pub fn build(&self, devices: Vec<EtherCatDeviceMetaData>) -> (r: EthercatDevicesEvent)
        ensures
            r == EthercatDevicesEvent::Done(EthercatSetupDone { devices }),
    {
        EthercatDevicesEvent::Done(EthercatSetupDone { devices })
    }
}

/// The metadata of a coupler's child module: it carries the coupler's tag
/// and is listed under a subdevice index equal to its slot.
pub open spec fn module_meta(
    m: Module,
    tag: Option<DeviceMachineIdentification>,
    name: String,
    revision: u32,
) -> EtherCatDeviceMetaData {
    EtherCatDeviceMetaData {
        configured_address: m.slot,
        name,
        vendor_id: m.vendor_id,
        product_id: m.product_id,
        revision,
        device_identification: DeviceIdentification {
            device_machine_identification: tag,
            device_hardware_identification: DeviceHardwareIdentification::Ethercat(
                DeviceHardwareIdentificationEthercat { subdevice_index: m.slot as usize },
            ),
        },
    }
}

/// The metadata of the modules that belong to the coupler at `address`, in order.
pub open spec fn module_entries(
    modules: Seq<Module>,
    address: u16,
    tag: Option<DeviceMachineIdentification>,
    name: String,
    revision: u32,
) -> Seq<EtherCatDeviceMetaData>
    decreases modules.len(),
{
    if modules.len() == 0 {
        Seq::empty()
    } else {
        let rest = module_entries(modules.drop_last(), address, tag, name, revision);
        if modules.last().belongs_to_addr == address {
            rest.push(module_meta(modules.last(), tag, name, revision))
        } else {
            rest
        }
    }
}

/// Lists the child modules of the coupler at `coupler_address` as devices of
/// their own, each with the coupler's tag, under a subdevice index equal to
/// its slot. Modules of other couplers are skipped.
pub fn coupler_module_meta_data(
    coupler_address: u16,
    modules: &Vec<Module>,
    coupler_tag: Option<DeviceMachineIdentification>,
    name: &String,
    revision: u32,
) -> (r: Vec<EtherCatDeviceMetaData>)
    ensures
        r@ == module_entries(modules@, coupler_address, coupler_tag, *name, revision),
{
    let mut out: Vec<EtherCatDeviceMetaData> = Vec::new();
    let mut i: usize = 0;
    while i < modules.len()
        invariant
            0 <= i <= modules@.len(),
            out@ == module_entries(modules@.subrange(0, i as int), coupler_address, coupler_tag, *name, revision),
        decreases modules@.len() - i,
    {
        let m = modules[i];
        proof {
            assert(modules@.subrange(0, i as int + 1).drop_last() =~= modules@.subrange(0, i as int));
        }
        if m.belongs_to_addr == coupler_address {
            out.push(
                EtherCatDeviceMetaData {
                    configured_address: m.slot,
                    name: name.clone(),
                    vendor_id: m.vendor_id,
                    product_id: m.product_id,
                    revision,
                    device_identification: DeviceIdentification {
                        device_machine_identification: coupler_tag,
                        device_hardware_identification: DeviceHardwareIdentification::Ethercat(
                            DeviceHardwareIdentificationEthercat { subdevice_index: m.slot as usize },
                        ),
                    },
                },
            );
        }
        i += 1;
    }
    assert(modules@.subrange(0, modules@.len() as int) =~= modules@);
    out
}

/// The deviation of a measured cycle period from the cycle target, in
/// nanoseconds: positive when the cycle ran long.
pub fn cycle_jitter_ns(period_ns: u64, cycle_target_ns: u64) -> (r: i128)
    ensures
        r == period_ns - cycle_target_ns,
{
    period_ns as i128 - cycle_target_ns as i128
}

/// The jitter sample of a cycle that starts at `start_ns`: none for the
/// first cycle, or when the clock went backwards; otherwise the previous
/// cycle's period minus the cycle target.
pub fn jitter_sample(last_start_ns: Option<u64>, start_ns: u64, cycle_target_ns: u64) -> (r: Option<
    i128,
>)
    ensures
        last_start_ns is None ==> r is None,
        last_start_ns is Some && start_ns < last_start_ns->Some_0 ==> r is None,
        last_start_ns is Some && start_ns >= last_start_ns->Some_0 ==> r == Some(
            (start_ns - last_start_ns->Some_0 - cycle_target_ns) as i128,
        ),
{
    match last_start_ns {
        None => None,
        Some(last) => if start_ns >= last {
            Some(cycle_jitter_ns(start_ns - last, cycle_target_ns))
        } else {
            None
        },
    }
}

} // verus!
