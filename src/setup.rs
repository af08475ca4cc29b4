use vstd::prelude::*;

use crate::devices::{EthercatDevice, SubDeviceIdentityTuple};
use crate::error::ControlError;
use crate::machine_identification::{
    to_identified, unique_of, DeviceHardwareIdentification, DeviceHardwareIdentificationEthercat,
    DeviceIdentification, DeviceIdentificationIdentified, DeviceMachineIdentification,
    MachineIdentificationUnique,
};
use crate::registry::{machine_outcome, new_machine};
use crate::test_el2008_machine::{initial_view, TestEL2008Machine, TestEL2008MachineView};

verus! {

/// The device carries a machine tag whose four values are all non-zero.
pub open spec fn is_identified(d: DeviceIdentification) -> bool {
    d.device_machine_identification is Some && d.device_machine_identification->Some_0.valid()
}

/// The identified devices of `s` that belong to machine `u`, in bus order.
pub open spec fn group_of(s: Seq<DeviceIdentification>, u: MachineIdentificationUnique) -> Seq<
    DeviceIdentificationIdentified,
>
    decreases s.len(),
{
    if s.len() == 0 {
        Seq::empty()
    } else {
        let rest = group_of(s.drop_last(), u);
        let d = s.last();
        if is_identified(d) && d.device_machine_identification->Some_0.machine_identification_unique
            == u {
            rest.push(to_identified(d))
        } else {
            rest
        }
    }
}

/// The devices of `s` that are not identified, in bus order.
pub open spec fn unidentified_of(s: Seq<DeviceIdentification>) -> Seq<DeviceIdentification>
    decreases s.len(),
{
    if s.len() == 0 {
        Seq::empty()
    } else {
        let rest = unidentified_of(s.drop_last());
        if is_identified(s.last()) {
            rest
        } else {
            rest.push(s.last())
        }
    }
}

/// The machines of the identified devices of `s`, each once, in the order
/// in which their first device appears.
pub open spec fn machine_order(s: Seq<DeviceIdentification>) -> Seq<MachineIdentificationUnique>
    decreases s.len(),
{
    if s.len() == 0 {
        Seq::empty()
    } else {
        let rest = machine_order(s.drop_last());
        let d = s.last();
        let u = d.device_machine_identification->Some_0.machine_identification_unique;
        if is_identified(d) && !rest.contains(u) {
            rest.push(u)
        } else {
            rest
        }
    }
}

/// The machine of the first device of a group.
pub open spec fn group_unique(g: Seq<DeviceIdentificationIdentified>) -> MachineIdentificationUnique {
    unique_of(g[0])
}

/// `groups` partitions the identified devices of `s` by machine: each group is
/// non-empty, holds exactly the devices of `s` tagged with its machine, in bus
/// order, no two groups share a machine, and every identified device has its group.
pub open spec fn is_grouping(
    s: Seq<DeviceIdentification>,
    groups: Seq<Seq<DeviceIdentificationIdentified>>,
) -> bool {
    &&& forall|g: int| 0 <= g < groups.len() ==> #[trigger] groups[g].len() > 0
    &&& forall|g: int|
        0 <= g < groups.len() ==> #[trigger] groups[g] == group_of(s, group_unique(groups[g]))
    &&& forall|g1: int, g2: int|
        0 <= g1 < groups.len() && 0 <= g2 < groups.len() && g1 != g2 ==> group_unique(
            #[trigger] groups[g1],
        ) != group_unique(#[trigger] groups[g2])
    &&& forall|i: int|
        0 <= i < s.len() && is_identified(#[trigger] s[i]) ==> exists|g: int|
            0 <= g < groups.len() && group_unique(#[trigger] groups[g])
                == s[i].device_machine_identification->Some_0.machine_identification_unique
}

/// The devices of a bus, split into machine groups and unidentified devices.
#[derive(Debug)]
pub struct DeviceGroupingResult {
    /// Identified devices, grouped by machine.
    pub device_groups: Vec<Vec<DeviceIdentificationIdentified>>,
    /// Devices without a valid machine tag.
    pub unidentified_devices: Vec<DeviceIdentification>,
}

impl DeviceGroupingResult {
    /// The groups as sequences.
    pub open spec fn groups_view(&self) -> Seq<Seq<DeviceIdentificationIdentified>> {
        self.device_groups@.map_values(|g: Vec<DeviceIdentificationIdentified>| g@)
    }
}

proof fn lemma_group_of_step(s: Seq<DeviceIdentification>, i: int, u: MachineIdentificationUnique)
    requires
        0 <= i < s.len(),
    ensures
        group_of(s.subrange(0, i + 1), u) == if is_identified(s[i])
            && s[i].device_machine_identification->Some_0.machine_identification_unique == u {
            group_of(s.subrange(0, i), u).push(to_identified(s[i]))
        } else {
            group_of(s.subrange(0, i), u)
        },
{
    assert(s.subrange(0, i + 1).drop_last() =~= s.subrange(0, i));
}

proof fn lemma_unidentified_step(s: Seq<DeviceIdentification>, i: int)
    requires
        0 <= i < s.len(),
    ensures
        unidentified_of(s.subrange(0, i + 1)) == if is_identified(s[i]) {
            unidentified_of(s.subrange(0, i))
        } else {
            unidentified_of(s.subrange(0, i)).push(s[i])
        },
{
    assert(s.subrange(0, i + 1).drop_last() =~= s.subrange(0, i));
}

/// A device group is never empty without a device of that machine behind it.
proof fn lemma_group_of_witness(s: Seq<DeviceIdentification>, u: MachineIdentificationUnique)
    requires
        group_of(s, u).len() > 0,
    ensures
        exists|k: int|
            0 <= k < s.len() && is_identified(#[trigger] s[k])
                && s[k].device_machine_identification->Some_0.machine_identification_unique == u,
    decreases s.len(),
{
    let d = s.last();
    if is_identified(d) && d.device_machine_identification->Some_0.machine_identification_unique
        == u {
        assert(is_identified(s[s.len() - 1]));
    } else {
        lemma_group_of_witness(s.drop_last(), u);
        let k = choose|k: int|
            0 <= k < s.drop_last().len() && is_identified(#[trigger] s.drop_last()[k])
                && s.drop_last()[k].device_machine_identification->Some_0.machine_identification_unique
                == u;
        assert(s[k] == s.drop_last()[k]);
    }
}

proof fn lemma_extend_unidentified(
    s: Seq<DeviceIdentification>,
    i: int,
    gv: Seq<Seq<DeviceIdentificationIdentified>>,
)
    requires
        0 <= i < s.len(),
        is_grouping(s.subrange(0, i), gv),
        !is_identified(s[i]),
    ensures
        is_grouping(s.subrange(0, i + 1), gv),
{
    let prefix = s.subrange(0, i);
    let next = s.subrange(0, i + 1);
    assert forall|g: int| 0 <= g < gv.len() implies #[trigger] gv[g] == group_of(
        next,
        group_unique(gv[g]),
    ) by {
        lemma_group_of_step(s, i, group_unique(gv[g]));
    }
    assert forall|k: int| 0 <= k < next.len() && is_identified(#[trigger] next[k]) implies exists|
        g: int,
    |
        0 <= g < gv.len() && group_unique(#[trigger] gv[g])
            == next[k].device_machine_identification->Some_0.machine_identification_unique by {
        assert(prefix[k] == next[k]);
    }
}

proof fn lemma_extend_existing(
    s: Seq<DeviceIdentification>,
    i: int,
    gv: Seq<Seq<DeviceIdentificationIdentified>>,
    j: int,
)
    requires
        0 <= i < s.len(),
        is_grouping(s.subrange(0, i), gv),
        is_identified(s[i]),
        0 <= j < gv.len(),
        group_unique(gv[j]) == s[i].device_machine_identification->Some_0.machine_identification_unique,
    ensures
        is_grouping(s.subrange(0, i + 1), gv.update(j, gv[j].push(to_identified(s[i])))),
{
    let prefix = s.subrange(0, i);
    let next = s.subrange(0, i + 1);
    let u = s[i].device_machine_identification->Some_0.machine_identification_unique;
    let nv = gv.update(j, gv[j].push(to_identified(s[i])));
    assert forall|g: int| 0 <= g < nv.len() implies group_unique(#[trigger] nv[g]) == group_unique(
        gv[g],
    ) by {
        if g == j {
            assert(nv[g][0] == gv[g][0]);
        }
    }
    assert forall|g: int| 0 <= g < nv.len() implies #[trigger] nv[g] == group_of(
        next,
        group_unique(nv[g]),
    ) by {
        lemma_group_of_step(s, i, group_unique(gv[g]));
        if g != j {
            assert(group_unique(gv[g]) != group_unique(gv[j]));
        }
    }
    assert forall|g1: int, g2: int|
        0 <= g1 < nv.len() && 0 <= g2 < nv.len() && g1 != g2 implies group_unique(
        #[trigger] nv[g1],
    ) != group_unique(#[trigger] nv[g2]) by {
        assert(group_unique(nv[g1]) == group_unique(gv[g1]));
        assert(group_unique(nv[g2]) == group_unique(gv[g2]));
    }
    assert forall|k: int| 0 <= k < next.len() && is_identified(#[trigger] next[k]) implies exists|
        g: int,
    |
        0 <= g < nv.len() && group_unique(#[trigger] nv[g])
            == next[k].device_machine_identification->Some_0.machine_identification_unique by {
        if k < i {
            assert(prefix[k] == next[k]);
            let g = choose|g: int|
                0 <= g < gv.len() && group_unique(#[trigger] gv[g])
                    == prefix[k].device_machine_identification->Some_0.machine_identification_unique;
            assert(group_unique(nv[g]) == group_unique(gv[g]));
        } else {
            assert(group_unique(nv[j]) == group_unique(gv[j]));
        }
    }
}

proof fn lemma_extend_new(
    s: Seq<DeviceIdentification>,
    i: int,
    gv: Seq<Seq<DeviceIdentificationIdentified>>,
)
    requires
        0 <= i < s.len(),
        is_grouping(s.subrange(0, i), gv),
        is_identified(s[i]),
        forall|g: int|
            0 <= g < gv.len() ==> group_unique(#[trigger] gv[g])
                != s[i].device_machine_identification->Some_0.machine_identification_unique,
    ensures
        is_grouping(s.subrange(0, i + 1), gv.push(seq![to_identified(s[i])])),
{
    let prefix = s.subrange(0, i);
    let next = s.subrange(0, i + 1);
    let u = s[i].device_machine_identification->Some_0.machine_identification_unique;
    let item = to_identified(s[i]);
    let nv = gv.push(seq![item]);
    assert(group_unique(nv[gv.len() as int]) == u);
    if group_of(prefix, u).len() > 0 {
        lemma_group_of_witness(prefix, u);
        let k = choose|k: int|
            0 <= k < prefix.len() && is_identified(#[trigger] prefix[k])
                && prefix[k].device_machine_identification->Some_0.machine_identification_unique == u;
        assert(false);
    }
    assert forall|g: int| 0 <= g < nv.len() implies #[trigger] nv[g] == group_of(
        next,
        group_unique(nv[g]),
    ) by {
        lemma_group_of_step(s, i, group_unique(nv[g]));
        if g == gv.len() {
            assert(group_of(prefix, u).push(item) =~= seq![item]);
        }
    }
    assert forall|k: int| 0 <= k < next.len() && is_identified(#[trigger] next[k]) implies exists|
        g: int,
    |
        0 <= g < nv.len() && group_unique(#[trigger] nv[g])
            == next[k].device_machine_identification->Some_0.machine_identification_unique by {
        if k < i {
            assert(prefix[k] == next[k]);
            let g = choose|g: int|
                0 <= g < gv.len() && group_unique(#[trigger] gv[g])
                    == prefix[k].device_machine_identification->Some_0.machine_identification_unique;
            assert(nv[g] == gv[g]);
        } else {
            assert(nv[gv.len() as int] == seq![item]);
        }
    }
}

/// Splits the devices of a bus into groups of identified devices that share a
/// machine, and a list of the devices that are not identified.
pub fn group_devices_by_identification(device_identifications: &Vec<DeviceIdentification>) -> (r:
    DeviceGroupingResult)
    ensures
        is_grouping(device_identifications@, r.groups_view()),
        r.groups_view().map_values(|g: Seq<DeviceIdentificationIdentified>| group_unique(g))
            == machine_order(device_identifications@),
        r.unidentified_devices@ == unidentified_of(device_identifications@),
{
    let ghost s = device_identifications@;
    let mut device_groups: Vec<Vec<DeviceIdentificationIdentified>> = Vec::new();
    let mut unidentified_devices: Vec<DeviceIdentification> = Vec::new();
    let mut i: usize = 0;
    while i < device_identifications.len()
        invariant
            s == device_identifications@,
            0 <= i <= s.len(),
            is_grouping(
                s.subrange(0, i as int),
                device_groups@.map_values(|g: Vec<DeviceIdentificationIdentified>| g@),
            ),
            unidentified_devices@ == unidentified_of(s.subrange(0, i as int)),
            device_groups@.map_values(|g: Vec<DeviceIdentificationIdentified>| g@).map_values(
                |g: Seq<DeviceIdentificationIdentified>| group_unique(g),
            ) == machine_order(s.subrange(0, i as int)),
        decreases s.len() - i,
    {
        let ghost gv = device_groups@.map_values(|g: Vec<DeviceIdentificationIdentified>| g@);
        proof {
            lemma_unidentified_step(s, i as int);
        }
        let d = &device_identifications[i];
        let tagged = match d.device_machine_identification {
            Some(m) => m.is_valid(),
            None => false,
        };
        if !tagged {
            unidentified_devices.push(d.clone());
            proof {
                lemma_extend_unidentified(s, i as int, gv);
                assert(s.subrange(0, i as int + 1).drop_last() =~= s.subrange(0, i as int));
            }
        } else {
            let m = d.device_machine_identification.unwrap();
            let u = m.machine_identification_unique;
            let mut found = false;
            let mut j: usize = 0;
            while j < device_groups.len()
                invariant
                    gv == device_groups@.map_values(|g: Vec<DeviceIdentificationIdentified>| g@),
                    0 <= j <= gv.len(),
                    forall|g: int| 0 <= g < gv.len() ==> #[trigger] gv[g].len() > 0,
                    !found ==> forall|g: int| 0 <= g < j ==> group_unique(#[trigger] gv[g]) != u,
                    found ==> j < gv.len() && group_unique(gv[j as int]) == u,
                ensures
                    !found ==> forall|g: int| 0 <= g < gv.len() ==> group_unique(#[trigger] gv[g]) != u,
                    found ==> j < gv.len() && group_unique(gv[j as int]) == u,
                decreases gv.len() - j,
            {
                assert(gv[j as int] == device_groups@[j as int]@);
                if device_groups[j][0].device_machine_identification.machine_identification_unique
                    == u {
                    found = true;
                    break;
                }
                j += 1;
            }
            let item = DeviceIdentificationIdentified {
                device_machine_identification: m,
                device_hardware_identification: d.device_hardware_identification.clone(),
            };
            assert(item == to_identified(s[i as int]));
            if found {
                let mut group = device_groups.remove(j);
                group.push(item);
                device_groups.insert(j, group);
                proof {
                    lemma_extend_existing(s, i as int, gv, j as int);
                    let nv = device_groups@.map_values(|g: Vec<DeviceIdentificationIdentified>| g@);
                    assert(nv =~= gv.update(j as int, gv[j as int].push(item)));
                    let order = gv.map_values(|g: Seq<DeviceIdentificationIdentified>| group_unique(g));
                    assert(s.subrange(0, i as int + 1).drop_last() =~= s.subrange(0, i as int));
                    assert(order[j as int] == u);
                    assert(order.contains(u));
                    assert(nv[j as int][0] == gv[j as int][0]);
                    assert(nv.map_values(|g: Seq<DeviceIdentificationIdentified>| group_unique(g))
                        =~= order);
                }
            } else {
                let mut group = Vec::new();
                group.push(item);
                device_groups.push(group);
                proof {
                    lemma_extend_new(s, i as int, gv);
                    let nv = device_groups@.map_values(|g: Vec<DeviceIdentificationIdentified>| g@);
                    assert(nv =~= gv.push(seq![item]));
                    let order = gv.map_values(|g: Seq<DeviceIdentificationIdentified>| group_unique(g));
                    assert(s.subrange(0, i as int + 1).drop_last() =~= s.subrange(0, i as int));
                    assert(!order.contains(u)) by {
                        if order.contains(u) {
                            let x = choose|x: int| 0 <= x < order.len() && order[x] == u;
                            assert(group_unique(gv[x]) == u);
                        }
                    }
                    assert(nv.map_values(|g: Seq<DeviceIdentificationIdentified>| group_unique(g))
                        =~= order.push(u));
                }
            }
        }
        i += 1;
    }
    assert(s.subrange(0, s.len() as int) =~= s);
    DeviceGroupingResult { device_groups, unidentified_devices }
}

/// Every device of a group produced by the grouping belongs to the group's
/// machine.
pub proof fn lemma_groups_share_machine(
    s: Seq<DeviceIdentification>,
    groups: Seq<Seq<DeviceIdentificationIdentified>>,
)
    requires
        is_grouping(s, groups),
    ensures
        forall|g: int, k: int|
            0 <= g < groups.len() && 0 <= k < groups[g].len() ==> unique_of(#[trigger] groups[g][k])
                == group_unique(groups[g]),
{
    assert forall|g: int, k: int| 0 <= g < groups.len() && 0 <= k < groups[g].len() implies unique_of(
        #[trigger] groups[g][k],
    ) == group_unique(groups[g]) by {
        lemma_group_of_members(s, group_unique(groups[g]));
    }
}

proof fn lemma_group_of_members(s: Seq<DeviceIdentification>, u: MachineIdentificationUnique)
    ensures
        forall|k: int| 0 <= k < group_of(s, u).len() ==> unique_of(#[trigger] group_of(s, u)[k]) == u,
    decreases s.len(),
{
    if s.len() > 0 {
        lemma_group_of_members(s.drop_last(), u);
        let rest = group_of(s.drop_last(), u);
        assert forall|k: int| 0 <= k < group_of(s, u).len() implies unique_of(
            #[trigger] group_of(s, u)[k],
        ) == u by {
            if k < rest.len() {
                assert(group_of(s, u)[k] == rest[k]);
            }
        }
    }
}

/// A machine is built only from a group whose devices all carry its machine
/// and whose roles are pairwise distinct.
pub proof fn lemma_built_groups_consistent(
    group: Seq<DeviceIdentificationIdentified>,
    identities: Seq<SubDeviceIdentityTuple>,
    devices: Seq<EthercatDevice>,
)
    requires
        machine_outcome(group, identities, devices) is Ok,
    ensures
        forall|k: int| 0 <= k < group.len() ==> unique_of(#[trigger] group[k]) == group_unique(group),
        crate::machines::roles_distinct(group),
{
}

/// The devices of a bus in bus order, each with the tag that its
/// non-volatile memory yielded; none where reading it failed or where the tag
/// is not valid (some identification word is zero).
pub fn device_identifications_from_reads(
    reads: &Vec<Result<DeviceMachineIdentification, ControlError>>,
) -> (r: Vec<DeviceIdentification>)
    ensures
        r@.len() == reads@.len(),
        forall|i: int|
            0 <= i < reads@.len() ==> #[trigger] r@[i] == (DeviceIdentification {
                device_machine_identification: match reads@[i] {
                    Ok(m) => if m.valid() {
                        Some(m)
                    } else {
                        None
                    },
                    Err(_) => None,
                },
                device_hardware_identification: DeviceHardwareIdentification::Ethercat(
                    DeviceHardwareIdentificationEthercat { subdevice_index: i as usize },
                ),
            }),
{
    let mut out: Vec<DeviceIdentification> = Vec::new();
    let mut i: usize = 0;
    while i < reads.len()
        invariant
            0 <= i <= reads@.len(),
            out@.len() == i,
            forall|k: int|
                0 <= k < i ==> #[trigger] out@[k] == (DeviceIdentification {
                    device_machine_identification: match reads@[k] {
                        Ok(m) => if m.valid() {
                            Some(m)
                        } else {
                            None
                        },
                        Err(_) => None,
                    },
                    device_hardware_identification: DeviceHardwareIdentification::Ethercat(
                        DeviceHardwareIdentificationEthercat { subdevice_index: k as usize },
                    ),
                }),
        decreases reads@.len() - i,
    {
        let tag = match &reads[i] {
            Ok(m) => if m.is_valid() {
                Some(*m)
            } else {
                None
            },
            Err(_) => None,
        };
        out.push(
            DeviceIdentification {
                device_machine_identification: tag,
                device_hardware_identification: DeviceHardwareIdentification::Ethercat(
                    DeviceHardwareIdentificationEthercat { subdevice_index: i },
                ),
            },
        );
        i += 1;
    }
    out
}

/// What the control plane learns of one machine group: its machine and, when
/// the machine could not be built, why.
#[derive(Debug, Clone, Copy, PartialEq, Eq, Structural)]
pub struct MachineObj {
    pub machine_identification_unique: MachineIdentificationUnique,
    pub error: Option<ControlError>,
}

/// The report for one group, built against the device table `devices`.
pub open spec fn obj_of(
    group: Seq<DeviceIdentificationIdentified>,
    identities: Seq<SubDeviceIdentityTuple>,
    devices: Seq<EthercatDevice>,
) -> MachineObj {
    MachineObj {
        machine_identification_unique: group_unique(group),
        error: match machine_outcome(group, identities, devices) {
            Ok(_) => None,
            Err(e) => Some(e),
        },
    }
}

/// The device table after the machines of the first `n` groups were built
/// in order: each successful build claims its driver.
pub open spec fn devices_after_builds(
    groups: Seq<Seq<DeviceIdentificationIdentified>>,
    identities: Seq<SubDeviceIdentityTuple>,
    devices: Seq<EthercatDevice>,
    n: int,
) -> Seq<EthercatDevice>
    decreases n,
{
    if n <= 0 {
        devices
    } else {
        let prev = devices_after_builds(groups, identities, devices, n - 1);
        match machine_outcome(groups[n - 1], identities, prev) {
            Ok(idx) => prev.update(idx as int, prev[idx as int].with_used(true)),
            Err(_) => prev,
        }
    }
}

/// The machines built from the first `n` groups, in order: one freshly
/// built machine for each group whose build succeeded.
pub open spec fn machines_built(
    groups: Seq<Seq<DeviceIdentificationIdentified>>,
    identities: Seq<SubDeviceIdentityTuple>,
    devices: Seq<EthercatDevice>,
    now: u64,
    n: int,
) -> Seq<TestEL2008MachineView>
    decreases n,
{
    if n <= 0 {
        Seq::empty()
    } else {
        let prev = machines_built(groups, identities, devices, now, n - 1);
        match machine_outcome(
            groups[n - 1],
            identities,
            devices_after_builds(groups, identities, devices, n - 1),
        ) {
            Ok(idx) => prev.push(initial_view(group_unique(groups[n - 1]), idx, now)),
            Err(_) => prev,
        }
    }
}

/// Builds a machine for each group, in order, claiming devices in the device
/// table, and reports each group's machine with the error that stopped it.
/// A driver that an earlier group claimed cannot be claimed again.
pub fn set_ethercat_devices(
    device_groups: &Vec<Vec<DeviceIdentificationIdentified>>,
    subdevice_identities: &Vec<SubDeviceIdentityTuple>,
    devices: &mut Vec<EthercatDevice>,
    now_ns: u64,
) -> (r: (Vec<TestEL2008Machine>, Vec<MachineObj>))
    requires
        forall|g: int| 0 <= g < device_groups@.len() ==> #[trigger] device_groups@[g]@.len() > 0,
    ensures
        r.1@.len() == device_groups@.len(),
        forall|g: int|
            0 <= g < device_groups@.len() ==> #[trigger] r.1@[g] == obj_of(
                device_groups@[g]@,
                subdevice_identities@,
                devices_after_builds(
                    device_groups@.map_values(|x: Vec<DeviceIdentificationIdentified>| x@),
                    subdevice_identities@,
                    old(devices)@,
                    g,
                ),
            ),
        r.0@.map_values(|m: TestEL2008Machine| m@) == machines_built(
            device_groups@.map_values(|x: Vec<DeviceIdentificationIdentified>| x@),
            subdevice_identities@,
            old(devices)@,
            now_ns,
            device_groups@.len() as int,
        ),
        forall|k: int| 0 <= k < r.0@.len() ==> (#[trigger] r.0@[k]).wf(),
        final(devices)@ == devices_after_builds(
            device_groups@.map_values(|x: Vec<DeviceIdentificationIdentified>| x@),
            subdevice_identities@,
            old(devices)@,
            device_groups@.len() as int,
        ),
{
    let ghost d0 = devices@;
    let ghost gs = device_groups@.map_values(|g: Vec<DeviceIdentificationIdentified>| g@);
    let mut machines: Vec<TestEL2008Machine> = Vec::new();
    let mut objs: Vec<MachineObj> = Vec::new();
    let mut gi: usize = 0;
    while gi < device_groups.len()
        invariant
            gs == device_groups@.map_values(|g: Vec<DeviceIdentificationIdentified>| g@),
            forall|g: int| 0 <= g < device_groups@.len() ==> #[trigger] device_groups@[g]@.len() > 0,
            0 <= gi <= device_groups@.len(),
            objs@.len() == gi,
            forall|g: int|
                0 <= g < gi ==> #[trigger] objs@[g] == obj_of(
                    device_groups@[g]@,
                    subdevice_identities@,
                    devices_after_builds(gs, subdevice_identities@, d0, g),
                ),
            machines@.map_values(|m: TestEL2008Machine| m@) == machines_built(
                gs,
                subdevice_identities@,
                d0,
                now_ns,
                gi as int,
            ),
            forall|k: int| 0 <= k < machines@.len() ==> (#[trigger] machines@[k]).wf(),
            devices@ == devices_after_builds(gs, subdevice_identities@, d0, gi as int),
        decreases device_groups@.len() - gi,
    {
        let group = &device_groups[gi];
        assert(gs[gi as int] == group@);
        let unique = group[0].device_machine_identification.machine_identification_unique;
        let ghost machines_before = machines@;
        match new_machine(group, subdevice_identities, devices, now_ns) {
            Ok(machine) => {
                machines.push(machine);
                objs.push(MachineObj { machine_identification_unique: unique, error: None });
            },
            Err(e) => {
                objs.push(MachineObj { machine_identification_unique: unique, error: Some(e) });
            },
        }
        proof {
            assert(devices@ == devices_after_builds(gs, subdevice_identities@, d0, gi + 1));
            assert(machines@.map_values(|m: TestEL2008Machine| m@) =~= machines_built(
                gs,
                subdevice_identities@,
                d0,
                now_ns,
                gi + 1,
            ));
        }
        gi += 1;
    }
    (machines, objs)
}

} // verus!
