use vstd::prelude::*;

use crate::bits::{bit_len, bits_kept_from, encodes};
use crate::devices::EthercatDevice;
use crate::error::ControlError;
use crate::test_el2008_machine::{
    lemma_outputs_applied_keeps_claims, outputs_applied, Mutation, TestEL2008Machine,
};

verus! {

/// Consecutive failed bus exchanges after which the process exits so that a
/// supervisor restarts it.
pub const TXRX_FAILURE_LIMIT: u32 = 20;

/// Exit code of the process when a cycle fails.
pub const EXIT_LOOP_ERROR: i32 = 1;

/// Exit code of the process when the bus connection is lost.
pub const EXIT_CONNECTION_LOST: i32 = 2;

/// The failure counter after a bus exchange: reset on success, one more
/// (saturating) on failure.
pub open spec fn next_failures(count: u32, ok: bool) -> u32 {
    if ok {
        0
    } else if count == u32::MAX {
        count
    } else {
        (count + 1) as u32
    }
}

/// The failure counter after a series of exchange outcomes.
pub open spec fn failures_after(start: u32, results: Seq<bool>) -> u32
    decreases results.len(),
{
    if results.len() == 0 {
        start
    } else {
        next_failures(failures_after(start, results.drop_last()), results.last())
    }
}

/// `n` failed exchanges in a row.
pub open spec fn failures(n: nat) -> Seq<bool> {
    Seq::new(n, |i: int| false)
}

/// Updates the count of consecutive failed bus exchanges.
pub fn update_failure_counter(consecutive_txrx_failures: u32, ok: bool) -> (r: u32)
    ensures
        r == next_failures(consecutive_txrx_failures, ok),
{
    if ok {
        0
    } else {
        consecutive_txrx_failures.saturating_add(1)
    }
}

/// Whether the count of consecutive failures has reached the limit.
pub fn watchdog_tripped(consecutive_txrx_failures: u32) -> (r: bool)
    ensures
        r == (consecutive_txrx_failures >= TXRX_FAILURE_LIMIT),
{
    consecutive_txrx_failures >= TXRX_FAILURE_LIMIT
}

/// Starting from no failures, `n` failed exchanges in a row (up to the
/// limit) leave the counter at `n`; the watchdog trips at the twentieth and
/// not before.
pub proof fn lemma_watchdog_counts(n: nat)
    requires
        n <= TXRX_FAILURE_LIMIT,
    ensures
        failures_after(0, failures(n)) == n,
        (failures_after(0, failures(n)) >= TXRX_FAILURE_LIMIT) == (n == TXRX_FAILURE_LIMIT),
    decreases n,
{
    if n > 0 {
        assert(failures(n).drop_last() =~= failures((n - 1) as nat));
        lemma_watchdog_counts((n - 1) as nat);
    }
}

/// A successful exchange resets the counter, whatever came before it; so
/// nineteen failures followed by a success leave it at zero.
pub proof fn lemma_watchdog_success_resets(start: u32, results: Seq<bool>)
    requires
        results.len() > 0,
        results.last(),
    ensures
        failures_after(start, results) == 0,
{
}

/// Every claimed driver's input buffer holds its input image.
pub open spec fn inputs_fit(devices: Seq<EthercatDevice>, inputs: Seq<Vec<u8>>) -> bool {
    forall|i: int|
        0 <= i < devices.len() && (#[trigger] devices[i]).used() ==> devices[i].input_len_spec()
            <= bit_len(inputs[i]@)
}

/// Every claimed driver's output buffer holds its output image.
pub open spec fn outputs_fit(devices: Seq<EthercatDevice>, outputs: Seq<Vec<u8>>) -> bool {
    forall|i: int|
        0 <= i < devices.len() && (#[trigger] devices[i]).used() ==> devices[i].output_len_spec()
            <= bit_len(outputs[i]@)
}

/// The buffers after the output copy: each claimed driver's image is encoded
/// into its buffer, which keeps its other bits; other buffers are untouched.
pub open spec fn outputs_copied(
    devices: Seq<EthercatDevice>,
    before: Seq<Vec<u8>>,
    after: Seq<Vec<u8>>,
) -> bool {
    &&& after.len() == before.len()
    &&& forall|i: int|
        0 <= i < devices.len() && (#[trigger] devices[i]).used() ==> encodes(
            after[i]@,
            devices[i].output_image(),
        ) && bits_kept_from(before[i]@, after[i]@, devices[i].output_len_spec() as int)
    &&& forall|i: int| 0 <= i < devices.len() && !(#[trigger] devices[i]).used() ==> after[i] == before[i]
}

/// Hands each claimed driver, in ascending subdevice order, the raw input of
/// its subdevice, then runs its post-processing; unclaimed drivers are
/// skipped. Fails with `ShortBuffer` when a claimed driver's input buffer is
/// too short.
pub fn copy_ethercat_inputs(devices: &mut Vec<EthercatDevice>, inputs: &Vec<Vec<u8>>) -> (r: Result<
    (),
    ControlError,
>)
    requires
        old(devices)@.len() == inputs@.len(),
    ensures
        (r is Ok) <==> inputs_fit(old(devices)@, inputs@),
        r is Err ==> r == Err::<(), ControlError>(ControlError::ShortBuffer),
        final(devices)@ == old(devices)@,
{
    let mut i: usize = 0;
    while i < devices.len()
        invariant
            devices@ == old(devices)@,
            devices@.len() == inputs@.len(),
            0 <= i <= devices@.len(),
            forall|k: int|
                0 <= k < i && (#[trigger] devices@[k]).used() ==> devices@[k].input_len_spec()
                    <= bit_len(inputs@[k]@),
        decreases devices@.len() - i,
    {
        if devices[i].is_used() {
            let mut d = devices.remove(i);
            let res = d.input(&inputs[i]);
            let post = d.input_post_process();
            devices.insert(i, d);
            assert(devices@ =~= old(devices)@);
            if res.is_err() {
                return Err(ControlError::ShortBuffer);
            }
            if post.is_err() {
                return Err(ControlError::PostProcessFailed);
            }
        }
        i += 1;
    }
    Ok(())
}

/// Runs each claimed driver's pre-processing, in ascending subdevice order,
/// then encodes its output image into the raw output of its subdevice;
/// unclaimed drivers are skipped. Fails with `ShortBuffer` when a claimed
/// driver's output buffer is too short.
pub fn copy_ethercat_outputs(devices: &mut Vec<EthercatDevice>, outputs: &mut Vec<Vec<u8>>) -> (r:
    Result<(), ControlError>)
    requires
        old(devices)@.len() == old(outputs)@.len(),
    ensures
        (r is Ok) <==> outputs_fit(old(devices)@, old(outputs)@),
        r is Err ==> r == Err::<(), ControlError>(ControlError::ShortBuffer),
        final(devices)@ == old(devices)@,
        final(outputs)@.len() == old(outputs)@.len(),
        forall|i: int|
            0 <= i < old(devices)@.len() && !(#[trigger] old(devices)@[i]).used() ==> final(outputs)@[i] == old(outputs)@[i],
        r is Ok ==> outputs_copied(old(devices)@, old(outputs)@, final(outputs)@),
{
    let ghost before = outputs@;
    let mut i: usize = 0;
    while i < devices.len()
        invariant
            devices@ == old(devices)@,
            devices@.len() == before.len(),
            before == old(outputs)@,
            outputs@.len() == before.len(),
            0 <= i <= devices@.len(),
            forall|k: int|
                0 <= k < i && (#[trigger] devices@[k]).used() ==> devices@[k].output_len_spec()
                    <= bit_len(before[k]@),
            forall|k: int|
                0 <= k < i && (#[trigger] devices@[k]).used() ==> encodes(
                    outputs@[k]@,
                    devices@[k].output_image(),
                ) && bits_kept_from(before[k]@, outputs@[k]@, devices@[k].output_len_spec() as int),
            forall|k: int| 0 <= k < i && !(#[trigger] devices@[k]).used() ==> outputs@[k] == before[k],
            forall|k: int| i <= k < before.len() ==> #[trigger] outputs@[k] == before[k],
        decreases devices@.len() - i,
    {
        if devices[i].is_used() {
            let ghost pre_out = outputs@;
            let mut d = devices.remove(i);
            let pre = d.output_pre_process();
            let mut buf = outputs.remove(i);
            assert(buf@ == before[i as int]@);
            let res = d.output(&mut buf);
            outputs.insert(i, buf);
            devices.insert(i, d);
            assert(devices@ =~= old(devices)@);
            assert(outputs@ =~= pre_out.update(i as int, outputs@[i as int]));
            if pre.is_err() {
                return Err(ControlError::PostProcessFailed);
            }
            if res.is_err() {
                assert(!outputs_fit(old(devices)@, before) && devices@[i as int].used());
                return Err(ControlError::ShortBuffer);
            }
        }
        i += 1;
    }
    assert(outputs_copied(old(devices)@, before, outputs@));
    Ok(())
}

/// Both device tables hold the same kinds of driver with the same claim flags.
pub open spec fn claims_kept(before: Seq<EthercatDevice>, after: Seq<EthercatDevice>) -> bool {
    &&& after.len() == before.len()
    &&& forall|j: int|
        0 <= j < before.len() ==> (#[trigger] after[j]).used() == before[j].used() && (
        after[j] is EL2008) == (before[j] is EL2008) && (after[j] is EL2004) == (
        before[j] is EL2004)
}

/// The table with the EL2008 at `idx`, if there is one, showing `leds`.
pub open spec fn apply_leds(devices: Seq<EthercatDevice>, idx: int, leds: Seq<bool>) -> Seq<
    EthercatDevice,
> {
    if 0 <= idx < devices.len() && devices[idx] is EL2008 {
        devices.update(idx, devices[idx].with_output_image(leds))
    } else {
        devices
    }
}

/// The device table after the first `n` machines acted in order: each one
/// that wrote its outputs in this cycle shows them on its EL2008.
pub open spec fn devices_after_acts(
    devices: Seq<EthercatDevice>,
    machines: Seq<TestEL2008Machine>,
    messages: Seq<Option<Mutation>>,
    now: u64,
    n: int,
) -> Seq<EthercatDevice>
    decreases n,
{
    if n <= 0 {
        devices
    } else {
        let prev = devices_after_acts(devices, machines, messages, now, n - 1);
        let m = machines[n - 1];
        if m@.act_writes(messages[n - 1], now) {
            apply_leds(prev, m.el2008_index as int, m@.acted(messages[n - 1], now).led_on)
        } else {
            prev
        }
    }
}

proof fn lemma_outputs_applied_is_apply_leds(
    before: Seq<EthercatDevice>,
    after: Seq<EthercatDevice>,
    idx: int,
    leds: Seq<bool>,
)
    requires
        outputs_applied(before, after, idx, leds),
    ensures
        after == apply_leds(before, idx, leds),
{
    assert(after =~= apply_leds(before, idx, leds));
}

/// Runs one cycle of every machine, in insertion order, each with the request
/// taken from its inbox. Returns, for each machine, whether a state event is
/// due. Machines write only the output images of their drivers: no driver
/// changes kind or claim flag.
pub fn execute_machines(
    machines: &mut Vec<TestEL2008Machine>,
    messages: &Vec<Option<Mutation>>,
    devices: &mut Vec<EthercatDevice>,
    now_ns: u64,
) -> (r: Vec<bool>)
    requires
        old(machines)@.len() == messages@.len(),
        forall|k: int| 0 <= k < old(machines)@.len() ==> (#[trigger] old(machines)@[k]).wf(),
    ensures
        final(machines)@.len() == old(machines)@.len(),
        r@.len() == old(machines)@.len(),
        forall|k: int|
            0 <= k < old(machines)@.len() ==> (#[trigger] final(machines)@[k]).wf() && final(machines)@[k]@ == old(machines)@[k]@.acted(messages@[k], now_ns),
        forall|k: int|
            0 <= k < old(machines)@.len() ==> #[trigger] r@[k] == old(machines)@[k]@.act_emits(
                messages@[k],
                now_ns,
            ),
        claims_kept(old(devices)@, final(devices)@),
        final(devices)@ == devices_after_acts(
            old(devices)@,
            old(machines)@,
            messages@,
            now_ns,
            old(machines)@.len() as int,
        ),
{
    let mut emits: Vec<bool> = Vec::new();
    let mut k: usize = 0;
    while k < machines.len()
        invariant
            machines@.len() == old(machines)@.len(),
            machines@.len() == messages@.len(),
            0 <= k <= machines@.len(),
            emits@.len() == k,
            forall|a: int|
                0 <= a < k ==> (#[trigger] machines@[a]).wf() && machines@[a]@ == old(machines)@[a]@.acted(messages@[a], now_ns),
            forall|a: int|
                0 <= a < k ==> #[trigger] emits@[a] == old(machines)@[a]@.act_emits(messages@[a], now_ns),
            forall|a: int| k <= a < machines@.len() ==> #[trigger] machines@[a] == old(machines)@[a],
            forall|a: int| 0 <= a < old(machines)@.len() ==> (#[trigger] old(machines)@[a]).wf(),
            claims_kept(old(devices)@, devices@),
            devices@ == devices_after_acts(old(devices)@, old(machines)@, messages@, now_ns, k as int),
        decreases machines@.len() - k,
    {
        let ghost d0 = devices@;
        let ghost ms = machines@;
        let mut m = machines.remove(k);
        let message = messages[k];
        let ghost m0 = m;
        let emit = m.act(now_ns, message, devices);
        proof {
            assert(m0 == old(machines)@[k as int]);
            if m0@.act_writes(message, now_ns) {
                lemma_outputs_applied_keeps_claims(d0, devices@, m0.el2008_index as int, m.led_on@);
                lemma_outputs_applied_is_apply_leds(d0, devices@, m0.el2008_index as int, m.led_on@);
            }
        }
        machines.insert(k, m);
        assert(machines@ =~= ms.update(k as int, m));
        emits.push(emit);
        k += 1;
    }
    emits
}

/// The machines of a list.
pub open spec fn uniques_of(machines: Seq<TestEL2008Machine>) -> Seq<
    crate::machine_identification::MachineIdentificationUnique,
> {
    machines.map_values(|m: TestEL2008Machine| m.machine_identification_unique)
}

/// Some machine of the list is `unique`.
pub open spec fn has_unique(
    machines: Seq<TestEL2008Machine>,
    unique: crate::machine_identification::MachineIdentificationUnique,
) -> bool {
    exists|k: int| 0 <= k < machines.len() && (#[trigger] machines[k]).machine_identification_unique == unique
}

/// The list after adding the new machines in order, each only when no
/// machine of the list, including one added before it, has its id.
pub open spec fn appended_machines(
    machines: Seq<TestEL2008Machine>,
    new_machines: Seq<TestEL2008Machine>,
) -> Seq<TestEL2008Machine>
    decreases new_machines.len(),
{
    if new_machines.len() == 0 {
        machines
    } else {
        let prev = appended_machines(machines, new_machines.drop_last());
        if has_unique(prev, new_machines.last().machine_identification_unique) {
            prev
        } else {
            prev.push(new_machines.last())
        }
    }
}

/// Adds the machines in order, skipping each whose machine is already in the
/// list, including one added by this call: of several new machines with one
/// id, the first is kept.
pub fn add_machines(machines: &mut Vec<TestEL2008Machine>, new_machines: Vec<TestEL2008Machine>)
    ensures
        final(machines)@ == appended_machines(old(machines)@, new_machines@),
{
    let mut incoming = new_machines;
    let ghost all_new = incoming@;
    let ghost base = machines@;
    let total = incoming.len();
    let mut taken: usize = 0;
    assert(all_new.subrange(0, 0) =~= Seq::<TestEL2008Machine>::empty());
    assert(incoming@ =~= all_new.subrange(0, all_new.len() as int));
    while incoming.len() > 0
        invariant
            total == all_new.len(),
            all_new.len() == taken + incoming@.len(),
            all_new == new_machines@,
            base == old(machines)@,
            incoming@ == all_new.subrange(taken as int, all_new.len() as int),
            machines@ == appended_machines(base, all_new.subrange(0, taken as int)),
        decreases incoming@.len(),
    {
        let candidate = incoming.remove(0);
        assert(candidate == all_new[taken as int]);
        let id = candidate.machine_identification_unique;
        let mut exists_already = false;
        let mut a: usize = 0;
        while a < machines.len()
            invariant
                0 <= a <= machines@.len(),
                !exists_already ==> forall|x: int|
                    0 <= x < a ==> (#[trigger] machines@[x]).machine_identification_unique != id,
                exists_already ==> has_unique(machines@, id),
            ensures
                exists_already == has_unique(machines@, id),
            decreases machines@.len() - a,
        {
            if machines[a].machine_identification_unique == id {
                exists_already = true;
                assert(machines@[a as int].machine_identification_unique == id);
                break;
            }
            a += 1;
        }
        if !exists_already {
            machines.push(candidate);
        }
        proof {
            assert(all_new.subrange(0, taken as int + 1).drop_last() =~= all_new.subrange(
                0,
                taken as int,
            ));
            assert(all_new.subrange(0, taken as int + 1).last() == candidate);
        }
        taken += 1;
        assert(incoming@ =~= all_new.subrange(taken as int, all_new.len() as int));
    }
    assert(all_new.subrange(0, total as int) =~= all_new);
}

/// Removes every machine of the list that is `unique_id`, keeping the order
/// of the others.
pub fn delete_machine(
    machines: &mut Vec<TestEL2008Machine>,
    unique_id: crate::machine_identification::MachineIdentificationUnique,
)
    ensures
        final(machines)@ == old(machines)@.filter(
            |m: TestEL2008Machine| m.machine_identification_unique != unique_id,
        ),
{
    let count = machines.len();
    let ghost orig = machines@;
    let ghost pred = |m: TestEL2008Machine| m.machine_identification_unique != unique_id;
    let mut rest: Vec<TestEL2008Machine> = Vec::new();
    std::mem::swap(machines, &mut rest);
    let mut kept: Vec<TestEL2008Machine> = Vec::new();
    let mut n: usize = 0;
    proof {
        reveal(Seq::filter);
        assert(orig.subrange(0, 0) =~= Seq::<TestEL2008Machine>::empty());
        assert(rest@ =~= orig.subrange(0, orig.len() as int));
    }
    while rest.len() > 0
        invariant
            0 <= n <= orig.len(),
            orig.len() == count,
            pred == (|m: TestEL2008Machine| m.machine_identification_unique != unique_id),
            rest@ == orig.subrange(n as int, orig.len() as int),
            kept@ == orig.subrange(0, n as int).filter(pred),
        decreases rest@.len(),
    {
        let m = rest.remove(0);
        proof {
            reveal(Seq::filter);
            assert(orig.subrange(0, n as int + 1).drop_last() =~= orig.subrange(0, n as int));
            assert(m == orig[n as int]);
            assert(orig.subrange(0, n as int + 1).filter(pred) == if pred(m) {
                kept@.push(m)
            } else {
                kept@
            });
        }
        if m.machine_identification_unique != unique_id {
            kept.push(m);
        }
        n += 1;
        assert(rest@ =~= orig.subrange(n as int, orig.len() as int));
    }
    assert(orig.subrange(0, orig.len() as int) =~= orig);
    *machines = kept;
}

/// How a cycle ended.
#[derive(Debug)]
pub enum CycleOutcome {
    /// The cycle ran; for each machine, whether a state event is due.
    Completed(Vec<bool>),
    /// The bus exchange failed too many times in a row.
    ConnectionLost,
}

impl CycleOutcome {
    /// The exit code of the process after this outcome, if it must exit.
    pub fn exit_code(&self) -> (r: Option<i32>)
        ensures
            self is ConnectionLost ==> r == Some(EXIT_CONNECTION_LOST),
            self is Completed ==> r is None,
    {
        match self {
            CycleOutcome::Completed(_) => None,
            CycleOutcome::ConnectionLost => Some(EXIT_CONNECTION_LOST),
        }
    }
}

/// The cycle's exchange succeeded but a claimed driver's input does not fit.
pub open spec fn input_error(txrx_ok: Option<bool>, devices: Seq<EthercatDevice>, inputs: Seq<Vec<u8>>) -> bool {
    txrx_ok == Some(true) && !inputs_fit(devices, inputs)
}

/// The cycle's exchange failed and the watchdog trips.
pub open spec fn connection_lost(txrx_ok: Option<bool>, failures: u32) -> bool {
    txrx_ok == Some(false) && next_failures(failures, false) >= TXRX_FAILURE_LIMIT
}

/// One cycle of the real-time loop, after the bus exchange. `txrx_ok` is
/// `None` without an EtherCAT setup, else whether this cycle's exchange
/// succeeded; `inputs` and `outputs` are the raw process data of each
/// subdevice, in bus order.
///
/// With a setup, a successful exchange has the claimed drivers decode their
/// inputs and resets the failure counter; a failed one counts, and at the
/// limit the cycle ends with `ConnectionLost` before any machine acts. Then
/// every machine acts, and with a setup the claimed drivers encode their
/// outputs. A buffer that is too short ends the cycle with `ShortBuffer`.
pub fn loop_once(
    consecutive_txrx_failures: &mut u32,
    txrx_ok: Option<bool>,
    inputs: &Vec<Vec<u8>>,
    outputs: &mut Vec<Vec<u8>>,
    devices: &mut Vec<EthercatDevice>,
    machines: &mut Vec<TestEL2008Machine>,
    messages: &Vec<Option<Mutation>>,
    now_ns: u64,
) -> (r: Result<CycleOutcome, ControlError>)
    requires
        old(devices)@.len() == inputs@.len(),
        old(devices)@.len() == old(outputs)@.len(),
        old(machines)@.len() == messages@.len(),
        forall|k: int| 0 <= k < old(machines)@.len() ==> (#[trigger] old(machines)@[k]).wf(),
    ensures
        ({
            let in_err = input_error(txrx_ok, old(devices)@, inputs@);
            let lost = connection_lost(txrx_ok, *old(consecutive_txrx_failures));
            let out_err = txrx_ok is Some && !outputs_fit(old(devices)@, old(outputs)@);
            let acted = !in_err && !lost;
            &&& in_err ==> r == Err::<CycleOutcome, ControlError>(ControlError::ShortBuffer)
            &&& !in_err && lost ==> (r is Ok && r->Ok_0 is ConnectionLost)
            &&& acted && out_err ==> r == Err::<CycleOutcome, ControlError>(ControlError::ShortBuffer)
            &&& acted && !out_err ==> (r is Ok && r->Ok_0 is Completed)
            &&& in_err ==> *final(consecutive_txrx_failures) == *old(consecutive_txrx_failures)
            &&& !in_err ==> *final(consecutive_txrx_failures) == match txrx_ok {
                Some(ok) => next_failures(*old(consecutive_txrx_failures), ok),
                None => *old(consecutive_txrx_failures),
            }
            &&& !acted ==> final(machines)@ == old(machines)@
            &&& acted ==> final(machines)@.len() == old(machines)@.len() && forall|k: int|
                0 <= k < old(machines)@.len() ==> (#[trigger] final(machines)@[k]).wf() && final(machines)@[k]@
                    == old(machines)@[k]@.acted(messages@[k], now_ns)
            &&& (r is Ok && r->Ok_0 is Completed) ==> r->Ok_0->Completed_0@.len() == old(machines)@.len() && forall|k: int|
                0 <= k < old(machines)@.len() ==> #[trigger] r->Ok_0->Completed_0@[k] == old(machines)@[k]@.act_emits(messages@[k], now_ns)
            &&& claims_kept(old(devices)@, final(devices)@)
            &&& acted ==> final(devices)@ == devices_after_acts(
                old(devices)@,
                old(machines)@,
                messages@,
                now_ns,
                old(machines)@.len() as int,
            )
            &&& !acted ==> final(devices)@ == old(devices)@
            &&& (r is Ok && txrx_ok is Some && acted) ==> outputs_copied(final(devices)@, old(outputs)@, final(outputs)@)
            &&& !(txrx_ok is Some && acted) ==> final(outputs)@ == old(outputs)@
        }),
{
    if let Some(ok) = txrx_ok {
        if ok {
            copy_ethercat_inputs(devices, inputs)?;
        }
        *consecutive_txrx_failures = update_failure_counter(*consecutive_txrx_failures, ok);
        if watchdog_tripped(*consecutive_txrx_failures) {
            return Ok(CycleOutcome::ConnectionLost);
        }
    }
    let ghost d_before_act = devices@;
    let emits = execute_machines(machines, messages, devices, now_ns);
    if txrx_ok.is_some() {
        let ghost d_after_act = devices@;
        proof {
            assert(d_before_act == old(devices)@);
            assert forall|i: int| 0 <= i < d_after_act.len() implies (#[trigger] d_after_act[i]).used()
                == d_before_act[i].used() && d_after_act[i].output_len_spec()
                == d_before_act[i].output_len_spec() by {
                assert((d_after_act[i] is EL2008) == (d_before_act[i] is EL2008));
            }
            if outputs_fit(d_before_act, outputs@) {
                assert forall|i: int| 0 <= i < d_after_act.len() && (#[trigger] d_after_act[i]).used()
                    implies d_after_act[i].output_len_spec() <= bit_len(outputs@[i]@) by {
                    assert(d_before_act[i].used());
                }
            }
            if outputs_fit(d_after_act, outputs@) {
                assert forall|i: int| 0 <= i < d_before_act.len() && (#[trigger] d_before_act[i]).used()
                    implies d_before_act[i].output_len_spec() <= bit_len(outputs@[i]@) by {
                    assert(d_after_act[i].used());
                }
            }
        }
        copy_ethercat_outputs(devices, outputs)?;
    }
    Ok(CycleOutcome::Completed(emits))
}

} // verus!
