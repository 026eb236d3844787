//! Admission control: decides whether a new upload may be accepted, from
//! the host's resource posture — free disk space, memory headroom, and the
//! health of the network link.

use vstd::prelude::*;

verus! {

/// Why admission was denied.
#[derive(Copy, Clone, Debug, PartialEq, Eq, Structural)]
pub enum DenialReason {
    /// The storage volume lacks the requested space plus the safety margin.
    InsufficientDisk,
    /// Memory headroom is below the contention threshold.
    ResourceContention,
    /// The network link shows too many receive errors.
    ServerUnhealthy,
}

/// The outcome of evaluating a new-upload request.
#[derive(Copy, Clone, Debug, PartialEq, Eq, Structural)]
pub enum AdmissionDecision {
    /// The upload may proceed.
    Approved,
    /// The upload is rejected, with a structured reason.
    Denied(DenialReason),
}

/// Relies on `sysinfo::Disks::new_with_refreshed_list` and the per-disk
/// accessors: each mounted disk as its name's bytes and its available
/// space. The result depends on the machine, so nothing is promised of it.
#[verifier::external_body]
pub(crate) fn disk_list() -> Vec<(Vec<u8>, u64)> {
    let disks = sysinfo::Disks::new_with_refreshed_list();
    disks
        .list()
        .iter()
        .map(|d| (d.name().to_string_lossy().into_owned().into_bytes(), d.available_space()))
        .collect()
}

/// Relies on `sysinfo::System::refresh_memory_specifics`, `total_memory`
/// and `free_memory`: the pair (total, free) in bytes. The result depends
/// on the machine, so nothing is promised of it.
#[verifier::external_body]
pub(crate) fn memory_totals() -> (u64, u64) {
    let mut system = sysinfo::System::new();
    system.refresh_memory_specifics(sysinfo::MemoryRefreshKind::nothing().with_ram());
    (system.total_memory(), system.free_memory())
}

/// Relies on `sysinfo::Networks::new_with_refreshed_list` and
/// `NetworkData::errors_on_received`: one receive-error counter per
/// interface. The result depends on the machine, so nothing is promised of
/// it.
#[verifier::external_body]
pub(crate) fn network_error_counts() -> Vec<u64> {
    let networks = sysinfo::Networks::new_with_refreshed_list();
    networks.list().iter().map(|(_, data)| data.errors_on_received()).collect()
}

/// Whether the first disk carrying `name` offers more than `threshold`
/// bytes; false when no disk carries the name.
pub open spec fn disk_ok(disks: Seq<(Vec<u8>, u64)>, name: Seq<u8>, threshold: u64) -> bool
    decreases disks.len(),
{
    if disks.len() == 0 {
        false
    } else if disks[0].0@ == name {
        disks[0].1 > threshold
    } else {
        disk_ok(disks.drop_first(), name, threshold)
    }
}

/// Finds the configured storage volume in the disk list and checks its
/// available space against the threshold.
pub fn disk_has_capacity(disks: &Vec<(Vec<u8>, u64)>, name: &Vec<u8>, threshold: u64) -> (r: bool)
    ensures
        r == disk_ok(disks@, name@, threshold),
{
    let n = disks.len();
    proof {
        assert(disks@.skip(0) =~= disks@);
    }
    for i in 0..n
        invariant
            n == disks@.len(),
            disk_ok(disks@, name@, threshold) == disk_ok(disks@.skip(i as int), name@, threshold),
    {
        proof {
            assert(disks@.skip(i as int).drop_first() =~= disks@.skip(i + 1));
        }
        if bytes_eq(&disks[i].0, name) {
            return disks[i].1 > threshold;
        }
    }
    false
}

/// Byte-for-byte equality of two vectors.
pub fn bytes_eq(a: &Vec<u8>, b: &Vec<u8>) -> (r: bool)
    ensures
        r == (a@ == b@),
{
    if a.len() != b.len() {
        proof {
            assert(a@ != b@);
        }
        return false;
    }
    let n = a.len();
    for i in 0..n
        invariant
            n == a@.len(),
            n == b@.len(),
            forall|j: int| 0 <= j < i ==> a@[j] == b@[j],
    {
        if a[i] != b[i] {
            return false;
        }
    }
    proof {
        assert(a@ =~= b@);
    }
    true
}

/// The memory check: the used/total ratio reaches the contention
/// percentage. An unreadable total (zero) is not treated as contention.
pub open spec fn mem_contended(total: u64, free: u64, percent: u64) -> bool {
    if total == 0 {
        false
    } else {
        (if free > total {
            0int
        } else {
            total - free
        }) * 100 >= total * percent
    }
}

/// Whether memory headroom has fallen below the contention threshold.
pub fn memory_contended(total: u64, free: u64, percent: u64) -> (r: bool)
    ensures
        r == mem_contended(total, free, percent),
{
    if total == 0 {
        return false;
    }
    let used: u64 = if free > total {
        0
    } else {
        total - free
    };
    match (total as u128).checked_mul(percent as u128) {
        Some(rhs) => (used as u128) * 100 >= rhs,
        None => false,
    }
}

/// The total of the sampled receive-error counters.
pub open spec fn sum_errors(samples: Seq<u64>) -> int
    decreases samples.len(),
{
    if samples.len() == 0 {
        0
    } else {
        sum_errors(samples.drop_last()) + samples.last()
    }
}

proof fn lemma_sum_errors_bound(samples: Seq<u64>)
    ensures
        0 <= sum_errors(samples) <= samples.len() * (u64::MAX as int),
    decreases samples.len(),
{
    if samples.len() > 0 {
        lemma_sum_errors_bound(samples.drop_last());
        assert((samples.len() - 1) * (u64::MAX as int) + (u64::MAX as int) == samples.len() * (
        u64::MAX as int)) by (nonlinear_arith);
    }
}

/// Whether the sampled error counters stay within what is tolerated.
pub fn network_healthy(samples: &Vec<u64>, tolerated: u64) -> (r: bool)
    ensures
        r == (sum_errors(samples@) <= tolerated),
{
    let n = samples.len();
    let mut acc: u128 = 0;
    proof {
        assert(samples@.take(0) =~= Seq::<u64>::empty());
    }
    for i in 0..n
        invariant
            n == samples@.len(),
            acc == sum_errors(samples@.take(i as int)),
            acc <= (i as int) * (u64::MAX as int),
    {
        proof {
            assert(samples@.take(i + 1).drop_last() =~= samples@.take(i as int));
            lemma_sum_errors_bound(samples@.take(i as int));
            assert((i as int) * (u64::MAX as int) + (u64::MAX as int) == (i + 1) * (
            u64::MAX as int)) by (nonlinear_arith);
        }
        acc = acc + (samples[i] as u128);
    }
    proof {
        assert(samples@.take(n as int) =~= samples@);
    }
    acc <= (tolerated as u128)
}

/// Checks the configured storage volume: available space must exceed the
/// allowed threshold. The reading comes from the machine, so only the
/// decision over a given reading is pinned (`disk_ok`).
pub fn get_allocated_disk_space(disk_name: &Vec<u8>, allowed_threshold: u64) -> Option<()> {
    let disks = disk_list();
    if disk_has_capacity(&disks, disk_name, allowed_threshold) {
        Some(())
    } else {
        None
    }
}

/// Checks memory headroom against the contention percentage. The reading
/// comes from the machine, so only the decision over a given reading is
/// pinned (`mem_contended`).
pub fn get_allocated_memory_space(contention_percent: u64) -> Option<()> {
    let (total, free) = memory_totals();
    if memory_contended(total, free, contention_percent) {
        None
    } else {
        Some(())
    }
}

/// Checks the health of the network link over a snapshot of the
/// receive-error counters. The reading comes from the machine, so only the
/// decision over a given reading is pinned (`sum_errors`).
pub fn get_server_condition(tolerated_errors: u64) -> Option<()> {
    let samples = network_error_counts();
    if network_healthy(&samples, tolerated_errors) {
        Some(())
    } else {
        None
    }
}

/// The admission verdict from the three check outcomes, in order: disk,
/// then memory, then network health.
pub open spec fn spec_decide(disk: bool, memory: bool, network: bool) -> AdmissionDecision {
    if !disk {
        AdmissionDecision::Denied(DenialReason::InsufficientDisk)
    } else if !memory {
        AdmissionDecision::Denied(DenialReason::ResourceContention)
    } else if !network {
        AdmissionDecision::Denied(DenialReason::ServerUnhealthy)
    } else {
        AdmissionDecision::Approved
    }
}

/// Renders the verdict from the three check outcomes; the first failing
/// check names the denial reason.
pub fn decide_admission(disk: bool, memory: bool, network: bool) -> (r: AdmissionDecision)
    ensures
        r == spec_decide(disk, memory, network),
{
    if !disk {
        AdmissionDecision::Denied(DenialReason::InsufficientDisk)
    } else if !memory {
        AdmissionDecision::Denied(DenialReason::ResourceContention)
    } else if !network {
        AdmissionDecision::Denied(DenialReason::ServerUnhealthy)
    } else {
        AdmissionDecision::Approved
    }
}

/// The admission check, run once per new upload before any byte is
/// received.
#[derive(Clone, Debug)]
pub struct AdmissionController {
    /// Name of the storage volume whose free space is checked.
    pub disk_name: Vec<u8>,
    /// Extra bytes demanded beyond the requested size.
    pub safety_margin: u64,
    /// Used/total percentage at which memory counts as contended.
    pub contention_percent: u64,
    /// Receive-error total still considered healthy.
    pub tolerated_errors: u64,
}

impl AdmissionController {
    /// A controller with the given thresholds.
    pub fn new(disk_name: Vec<u8>, safety_margin: u64, contention_percent: u64, tolerated_errors: u64) -> (r: Self)
        ensures
            r.disk_name == disk_name,
            r.safety_margin == safety_margin,
            r.contention_percent == contention_percent,
            r.tolerated_errors == tolerated_errors,
    {
        AdmissionController { disk_name, safety_margin, contention_percent, tolerated_errors }
    }

    /// Evaluates a new upload of `requested_bytes`: free space must exceed
    /// the request plus the safety margin, memory must not be contended,
    /// and the link must be healthy. Each reading comes from the machine;
    /// the verdict for given readings is `spec_decide`. A request so large
    /// that the threshold cannot be formed is denied for disk space.
    pub fn evaluate(&self, requested_bytes: u64) -> (r: AdmissionDecision)
        ensures
            (requested_bytes as int) + (self.safety_margin as int) > u64::MAX as int ==> r
                == AdmissionDecision::Denied(DenialReason::InsufficientDisk),
    {
        let threshold = match requested_bytes.checked_add(self.safety_margin) {
            Some(t) => t,
            None => {
                return AdmissionDecision::Denied(DenialReason::InsufficientDisk);
            },
        };
        let disk = get_allocated_disk_space(&self.disk_name, threshold).is_some();
        let memory = get_allocated_memory_space(self.contention_percent).is_some();
        let network = get_server_condition(self.tolerated_errors).is_some();
        decide_admission(disk, memory, network)
    }
}

} // verus!
