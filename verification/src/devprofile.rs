//! Static device-class profiles and bounded manual overrides.
//!
//! Profiles follow from probed facts alone: no probe traffic, no adaptation.

use vstd::prelude::*;
use vstd::string::*;

use crate::error::BigcpError;
use crate::options::{DeviceClass, TuneOptions};
use crate::platform::{DeviceBus, DeviceInfo, EndpointKind};
use crate::text::{decimal, push_decimal};
use crate::transport::{TransportKind, TransportProfile};

verus! {

/// Default bytes staged between read and write phases on one spindle.
pub const DEFAULT_SAME_SPINDLE_BURST_BYTES: usize = 268_435_456;

/// Least bytes staged between phases.
pub const MIN_SAME_SPINDLE_BURST_BYTES: usize = 1_048_576;

/// Most bytes staged between phases.
pub const MAX_SAME_SPINDLE_BURST_BYTES: usize = 1_073_741_824;

/// Smallest chunk.
pub const MIN_CHUNK_BYTES: usize = 65_536;

/// Largest chunk.
pub const MAX_CHUNK_BYTES: usize = 67_108_864;

/// Largest number of small-file workers.
pub const MAX_PROFILE_WORKERS: usize = 256;

/// Bytes of one small-file buffer where no threshold is set.
pub const PROFILE_LARGE_THRESHOLD: u64 = 16_777_216;

/// One side's static settings.
#[derive(Clone, Debug, PartialEq, Eq)]
pub struct SideProfile {
    /// Local, generic UNC, or WSL UNC access path.
    pub endpoint: EndpointKind,
    /// Selected class.
    pub class: DeviceClass,
    /// high or low query confidence.
    pub confidence: String,
    /// Preferred chunk bytes.
    pub chunk_bytes: usize,
    /// Small-file workers.
    pub workers: usize,
}

/// One side's static settings, as values.
#[verifier::ext_equal]
pub ghost struct SideView {
    pub endpoint: EndpointKind,
    pub class: DeviceClass,
    pub confidence: Seq<char>,
    pub chunk_bytes: usize,
    pub workers: usize,
}

impl View for SideProfile {
    type V = SideView;

    open spec fn view(&self) -> SideView {
        SideView {
            endpoint: self.endpoint,
            class: self.class,
            confidence: self.confidence@,
            chunk_bytes: self.chunk_bytes,
            workers: self.workers,
        }
    }
}

/// Composed source and destination profile.
#[derive(Clone, Debug, PartialEq, Eq)]
pub struct CopyProfile {
    /// Source-side settings.
    pub source: SideProfile,
    /// Destination-side settings.
    pub destination: SideProfile,
    /// Chunk clamped by both adapters.
    pub chunk_bytes: usize,
    /// Small-file workers.
    pub workers: usize,
    /// Whether both sides share a physical disk.
    pub same_physical_disk: bool,
    /// How bytes move.
    pub transport: TransportProfile,
}

/// Composed profile as values.
#[verifier::ext_equal]
pub ghost struct ProfileView {
    pub source: SideView,
    pub destination: SideView,
    pub chunk_bytes: usize,
    pub workers: usize,
    pub same_physical_disk: bool,
    pub transport: TransportProfile,
}

impl View for CopyProfile {
    type V = ProfileView;

    open spec fn view(&self) -> ProfileView {
        ProfileView {
            source: self.source@,
            destination: self.destination@,
            chunk_bytes: self.chunk_bytes,
            workers: self.workers,
            same_physical_disk: self.same_physical_disk,
            transport: self.transport,
        }
    }
}

/// The class that the probed facts show. A device without seek penalty is
/// solid-state even on a bus that is not recognized.
pub open spec fn spec_detected_class(
    incurs_seek_penalty: Option<bool>,
    bus: Option<DeviceBus>,
) -> DeviceClass {
    if incurs_seek_penalty == Some(true) {
        DeviceClass::Hdd
    } else {
        match bus {
            Some(DeviceBus::Nvme) => DeviceClass::Nvme,
            Some(DeviceBus::Sata) => DeviceClass::SataSsd,
            Some(DeviceBus::Usb) => DeviceClass::UsbSsd,
            _ => if incurs_seek_penalty == Some(false) {
                DeviceClass::SataSsd
            } else {
                DeviceClass::Unknown
            },
        }
    }
}

/// The class that the probed facts show.
pub fn detected_class(info: &DeviceInfo) -> (class: DeviceClass)
    ensures
        class == spec_detected_class(info.incurs_seek_penalty, info.bus),
{
    let solid_state = match info.incurs_seek_penalty {
        Some(true) => {
            return DeviceClass::Hdd;
        },
        Some(false) => true,
        None => false,
    };
    match info.bus {
        Some(DeviceBus::Nvme) => DeviceClass::Nvme,
        Some(DeviceBus::Sata) => DeviceClass::SataSsd,
        Some(DeviceBus::Usb) => DeviceClass::UsbSsd,
        Some(DeviceBus::Other) | None => {
            if solid_state {
                DeviceClass::SataSsd
            } else {
                DeviceClass::Unknown
            }
        },
    }
}

/// Workers for NVMe storage: four per core, at most 64.
pub open spec fn nvme_workers(cores: usize) -> usize {
    if cores >= 16 {
        64
    } else {
        (4 * cores) as usize
    }
}

/// Chunk bytes and workers of one side.
pub open spec fn profile_row(
    automatic: bool,
    endpoint: EndpointKind,
    class: DeviceClass,
    cores: usize,
    source: bool,
) -> (usize, usize) {
    if automatic && endpoint is Wsl {
        (4_194_304, 8)
    } else if automatic && endpoint is Unc {
        (8_388_608, 16)
    } else {
        match class {
            DeviceClass::Nvme => (8_388_608, nvme_workers(cores)),
            DeviceClass::SataSsd => (8_388_608, 32),
            DeviceClass::UsbSsd => (4_194_304, 16),
            DeviceClass::Hdd => (
                16_777_216,
                if source {
                    4
                } else {
                    32
                },
            ),
            _ => (4_194_304, 4),
        }
    }
}

/// One side's settings before composition.
pub open spec fn spec_side_profile(
    info: DeviceInfo,
    requested: DeviceClass,
    cores: usize,
    source: bool,
) -> SideView {
    let automatic = requested is Auto;
    let class = if automatic {
        spec_detected_class(info.incurs_seek_penalty, info.bus)
    } else {
        requested
    };
    let row = profile_row(automatic, info.endpoint, class, cores, source);
    SideView {
        endpoint: info.endpoint,
        class,
        confidence: if !automatic || info.high_confidence {
            "high"@
        } else {
            "low"@
        },
        chunk_bytes: row.0,
        workers: row.1,
    }
}

/// One side's settings before composition. Seek-bound sources stay
/// conservative; destinations overlap many small closes.
pub fn side_profile(info: &DeviceInfo, requested: DeviceClass, cores: usize, source: bool) -> (side:
    SideProfile)
    ensures
        side@ == spec_side_profile(*info, requested, cores, source),
{
    let automatic = requested == DeviceClass::Auto;
    let class = if automatic {
        detected_class(info)
    } else {
        requested
    };
    let confidence: &str = if !automatic || info.high_confidence {
        "high"
    } else {
        "low"
    };
    let row: (usize, usize) = if automatic && info.endpoint == EndpointKind::Wsl {
        (4_194_304, 8)
    } else if automatic && info.endpoint == EndpointKind::Unc {
        (8_388_608, 16)
    } else {
        match class {
            DeviceClass::Nvme => (
                8_388_608,
                if cores >= 16 {
                    64
                } else {
                    4 * cores
                },
            ),
            DeviceClass::SataSsd => (8_388_608, 32),
            DeviceClass::UsbSsd => (4_194_304, 16),
            DeviceClass::Hdd => (
                16_777_216,
                if source {
                    4
                } else {
                    32
                },
            ),
            DeviceClass::Auto | DeviceClass::Unknown => (4_194_304, 4),
        }
    };
    SideProfile {
        endpoint: info.endpoint,
        class,
        confidence: confidence.to_owned(),
        chunk_bytes: row.0,
        workers: row.1,
    }
}

/// The first override out of its range, if there is one.
pub open spec fn tuning_failure(tune: TuneOptions) -> Option<Seq<char>> {
    if tune.threads matches Some(workers) && !(1 <= workers <= MAX_PROFILE_WORKERS) {
        Some("small-file worker count must be in 1..=256"@)
    } else if tune.chunk_bytes matches Some(chunk) && !(MIN_CHUNK_BYTES <= chunk
        <= MAX_CHUNK_BYTES) {
        Some("chunk size must be in 65536..=67108864 bytes"@)
    } else if tune.memory_bytes == Some(0usize) {
        Some("memory budget must be positive"@)
    } else if tune.large_threshold == Some(0u64) {
        Some("large-file threshold must be positive"@)
    } else if tune.checkpoint_threshold == Some(0u64) {
        Some("checkpoint threshold must be positive"@)
    } else if tune.same_spindle_burst_bytes matches Some(burst) && !(MIN_SAME_SPINDLE_BURST_BYTES
        <= burst <= MAX_SAME_SPINDLE_BURST_BYTES) {
        Some("same-spindle burst must be in 1048576..=1073741824 bytes"@)
    } else {
        None
    }
}

/// Whether a verdict is this failure.
pub open spec fn is_invalid<T>(verdict: Result<T, BigcpError>, failure: Seq<char>) -> bool {
    verdict matches Err(BigcpError::Invalid(text)) && text@ == failure
}

/// Holds manual overrides to their ranges.
pub fn validate_tuning(tune: &TuneOptions) -> (verdict: Result<(), BigcpError>)
    ensures
        match tuning_failure(*tune) {
            None => verdict is Ok,
            Some(failure) => is_invalid(verdict, failure),
        },
{
    if let Some(workers) = tune.threads {
        if workers < 1 || workers > MAX_PROFILE_WORKERS {
            return Err(
                BigcpError::Invalid("small-file worker count must be in 1..=256".to_owned()),
            );
        }
    }
    if let Some(chunk) = tune.chunk_bytes {
        if chunk < MIN_CHUNK_BYTES || chunk > MAX_CHUNK_BYTES {
            return Err(
                BigcpError::Invalid("chunk size must be in 65536..=67108864 bytes".to_owned()),
            );
        }
    }
    if let Some(memory) = tune.memory_bytes {
        if memory == 0 {
            return Err(BigcpError::Invalid("memory budget must be positive".to_owned()));
        }
    }
    if let Some(threshold) = tune.large_threshold {
        if threshold == 0 {
            return Err(BigcpError::Invalid("large-file threshold must be positive".to_owned()));
        }
    }
    if let Some(threshold) = tune.checkpoint_threshold {
        if threshold == 0 {
            return Err(BigcpError::Invalid("checkpoint threshold must be positive".to_owned()));
        }
    }
    if let Some(burst) = tune.same_spindle_burst_bytes {
        if burst < MIN_SAME_SPINDLE_BURST_BYTES || burst > MAX_SAME_SPINDLE_BURST_BYTES {
            return Err(
                BigcpError::Invalid(
                    "same-spindle burst must be in 1048576..=1073741824 bytes".to_owned(),
                ),
            );
        }
    }
    Ok(())
}

/// Whether two devices share a physical disk.
pub open spec fn shares_disk(left: Seq<u32>, right: Seq<u32>) -> bool {
    exists|disk: u32| left.contains(disk) && #[trigger] right.contains(disk)
}

fn have_common_disk(left: &Vec<u32>, right: &Vec<u32>) -> (common: bool)
    ensures
        common == shares_disk(left@, right@),
{
    for i in 0..left.len()
        invariant
            forall|a: int| 0 <= a < i ==> !right@.contains(#[trigger] left@[a]),
    {
        for j in 0..right.len()
            invariant
                i < left.len(),
                forall|b: int| 0 <= b < j ==> #[trigger] right@[b] != left@[i as int],
        {
            if left[i] == right[j] {
                assert(left@.contains(left@[i as int]));
                assert(right@.contains(right@[j as int]));
                return true;
            }
        }
        assert(!right@.contains(left@[i as int]));
    }
    false
}

/// The smaller of two sizes.
pub open spec fn smaller(left: usize, right: usize) -> usize {
    if left <= right {
        left
    } else {
        right
    }
}

/// The larger of two sizes.
pub open spec fn larger(left: usize, right: usize) -> usize {
    if left >= right {
        left
    } else {
        right
    }
}

fn min_size(left: usize, right: usize) -> (least: usize)
    ensures
        least == smaller(left, right),
{
    if left <= right {
        left
    } else {
        right
    }
}

fn max_size(left: usize, right: usize) -> (most: usize)
    ensures
        most == larger(left, right),
{
    if left >= right {
        left
    } else {
        right
    }
}

/// A chunk held to an adapter's largest transfer, where it has one.
pub open spec fn held_to(chunk: usize, maximum: Option<u32>) -> usize {
    match maximum {
        Some(maximum) => if maximum > 0 {
            smaller(chunk, maximum as usize)
        } else {
            chunk
        },
        None => chunk,
    }
}

fn hold_to(chunk: usize, maximum: Option<u32>) -> (held: usize)
    ensures
        held == held_to(chunk, maximum),
{
    match maximum {
        Some(maximum) => {
            if maximum > 0 {
                min_size(chunk, maximum as usize)
            } else {
                chunk
            }
        },
        None => chunk,
    }
}

/// The kind of transport between two endpoints: phased on one rotational disk,
/// pipelined where a side is remote, one request at a time otherwise.
pub open spec fn transport_kind(
    same_spindle: bool,
    source: EndpointKind,
    destination: EndpointKind,
) -> TransportKind {
    if same_spindle {
        TransportKind::SameSpindle
    } else if source is Wsl || destination is Wsl {
        TransportKind::Wsl
    } else if source is Unc || destination is Unc {
        TransportKind::Redirector
    } else {
        TransportKind::Standard
    }
}

/// The coordinator's chunks that are in use at a time.
pub open spec fn coordinator_chunks(kind: TransportKind) -> usize {
    if kind is Standard {
        1
    } else {
        2
    }
}

/// Bytes that one worker may hold.
pub open spec fn worker_bytes(kind: TransportKind, chunk: usize, large: usize) -> int {
    if kind is Standard || 2 * chunk <= large {
        large as int
    } else {
        2 * chunk
    }
}

/// The largest chunk that a memory budget allows, beside one worker.
pub open spec fn chunk_budget(kind: TransportKind, memory: usize, large: usize) -> int {
    match kind {
        TransportKind::SameSpindle => memory as int,
        TransportKind::Standard => memory - large,
        _ => {
            let half = (memory - large) / 2;
            let quarter = memory as int / 4;
            if half <= quarter {
                half
            } else {
                quarter
            }
        },
    }
}

/// What is said of a budget without room for a chunk and a worker.
pub open spec fn budget_failure(kind: TransportKind, memory: usize, large: usize) -> Seq<char> {
    if kind is Standard {
        "memory budget "@ + decimal(memory as nat) + " must hold one small-file buffer ("@
            + decimal(large as nat) + ") and a minimum coordinator chunk (65536)"@
    } else {
        "memory budget "@ + decimal(memory as nat) + " must hold one worker buffer ("@ + decimal(
            worker_bytes(kind, MIN_CHUNK_BYTES, large) as nat,
        ) + ") and two minimum coordinator chunks (65536)"@
    }
}

/// Workers that fit in a memory budget beside the coordinator's chunks.
pub open spec fn budgeted_workers(
    kind: TransportKind,
    memory: usize,
    chunk: usize,
    large: usize,
) -> usize {
    let fitting = (memory - coordinator_chunks(kind) * chunk) / worker_bytes(kind, chunk, large);
    if fitting < 1 {
        1
    } else if fitting > MAX_PROFILE_WORKERS {
        MAX_PROFILE_WORKERS
    } else {
        fitting as usize
    }
}

/// A side with its workers set by hand or capped.
pub open spec fn with_workers(side: SideView, workers: usize) -> SideView {
    SideView { workers, ..side }
}

/// The chunk before any memory budget.
pub open spec fn unbudgeted_chunk(
    source_info: DeviceInfo,
    destination_info: DeviceInfo,
    source: SideView,
    destination: SideView,
    tune: TuneOptions,
) -> usize {
    let wanted = match tune.chunk_bytes {
        Some(chunk) => chunk,
        None => smaller(source.chunk_bytes, destination.chunk_bytes),
    };
    held_to(
        held_to(wanted, source_info.maximum_transfer_length),
        destination_info.maximum_transfer_length,
    )
}

/// Small-file workers before any memory budget. The destination leads; a
/// source that seeks, or that is remote, caps it.
pub open spec fn led_workers(source: SideView, destination: SideView) -> usize {
    if source.class is Hdd || source.endpoint is Unc || source.endpoint is Wsl {
        smaller(source.workers, destination.workers)
    } else {
        destination.workers
    }
}

/// Bytes staged between phases.
pub open spec fn burst_of(tune: TuneOptions) -> usize {
    let wanted = match tune.same_spindle_burst_bytes {
        Some(burst) => burst,
        None => DEFAULT_SAME_SPINDLE_BURST_BYTES,
    };
    match tune.memory_bytes {
        Some(memory) => smaller(wanted, memory),
        None => wanted,
    }
}

/// The small-file threshold in bytes.
pub open spec fn large_of(tune: TuneOptions) -> u64 {
    match tune.large_threshold {
        Some(threshold) => threshold,
        None => PROFILE_LARGE_THRESHOLD,
    }
}

/// The composed profile, or what is wrong with the overrides.
#[verifier::opaque]
pub open spec fn composed(
    source_info: DeviceInfo,
    destination_info: DeviceInfo,
    source_override: DeviceClass,
    destination_override: DeviceClass,
    tune: TuneOptions,
    cores: usize,
) -> Result<ProfileView, Seq<char>> {
    let plain_source = spec_side_profile(source_info, source_override, cores, true);
    let plain_destination = spec_side_profile(
        destination_info,
        destination_override,
        cores,
        false,
    );
    let source = match tune.threads {
        Some(workers) => with_workers(plain_source, workers),
        None => plain_source,
    };
    let destination = match tune.threads {
        Some(workers) => with_workers(plain_destination, workers),
        None => plain_destination,
    };
    let same_disk = shares_disk(source_info.disk_numbers@, destination_info.disk_numbers@);
    let same_spindle = same_disk && (source.class is Hdd || destination.class is Hdd);
    let kind = transport_kind(same_spindle, source.endpoint, destination.endpoint);
    let plain_chunk = unbudgeted_chunk(source_info, destination_info, source, destination, tune);
    if tuning_failure(tune) is Some {
        Err(tuning_failure(tune)->0)
    } else if large_of(tune) > usize::MAX {
        Err("large-file threshold does not fit this address space"@)
    } else {
        let large = large_of(tune) as usize;
        let budget = match tune.memory_bytes {
            Some(memory) => Some(chunk_budget(kind, memory, large)),
            None => None,
        };
        if !same_spindle && (budget matches Some(budget) && budget < MIN_CHUNK_BYTES) {
            Err(budget_failure(kind, tune.memory_bytes->0, large))
        } else {
            let chunk = match budget {
                Some(budget) => if plain_chunk <= budget {
                    plain_chunk
                } else {
                    budget as usize
                },
                None => plain_chunk,
            };
            if same_spindle {
                let burst = burst_of(tune);
                let minimum = larger(chunk, large);
                if tune.threads matches Some(workers) && workers != 1 {
                    Err(
                        "same-spindle phased scheduling requires threads=1; omit threads or set it to 1"@,
                    )
                } else if burst < minimum {
                    Err(
                        "same-spindle burst "@ + decimal(burst as nat)
                            + " is smaller than the required chunk/whole-file buffer "@ + decimal(
                            minimum as nat,
                        ),
                    )
                } else {
                    Ok(
                        ProfileView {
                            source,
                            destination,
                            chunk_bytes: chunk,
                            workers: 1,
                            same_physical_disk: same_disk,
                            transport: TransportProfile { kind, burst_bytes: burst },
                        },
                    )
                }
            } else {
                let led = led_workers(source, destination);
                let transport = TransportProfile { kind, burst_bytes: chunk };
                match tune.memory_bytes {
                    None => Ok(
                        ProfileView {
                            source,
                            destination,
                            chunk_bytes: chunk,
                            workers: led,
                            same_physical_disk: same_disk,
                            transport,
                        },
                    ),
                    Some(memory) => {
                        let cap = budgeted_workers(kind, memory, chunk, large);
                        Ok(
                            ProfileView {
                                source: with_workers(source, smaller(source.workers, cap)),
                                destination: with_workers(
                                    destination,
                                    smaller(destination.workers, cap),
                                ),
                                chunk_bytes: chunk,
                                workers: smaller(led, cap),
                                same_physical_disk: same_disk,
                                transport,
                            },
                        )
                    },
                }
            }
        }
    }
}

fn budget_error(kind: TransportKind, memory: usize, large: usize) -> (error: BigcpError)
    ensures
        error matches BigcpError::Invalid(text) && text@ == budget_failure(kind, memory, large),
{
    let mut text = "memory budget ".to_owned();
    push_decimal(&mut text, memory as u64);
    if kind == TransportKind::Standard {
        text.append(" must hold one small-file buffer (");
        push_decimal(&mut text, large as u64);
        text.append(") and a minimum coordinator chunk (65536)");
    } else {
        text.append(" must hold one worker buffer (");
        push_decimal(&mut text, max_size(large, 2 * MIN_CHUNK_BYTES) as u64);
        text.append(") and two minimum coordinator chunks (65536)");
    }
    assert(text@ =~= budget_failure(kind, memory, large));
    BigcpError::Invalid(text)
}

fn budgeted_chunk(kind: TransportKind, memory: usize, large: usize) -> (budget: Option<usize>)
    ensures
        match budget {
            Some(budget) => budget == chunk_budget(kind, memory, large) && (budget
                >= MIN_CHUNK_BYTES || kind is SameSpindle),
            None => chunk_budget(kind, memory, large) < MIN_CHUNK_BYTES && !(kind is SameSpindle),
        },
{
    match kind {
        TransportKind::SameSpindle => Some(memory),
        TransportKind::Standard => {
            if memory >= large && memory - large >= MIN_CHUNK_BYTES {
                Some(memory - large)
            } else {
                None
            }
        },
        _ => {
            if memory < large {
                return None;
            }
            let budget: usize = min_size((memory - large) / 2, memory / 4);
            if budget >= MIN_CHUNK_BYTES {
                Some(budget)
            } else {
                None
            }
        },
    }
}

proof fn lemma_budget_leaves_a_worker(
    kind: TransportKind,
    memory: usize,
    chunk: usize,
    large: usize,
)
    requires
        !(kind is SameSpindle),
        large > 0,
        chunk <= chunk_budget(kind, memory, large),
    ensures
        coordinator_chunks(kind) * chunk + worker_bytes(kind, chunk, large) <= memory,
{
    if kind is Standard {
        assert(coordinator_chunks(kind) * chunk == chunk);
    } else {
        assert(coordinator_chunks(kind) * chunk == 2 * chunk);
    }
}

fn fitting_workers(kind: TransportKind, memory: usize, chunk: usize, large: usize) -> (workers:
    usize)
    requires
        !(kind is SameSpindle),
        large > 0,
        0 < chunk <= MAX_CHUNK_BYTES,
        chunk <= chunk_budget(kind, memory, large),
    ensures
        workers == budgeted_workers(kind, memory, chunk, large),
{
    proof {
        lemma_budget_leaves_a_worker(kind, memory, chunk, large);
    }
    let reserved: usize = if kind == TransportKind::Standard {
        chunk
    } else {
        2 * chunk
    };
    assert(reserved == coordinator_chunks(kind) * chunk);
    let each: usize = if kind == TransportKind::Standard {
        large
    } else {
        max_size(large, 2 * chunk)
    };
    assert(each == worker_bytes(kind, chunk, large));
    let fitting: usize = (memory - reserved) / each;
    if fitting < 1 {
        1
    } else if fitting > MAX_PROFILE_WORKERS {
        MAX_PROFILE_WORKERS
    } else {
        fitting
    }
}

fn kind_of(same_spindle: bool, source: EndpointKind, destination: EndpointKind) -> (kind:
    TransportKind)
    ensures
        kind == transport_kind(same_spindle, source, destination),
{
    if same_spindle {
        TransportKind::SameSpindle
    } else if source == EndpointKind::Wsl || destination == EndpointKind::Wsl {
        TransportKind::Wsl
    } else if source == EndpointKind::Unc || destination == EndpointKind::Unc {
        TransportKind::Redirector
    } else {
        TransportKind::Standard
    }
}

/// Selects and composes the profiles of both sides on a machine with `cores`
/// processors.
#[verifier::rlimit(60)]
#[verifier::spinoff_prover]
pub fn select_copy_profile(
    source_info: &DeviceInfo,
    destination_info: &DeviceInfo,
    source_override: DeviceClass,
    destination_override: DeviceClass,
    tune: &TuneOptions,
    cores: usize,
) -> (profile: Result<CopyProfile, BigcpError>)
    ensures
        match composed(
            *source_info,
            *destination_info,
            source_override,
            destination_override,
            *tune,
            cores,
        ) {
            Ok(expected) => profile matches Ok(profile) && profile@ == expected,
            Err(failure) => is_invalid(profile, failure),
        },
{
    proof {
        reveal(composed);
    }
    validate_tuning(tune)?;
    let mut source = side_profile(source_info, source_override, cores, true);
    let mut destination = side_profile(destination_info, destination_override, cores, false);
    if let Some(workers) = tune.threads {
        source.workers = workers;
        destination.workers = workers;
    }
    let threshold: u64 = match tune.large_threshold {
        Some(threshold) => threshold,
        None => PROFILE_LARGE_THRESHOLD,
    };
    if threshold > usize::MAX as u64 {
        return Err(
            BigcpError::Invalid("large-file threshold does not fit this address space".to_owned()),
        );
    }
    let large: usize = threshold as usize;
    let same_disk = have_common_disk(&source_info.disk_numbers, &destination_info.disk_numbers);
    let same_spindle = same_disk && (source.class == DeviceClass::Hdd || destination.class
        == DeviceClass::Hdd);
    let kind = kind_of(same_spindle, source.endpoint, destination.endpoint);
    let wanted: usize = match tune.chunk_bytes {
        Some(chunk) => chunk,
        None => min_size(source.chunk_bytes, destination.chunk_bytes),
    };
    let mut chunk: usize = hold_to(
        hold_to(wanted, source_info.maximum_transfer_length),
        destination_info.maximum_transfer_length,
    );
    assert(0 < chunk <= MAX_CHUNK_BYTES);
    if let Some(memory) = tune.memory_bytes {
        match budgeted_chunk(kind, memory, large) {
            Some(budget) => {
                chunk = min_size(chunk, budget);
            },
            None => {
                return Err(budget_error(kind, memory, large));
            },
        }
    }
    if same_spindle {
        if let Some(workers) = tune.threads {
            if workers != 1 {
                return Err(
                    BigcpError::Invalid(
                        "same-spindle phased scheduling requires threads=1; omit threads or set it to 1".to_owned(),
                    ),
                );
            }
        }
        let mut burst: usize = match tune.same_spindle_burst_bytes {
            Some(burst) => burst,
            None => DEFAULT_SAME_SPINDLE_BURST_BYTES,
        };
        if let Some(memory) = tune.memory_bytes {
            burst = min_size(burst, memory);
        }
        let minimum: usize = max_size(chunk, large);
        if burst < minimum {
            let mut text = "same-spindle burst ".to_owned();
            push_decimal(&mut text, burst as u64);
            text.append(" is smaller than the required chunk/whole-file buffer ");
            push_decimal(&mut text, minimum as u64);
            return Err(BigcpError::Invalid(text));
        }
        return Ok(
            CopyProfile {
                source,
                destination,
                chunk_bytes: chunk,
                workers: 1,
                same_physical_disk: same_disk,
                transport: TransportProfile { kind, burst_bytes: burst },
            },
        );
    }
    let mut workers: usize = if source.class == DeviceClass::Hdd || source.endpoint
        == EndpointKind::Unc || source.endpoint == EndpointKind::Wsl {
        min_size(source.workers, destination.workers)
    } else {
        destination.workers
    };
    if let Some(memory) = tune.memory_bytes {
        let cap: usize = fitting_workers(kind, memory, chunk, large);
        source.workers = min_size(source.workers, cap);
        destination.workers = min_size(destination.workers, cap);
        workers = min_size(workers, cap);
    }
    Ok(
        CopyProfile {
            source,
            destination,
            chunk_bytes: chunk,
            workers,
            same_physical_disk: same_disk,
            transport: TransportProfile { kind, burst_bytes: chunk },
        },
    )
}

/// A memory budget is kept: outside the phased path the coordinator's chunks
/// and the buffers of all workers fit in it together; on the phased path the
/// burst does.
pub proof fn memory_budget_is_kept(
    source_info: DeviceInfo,
    destination_info: DeviceInfo,
    source_override: DeviceClass,
    destination_override: DeviceClass,
    tune: TuneOptions,
    cores: usize,
)
    requires
        tune.memory_bytes is Some,
        composed(
            source_info,
            destination_info,
            source_override,
            destination_override,
            tune,
            cores,
        ) is Ok,
    ensures
        ({
            let profile = composed(
                source_info,
                destination_info,
                source_override,
                destination_override,
                tune,
                cores,
            )->Ok_0;
            let kind = profile.transport.kind;
            let memory = tune.memory_bytes->0;
            if kind is SameSpindle {
                profile.transport.burst_bytes <= memory
            } else {
                coordinator_chunks(kind) * profile.chunk_bytes + profile.workers * worker_bytes(
                    kind,
                    profile.chunk_bytes,
                    large_of(tune) as usize,
                ) <= memory
            }
        }),
{
    reveal(composed);
    let profile = composed(
        source_info,
        destination_info,
        source_override,
        destination_override,
        tune,
        cores,
    )->Ok_0;
    let kind = profile.transport.kind;
    let memory = tune.memory_bytes->0;
    let large = large_of(tune) as usize;
    let chunk = profile.chunk_bytes;
    if !(kind is SameSpindle) {
        lemma_budget_leaves_a_worker(kind, memory, chunk, large);
        let room = memory - coordinator_chunks(kind) * chunk;
        let each = worker_bytes(kind, chunk, large);
        let cap = budgeted_workers(kind, memory, chunk, large);
        vstd::arithmetic::div_mod::lemma_fundamental_div_mod(room, each);
        assert(room / each >= 1) by (nonlinear_arith)
            requires
                room >= each,
                each > 0,
        ;
        assert(cap <= room / each);
        assert(profile.workers <= cap);
        assert(profile.workers * each <= room) by (nonlinear_arith)
            requires
                profile.workers <= room / each,
                each > 0,
                room == each * (room / each) + room % each,
                room % each >= 0,
        ;
    }
}

/// On one rotational disk exactly one worker runs, and the burst holds a chunk
/// and a whole small file.
pub proof fn one_spindle_has_one_worker(
    source_info: DeviceInfo,
    destination_info: DeviceInfo,
    source_override: DeviceClass,
    destination_override: DeviceClass,
    tune: TuneOptions,
    cores: usize,
)
    ensures
        composed(
            source_info,
            destination_info,
            source_override,
            destination_override,
            tune,
            cores,
        ) matches Ok(profile) ==> {
            &&& profile.transport.kind is SameSpindle <==> profile.same_physical_disk && (
            profile.source.class is Hdd || profile.destination.class is Hdd)
            &&& profile.transport.kind is SameSpindle ==> profile.workers == 1
                && profile.transport.burst_bytes >= profile.chunk_bytes
                && profile.transport.burst_bytes >= large_of(tune)
        },
{
    reveal(composed);
}

/// Every profile can run: on a machine with a processor it has between 1 and
/// 256 workers and a chunk of at least one byte and at most 64 MiB.
pub proof fn profiles_can_run(
    source_info: DeviceInfo,
    destination_info: DeviceInfo,
    source_override: DeviceClass,
    destination_override: DeviceClass,
    tune: TuneOptions,
    cores: usize,
)
    requires
        cores > 0,
    ensures
        composed(
            source_info,
            destination_info,
            source_override,
            destination_override,
            tune,
            cores,
        ) matches Ok(profile) ==> 1 <= profile.workers <= MAX_PROFILE_WORKERS && 0
            < profile.chunk_bytes <= MAX_CHUNK_BYTES,
{
    reveal(composed);
}

/// No request exceeds the largest transfer of either
/// adapter.
pub proof fn chunk_respects_both_adapters(
    source_info: DeviceInfo,
    destination_info: DeviceInfo,
    source_override: DeviceClass,
    destination_override: DeviceClass,
    tune: TuneOptions,
    cores: usize,
)
    ensures
        composed(
            source_info,
            destination_info,
            source_override,
            destination_override,
            tune,
            cores,
        ) matches Ok(profile) ==> {
            &&& source_info.maximum_transfer_length matches Some(maximum) ==> maximum > 0
                ==> profile.chunk_bytes <= maximum
            &&& destination_info.maximum_transfer_length matches Some(maximum) ==> maximum > 0
                ==> profile.chunk_bytes <= maximum
        },
{
    reveal(composed);
}

/// What a drive counts as: one that seeks is a hard disk on any bus; the others
/// go by their bus, and one of unknown bus counts as a solid drive only if it is
/// known not to seek.
pub proof fn drive_class_follows_seeks_and_bus(
    incurs_seek_penalty: Option<bool>,
    bus: Option<DeviceBus>,
)
    ensures
        ({
            let class = spec_detected_class(incurs_seek_penalty, bus);
            let seeks = incurs_seek_penalty == Some(true);
            let named = bus matches Some(bus) && (bus is Nvme || bus is Sata || bus is Usb);
            &&& class is Hdd <==> seeks
            &&& class is Nvme <==> !seeks && bus == Some(DeviceBus::Nvme)
            &&& class is UsbSsd <==> !seeks && bus == Some(DeviceBus::Usb)
            &&& class is SataSsd <==> !seeks && bus == Some(DeviceBus::Sata) || !named
                && incurs_seek_penalty == Some(false)
            &&& class is Unknown <==> !named && incurs_seek_penalty is None
            &&& !(class is Auto)
        }),
{
    if let Some(seeks) = incurs_seek_penalty {
        if !seeks {
            assert(incurs_seek_penalty == Some(false));
        }
    }
}

/// How a transfer between two roots is carried: in phases on one spindle, by the
/// WSL route where either side is WSL, by the redirector where either is a
/// share, and plainly otherwise.
pub proof fn transport_follows_both_ends(
    same_spindle: bool,
    source: EndpointKind,
    destination: EndpointKind,
)
    ensures
        ({
            let kind = transport_kind(same_spindle, source, destination);
            let wsl = source is Wsl || destination is Wsl;
            let share = source is Unc || destination is Unc;
            &&& kind is SameSpindle <==> same_spindle
            &&& kind is Wsl <==> !same_spindle && wsl
            &&& kind is Redirector <==> !same_spindle && !wsl && share
            &&& kind is Standard <==> !same_spindle && !wsl && !share
        }),
{
}

/// Tuning is accepted exactly within its bounds: 1 to 256 workers, chunks of 64
/// KiB to 64 MiB, bursts of 1 MiB to 1 GiB, and no size of zero.
pub proof fn tuning_is_accepted_within_bounds(tune: TuneOptions)
    ensures
        tuning_failure(tune) is None <==> {
            &&& tune.threads matches Some(workers) ==> 1 <= workers <= 256
            &&& tune.chunk_bytes matches Some(chunk) ==> 0x1_0000 <= chunk <= 0x400_0000
            &&& tune.memory_bytes matches Some(memory) ==> memory > 0
            &&& tune.large_threshold matches Some(size) ==> size > 0
            &&& tune.checkpoint_threshold matches Some(size) ==> size > 0
            &&& tune.same_spindle_burst_bytes matches Some(burst) ==> 0x10_0000 <= burst
                <= 0x4000_0000
        },
{
}

/// A profile goes by both drives and by what was tuned: each side has its
/// requested class, or the detected one; chunks are no larger than was tuned or
/// than either side takes; there are no more workers than were tuned; and where
/// nothing limits memory they are exactly as many.
pub proof fn profile_follows_drives_and_tuning(
    source_info: DeviceInfo,
    destination_info: DeviceInfo,
    source_override: DeviceClass,
    destination_override: DeviceClass,
    tune: TuneOptions,
    cores: usize,
)
    ensures
        composed(
            source_info,
            destination_info,
            source_override,
            destination_override,
            tune,
            cores,
        ) matches Ok(profile) ==> {
            &&& profile.source.endpoint == source_info.endpoint
            &&& profile.destination.endpoint == destination_info.endpoint
            &&& !(source_override is Auto) ==> profile.source.class == source_override
            &&& !(destination_override is Auto) ==> profile.destination.class
                == destination_override
            &&& source_override is Auto ==> profile.source.class == spec_detected_class(
                source_info.incurs_seek_penalty,
                source_info.bus,
            )
            &&& destination_override is Auto ==> profile.destination.class == spec_detected_class(
                destination_info.incurs_seek_penalty,
                destination_info.bus,
            )
            &&& tune.chunk_bytes matches Some(chunk) ==> profile.chunk_bytes <= chunk
            &&& tune.chunk_bytes is None ==> profile.chunk_bytes <= profile.source.chunk_bytes
                && profile.chunk_bytes <= profile.destination.chunk_bytes
            &&& tune.threads matches Some(workers) ==> profile.workers <= workers
            &&& tune.threads is Some && tune.memory_bytes is None && !(profile.transport.kind
                is SameSpindle) ==> profile.workers == tune.threads->0
            &&& profile.same_physical_disk <==> exists|disk: u32|
                source_info.disk_numbers@.contains(disk)
                    && #[trigger] destination_info.disk_numbers@.contains(disk)
            &&& !(profile.transport.kind is SameSpindle) ==> profile.transport.burst_bytes
                == profile.chunk_bytes
        },
{
    reveal(composed);
}

/// The rows of the profile table stand in fixed ratios: each step from a slow
/// drive to a fast one doubles what is asked of it at once. A spinning drive is
/// read by few workers and written by many, only the fastest class grows with
/// the machine, and a remote endpoint goes by its own row where the class was
/// left open.
pub proof fn profile_table_keeps_its_ratios(
    automatic: bool,
    endpoint: EndpointKind,
    cores: usize,
    source: bool,
)
    ensures
        ({
            let row = |class: DeviceClass| profile_row(false, endpoint, class, cores, source);
            let local = |class: DeviceClass|
                profile_row(automatic, EndpointKind::Local, class, cores, source);
            let unknown = row(DeviceClass::Unknown);
            let usb = row(DeviceClass::UsbSsd);
            let sata = row(DeviceClass::SataSsd);
            let nvme = row(DeviceClass::Nvme);
            let hdd = row(DeviceClass::Hdd);
            let unc = profile_row(true, EndpointKind::Unc, DeviceClass::Hdd, cores, source);
            let wsl = profile_row(true, EndpointKind::Wsl, DeviceClass::Hdd, cores, source);
            &&& unknown.0 == 4 * 1024 * 1024 && unknown.1 == 4
            &&& usb.0 == unknown.0 && usb.1 == 4 * unknown.1
            &&& sata.0 == 2 * usb.0 && sata.1 == 2 * usb.1
            &&& nvme.0 == sata.0 && nvme.1 <= 2 * sata.1
            &&& hdd.0 == 2 * sata.0 && hdd.1 == (if source {
                unknown.1
            } else {
                sata.1
            })
            &&& unc.0 == sata.0 && unc.1 == usb.1
            &&& wsl.0 == unknown.0 && wsl.1 == 2 * unknown.1
            &&& local(DeviceClass::Hdd) == hdd && local(DeviceClass::Nvme) == nvme && local(
                DeviceClass::SataSsd,
            ) == sata && local(DeviceClass::UsbSsd) == usb
            &&& (cores <= 16 ==> nvme.1 == unknown.1 * cores)
            &&& (cores >= 16 ==> nvme.1 == 2 * sata.1)
        }),
{
}

/// The destination sets the number of workers; a source that seeks or lies
/// behind a network holds it to its own.
pub proof fn slow_source_holds_the_workers(source: SideView, destination: SideView)
    ensures
        led_workers(source, destination) <= destination.workers,
        source.class is Hdd || !(source.endpoint is Local) ==> led_workers(source, destination)
            <= source.workers && (led_workers(source, destination) == source.workers
            || led_workers(source, destination) == destination.workers),
        !(source.class is Hdd) && source.endpoint is Local ==> led_workers(source, destination)
            == destination.workers,
{
}

} // verus!
