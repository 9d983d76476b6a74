//! Validated, interface-independent option types.

use vstd::prelude::*;

use crate::filesystem::FilesystemPolicy;
use crate::path::WidePath;
use crate::platform::VolumeInfo;
use crate::transport::TransportProfile;

verus! {

/// Static device classes.
#[derive(Clone, Copy, Debug, PartialEq, Eq, Structural)]
pub enum DeviceClass {
    /// Automatic, capability-based selection.
    Auto,
    /// Internal NVMe-class storage.
    Nvme,
    /// SATA solid-state storage.
    SataSsd,
    /// UASP USB solid-state storage.
    UsbSsd,
    /// Rotational storage.
    Hdd,
    /// Conservative fallback profile.
    Unknown,
}

/// Advanced performance overrides.
#[derive(Clone, Copy, Debug, PartialEq, Eq, Structural)]
pub struct TuneOptions {
    /// Streaming chunk bytes.
    pub chunk_bytes: Option<usize>,
    /// Concurrent large-file streams.
    pub streams: Option<usize>,
    /// Small-file worker count.
    pub threads: Option<usize>,
    /// Buffer-pool memory budget.
    pub memory_bytes: Option<usize>,
    /// Small/large engine threshold.
    pub large_threshold: Option<u64>,
    /// Partial checkpoint eligibility threshold.
    pub checkpoint_threshold: Option<u64>,
    /// Maximum same-spindle staging bytes.
    pub same_spindle_burst_bytes: Option<usize>,
}

impl TuneOptions {
    /// No override.
    pub open spec fn none() -> TuneOptions {
        TuneOptions {
            chunk_bytes: None,
            streams: None,
            threads: None,
            memory_bytes: None,
            large_threshold: None,
            checkpoint_threshold: None,
            same_spindle_burst_bytes: None,
        }
    }
}

impl Default for TuneOptions {
    fn default() -> (tune: Self)
        ensures
            tune == TuneOptions::none(),
    {
        TuneOptions {
            chunk_bytes: None,
            streams: None,
            threads: None,
            memory_bytes: None,
            large_threshold: None,
            checkpoint_threshold: None,
            same_spindle_burst_bytes: None,
        }
    }
}

/// Default size from which a file counts as large: 4 MiB.
pub const DEFAULT_LARGE_THRESHOLD: u64 = 4_194_304;

/// Default size from which a stream is checkpointed: 16 GiB.
pub const DEFAULT_CHECKPOINT_THRESHOLD: u64 = 17_179_869_184;

/// Complete copy-run configuration.
#[derive(Clone, Debug, PartialEq, Eq)]
pub struct CopyOptions {
    /// Source tree root.
    pub source: WidePath,
    /// Destination tree root.
    pub destination: WidePath,
    /// Enumerate and classify without destination-tree writes.
    pub dry_run: bool,
    /// Verify files written by this run after copying.
    pub verify: bool,
    /// Include root-level operating-system artifacts.
    pub include_system: bool,
    /// Exclude cloud placeholders instead of hydrating them.
    pub skip_cloud: bool,
    /// Replace differing destination files.
    pub replace: bool,
    /// Request per-file durable flushing.
    pub flush: bool,
    /// Disable sparse-layout preservation.
    pub no_sparse: bool,
    /// Collect bounded live-run insight.
    pub analyze: bool,
    /// Permit unknown reparse buffers to be copied verbatim.
    pub raw_reparse: bool,
    /// Ignore prior journal checkpoints.
    pub fresh: bool,
    /// Accept the fidelity limits of a FAT or exFAT destination.
    pub accept_degraded_filesystem: bool,
    /// Accept the limits of UNC and WSL paths.
    pub accept_remote_paths: bool,
    /// Optional audit state directory.
    pub state_dir: Option<WidePath>,
    /// Optional JSONL log path.
    pub log_path: Option<WidePath>,
    /// Optional JSON report path.
    pub report_path: Option<WidePath>,
    /// Requested source static profile.
    pub source_profile: DeviceClass,
    /// Requested destination static profile.
    pub destination_profile: DeviceClass,
    /// Advanced bounded overrides.
    pub tune: TuneOptions,
}

impl CopyOptions {
    /// Constructs conservative product defaults for one source/destination pair.
    pub fn new(source: WidePath, destination: WidePath) -> (options: Self)
        ensures
            options == (CopyOptions {
                source,
                destination,
                dry_run: false,
                verify: false,
                include_system: false,
                skip_cloud: false,
                replace: true,
                flush: false,
                no_sparse: false,
                analyze: false,
                raw_reparse: false,
                fresh: false,
                accept_degraded_filesystem: false,
                accept_remote_paths: false,
                state_dir: None,
                log_path: None,
                report_path: None,
                source_profile: DeviceClass::Auto,
                destination_profile: DeviceClass::Auto,
                tune: TuneOptions::none(),
            }),
    {
        CopyOptions {
            source,
            destination,
            dry_run: false,
            verify: false,
            include_system: false,
            skip_cloud: false,
            replace: true,
            flush: false,
            no_sparse: false,
            analyze: false,
            raw_reparse: false,
            fresh: false,
            accept_degraded_filesystem: false,
            accept_remote_paths: false,
            state_dir: None,
            log_path: None,
            report_path: None,
            source_profile: DeviceClass::Auto,
            destination_profile: DeviceClass::Auto,
            tune: TuneOptions::default(),
        }
    }

    /// The configured large-file threshold.
    pub open spec fn spec_large_threshold(self) -> u64 {
        match self.tune.large_threshold {
            Some(threshold) => threshold,
            None => DEFAULT_LARGE_THRESHOLD,
        }
    }

    /// The configured checkpoint threshold.
    pub open spec fn spec_checkpoint_threshold(self) -> u64 {
        match self.tune.checkpoint_threshold {
            Some(threshold) => threshold,
            None => DEFAULT_CHECKPOINT_THRESHOLD,
        }
    }

    /// Returns the configured large-file threshold.
    pub fn large_threshold(&self) -> (threshold: u64)
        ensures
            threshold == self.spec_large_threshold(),
    {
        match self.tune.large_threshold {
            Some(threshold) => threshold,
            None => DEFAULT_LARGE_THRESHOLD,
        }
    }

    /// Returns the configured checkpoint threshold.
    pub fn checkpoint_threshold(&self) -> (threshold: u64)
        ensures
            threshold == self.spec_checkpoint_threshold(),
    {
        match self.tune.checkpoint_threshold {
            Some(threshold) => threshold,
            None => DEFAULT_CHECKPOINT_THRESHOLD,
        }
    }

    /// The seconds between two points of the timeline: an analysis samples it
    /// six times more finely.
    pub fn stat_interval(&self) -> (seconds: u64)
        ensures
            seconds == if self.analyze {
                5u64
            } else {
                30u64
            },
    {
        if self.analyze {
            5
        } else {
            30
        }
    }
}

/// Standalone full-tree verification configuration.
#[derive(Clone, Debug, PartialEq, Eq)]
pub struct VerifyOptions {
    /// Source tree root.
    pub source: WidePath,
    /// Destination tree root.
    pub destination: WidePath,
}

/// What the decisions of one run depend on, fixed before the first object.
#[derive(Clone, Copy, Debug, PartialEq, Eq, Structural)]
pub struct RunRules {
    /// Enumerate and classify without destination-tree writes.
    pub dry_run: bool,
    /// Verify files written by this run after copying.
    pub verify: bool,
    /// Include root-level operating-system artifacts.
    pub include_system: bool,
    /// Exclude cloud placeholders instead of hydrating them.
    pub skip_cloud: bool,
    /// Replace differing destination files.
    pub replace: bool,
    /// Disable sparse-layout preservation.
    pub no_sparse: bool,
    /// Size from which a file counts as large.
    pub large_threshold: u64,
    /// Size from which a stream is checkpointed.
    pub checkpoint_threshold: u64,
    /// Destination policy.
    pub policy: FilesystemPolicy,
    /// Whether the source has named streams.
    pub source_supports_streams: bool,
    /// Whether the source has extended attributes.
    pub source_supports_eas: bool,
    /// Whether the source root is the root of its volume.
    pub source_is_volume_root: bool,
    /// Selected transport.
    pub transport: TransportProfile,
}

impl RunRules {
    /// The rules of one run.
    pub fn new(
        options: &CopyOptions,
        source_volume: &VolumeInfo,
        destination_volume: &VolumeInfo,
        source_is_volume_root: bool,
        transport: TransportProfile,
    ) -> (rules: RunRules)
        ensures
            rules.dry_run == options.dry_run,
            rules.verify == options.verify,
            rules.include_system == options.include_system,
            rules.skip_cloud == options.skip_cloud,
            rules.replace == options.replace,
            rules.no_sparse == options.no_sparse,
            rules.large_threshold == options.spec_large_threshold(),
            rules.checkpoint_threshold == options.spec_checkpoint_threshold(),
            rules.policy == (FilesystemPolicy {
                filesystem: destination_volume.filesystem,
                capabilities: destination_volume.capabilities,
                endpoint: destination_volume.endpoint,
                source_projects_basic: source_volume.filesystem is Wsl
                    || source_volume.filesystem is Remote,
            }),
            rules.source_supports_streams == source_volume.capabilities.named_streams,
            rules.source_supports_eas == source_volume.capabilities.extended_attributes,
            rules.source_is_volume_root == source_is_volume_root,
            rules.transport == transport,
    {
        RunRules {
            dry_run: options.dry_run,
            verify: options.verify,
            include_system: options.include_system,
            skip_cloud: options.skip_cloud,
            replace: options.replace,
            no_sparse: options.no_sparse,
            large_threshold: options.large_threshold(),
            checkpoint_threshold: options.checkpoint_threshold(),
            policy: FilesystemPolicy::from_volumes(source_volume, destination_volume),
            source_supports_streams: source_volume.capabilities.named_streams,
            source_supports_eas: source_volume.capabilities.extended_attributes,
            source_is_volume_root,
            transport,
        }
    }
}

/// A file counts as large from 4 MiB on and takes checkpoints from 16 GiB on,
/// unless it is tuned otherwise.
pub proof fn thresholds_are_tuned_or_default(options: CopyOptions)
    ensures
        options.tune.large_threshold is None ==> options.spec_large_threshold() == 0x40_0000,
        options.tune.checkpoint_threshold is None ==> options.spec_checkpoint_threshold()
            == 0x4_0000_0000,
        options.tune.large_threshold matches Some(size) ==> options.spec_large_threshold() == size,
        options.tune.checkpoint_threshold matches Some(size) ==> options.spec_checkpoint_threshold()
            == size,
{
}

} // verus!
