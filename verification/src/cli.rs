//! The command line: its grammar, what a command asks for, and what the user
//! is told and asked before a copy.

use vstd::prelude::*;
use vstd::string::*;

use crate::args::{parse_profiles, parse_tune, profiles_value, tune_value};
use crate::options::{CopyOptions, DeviceClass, TuneOptions, VerifyOptions};
use crate::platform::{EndpointKind, VolumeInfo};
use crate::path::{copy_units, lossy_text, unpaired_from, WidePath};
use crate::text::{ascii_lowered, lower_text, str_eq, texts};

verus! {

/// What `--help` prints.
pub const HELP_TEXT: &'static str =
    "Reliable, high-throughput local and UNC tree copy for Windows 11\n\nUsage: bigcp [OPTIONS] <SOURCE> <DESTINATION>\n       bigcp verify <SOURCE> <DESTINATION>\n       bigcp report [--plain] <FILE>\n\nCommands:\n  verify  Fully verifies source and destination trees by reading both\n  report  Opens a saved JSON report\n\nArguments:\n  [SOURCE]       Source tree for the default copy command\n  [DESTINATION]  Destination tree for the default copy command\n\nOptions:\n      --dry-run                     Enumerate and classify only; make no destination-tree writes\n      --verify                      Read back files copied during this run and compare xxh3-128 digests\n      --include-system              Include root-level operating-system artifacts\n      --skip-cloud                  Exclude cloud placeholders instead of hydrating them\n      --replace[=<REPLACE>]         Replace differing destination files (default true) [possible values: true, false]\n      --flush                       Flush each committed file after rename and metadata\n      --no-sparse                   Expand sparse files instead of preserving sparse allocation\n      --analyze                     Collect bounded live-run insight (size-class timings, slowest files, finer stat samples) into the log and report\n      --raw-reparse                 Copy unknown reparse buffers verbatim at the user's risk\n      --fresh                       Ignore prior checkpoints and start new partials\n      --accept-degraded-filesystem  Accept timestamp/metadata degradation on FAT or exFAT destinations\n      --accept-remote-paths         Accept UNC/WSL semantic and remote-durability limitations\n      --accept-write-cache-policy   Continue without prompting when the destination drive uses the slower Windows \"Quick removal\" write-cache policy\n      --profile <CLASS[,CLASS]>     Device class (auto|nvme|sata-ssd|usb-ssd|hdd|unknown), or \"SRC,DST\"\n      --tune <KEY=VALUE,...>        Comma-separated overrides: chunk, threads, mem, large-threshold, checkpoint-threshold, same-spindle-burst (sizes accept KiB/MiB/GiB)\n      --state-dir <STATE_DIR>       Override state directory\n      --log <LOG>                   Override JSONL log path\n      --report <REPORT>             Override JSON report path\n      --plain                       Use line-oriented output\n      --no-color                    Disable terminal colors\n      --quiet                       Print only the final summary\n  -h, --help                        Print help\n  -V, --version                     Print version\n\nExamples:\n  bigcp C:\\source D:\\backup\n  bigcp C:\\source D:\\backup --dry-run\n  bigcp C:\\source D:\\backup --verify --quiet\n  bigcp \\\\server\\share\\source D:\\backup --accept-remote-paths\n  bigcp verify C:\\source D:\\backup\n  bigcp report C:\\audit\\run.report.json\n";

/// What `verify --help` prints.
pub const VERIFY_HELP_TEXT: &'static str =
    "Fully verifies source and destination trees by reading both\n\nUsage: bigcp verify <SOURCE> <DESTINATION>\n\nArguments:\n  <SOURCE>       Source tree\n  <DESTINATION>  Destination tree\n\nOptions:\n  -h, --help  Print help\n";

/// What `report --help` prints.
pub const REPORT_HELP_TEXT: &'static str =
    "Opens a saved JSON report\n\nUsage: bigcp report [OPTIONS] <FILE>\n\nArguments:\n  <FILE>  Report file\n\nOptions:\n      --plain  Print the summary instead of opening a full-screen browser\n  -h, --help   Print help\n";

/// The help on a topic.
pub fn help_text(topic: HelpTopic) -> (text: &'static str)
    ensures
        text@ == (match topic {
            HelpTopic::Program => HELP_TEXT,
            HelpTopic::Verify => VERIFY_HELP_TEXT,
            HelpTopic::Report => REPORT_HELP_TEXT,
        })@,
{
    match topic {
        HelpTopic::Program => HELP_TEXT,
        HelpTopic::Verify => VERIFY_HELP_TEXT,
        HelpTopic::Report => REPORT_HELP_TEXT,
    }
}

/// The long names of the copy flags.
pub const COPY_FLAGS: [&'static str; 21] = [
    "dry-run",
    "verify",
    "include-system",
    "skip-cloud",
    "replace",
    "flush",
    "no-sparse",
    "analyze",
    "raw-reparse",
    "fresh",
    "accept-degraded-filesystem",
    "accept-remote-paths",
    "accept-write-cache-policy",
    "profile",
    "tune",
    "state-dir",
    "log",
    "report",
    "plain",
    "no-color",
    "quiet",
];

/// A copy flag.
#[derive(Clone, Copy, Debug, PartialEq, Eq, Structural)]
pub enum FlagName {
    /// `--dry-run`
    DryRun,
    /// `--verify`
    Verify,
    /// `--include-system`
    IncludeSystem,
    /// `--skip-cloud`
    SkipCloud,
    /// `--replace`
    Replace,
    /// `--flush`
    Flush,
    /// `--no-sparse`
    NoSparse,
    /// `--analyze`
    Analyze,
    /// `--raw-reparse`
    RawReparse,
    /// `--fresh`
    Fresh,
    /// `--accept-degraded-filesystem`
    AcceptDegraded,
    /// `--accept-remote-paths`
    AcceptRemote,
    /// `--accept-write-cache-policy`
    AcceptWriteCache,
    /// `--profile`
    Profile,
    /// `--tune`
    Tune,
    /// `--state-dir`
    StateDir,
    /// `--log`
    Log,
    /// `--report`
    Report,
    /// `--plain`
    Plain,
    /// `--no-color`
    NoColor,
    /// `--quiet`
    Quiet,
}

/// The flag of a long name.
pub open spec fn flag_of(name: Seq<char>) -> Option<FlagName> {
    if name == "dry-run"@ {
        Some(FlagName::DryRun)
    } else if name == "verify"@ {
        Some(FlagName::Verify)
    } else if name == "include-system"@ {
        Some(FlagName::IncludeSystem)
    } else if name == "skip-cloud"@ {
        Some(FlagName::SkipCloud)
    } else if name == "replace"@ {
        Some(FlagName::Replace)
    } else if name == "flush"@ {
        Some(FlagName::Flush)
    } else if name == "no-sparse"@ {
        Some(FlagName::NoSparse)
    } else if name == "analyze"@ {
        Some(FlagName::Analyze)
    } else if name == "raw-reparse"@ {
        Some(FlagName::RawReparse)
    } else if name == "fresh"@ {
        Some(FlagName::Fresh)
    } else if name == "accept-degraded-filesystem"@ {
        Some(FlagName::AcceptDegraded)
    } else if name == "accept-remote-paths"@ {
        Some(FlagName::AcceptRemote)
    } else if name == "accept-write-cache-policy"@ {
        Some(FlagName::AcceptWriteCache)
    } else if name == "profile"@ {
        Some(FlagName::Profile)
    } else if name == "tune"@ {
        Some(FlagName::Tune)
    } else if name == "state-dir"@ {
        Some(FlagName::StateDir)
    } else if name == "log"@ {
        Some(FlagName::Log)
    } else if name == "report"@ {
        Some(FlagName::Report)
    } else if name == "plain"@ {
        Some(FlagName::Plain)
    } else if name == "no-color"@ {
        Some(FlagName::NoColor)
    } else if name == "quiet"@ {
        Some(FlagName::Quiet)
    } else {
        None
    }
}

fn find_flag(name: &str) -> (flag: Option<FlagName>)
    ensures
        flag == flag_of(name@),
{
    if str_eq(name, "dry-run") {
        Some(FlagName::DryRun)
    } else if str_eq(name, "verify") {
        Some(FlagName::Verify)
    } else if str_eq(name, "include-system") {
        Some(FlagName::IncludeSystem)
    } else if str_eq(name, "skip-cloud") {
        Some(FlagName::SkipCloud)
    } else if str_eq(name, "replace") {
        Some(FlagName::Replace)
    } else if str_eq(name, "flush") {
        Some(FlagName::Flush)
    } else if str_eq(name, "no-sparse") {
        Some(FlagName::NoSparse)
    } else if str_eq(name, "analyze") {
        Some(FlagName::Analyze)
    } else if str_eq(name, "raw-reparse") {
        Some(FlagName::RawReparse)
    } else if str_eq(name, "fresh") {
        Some(FlagName::Fresh)
    } else if str_eq(name, "accept-degraded-filesystem") {
        Some(FlagName::AcceptDegraded)
    } else if str_eq(name, "accept-remote-paths") {
        Some(FlagName::AcceptRemote)
    } else if str_eq(name, "accept-write-cache-policy") {
        Some(FlagName::AcceptWriteCache)
    } else if str_eq(name, "profile") {
        Some(FlagName::Profile)
    } else if str_eq(name, "tune") {
        Some(FlagName::Tune)
    } else if str_eq(name, "state-dir") {
        Some(FlagName::StateDir)
    } else if str_eq(name, "log") {
        Some(FlagName::Log)
    } else if str_eq(name, "report") {
        Some(FlagName::Report)
    } else if str_eq(name, "plain") {
        Some(FlagName::Plain)
    } else if str_eq(name, "no-color") {
        Some(FlagName::NoColor)
    } else if str_eq(name, "quiet") {
        Some(FlagName::Quiet)
    } else {
        None
    }
}

/// Whether a flag needs a value.
pub open spec fn wants_value(flag: FlagName) -> bool {
    flag is Profile || flag is Tune || flag is StateDir || flag is Log || flag is Report
}

/// The flags of a copy.
#[derive(Clone, Debug, PartialEq, Eq)]
pub struct CopyFlags {
    /// Enumerate and classify only.
    pub dry_run: bool,
    /// Read back files copied during this run.
    pub verify: bool,
    /// Take root-level operating-system artifacts along.
    pub include_system: bool,
    /// Exclude cloud placeholders.
    pub skip_cloud: bool,
    /// Replace differing destination files, where it was said.
    pub replace: Option<bool>,
    /// Flush each committed file.
    pub flush: bool,
    /// Expand sparse files.
    pub no_sparse: bool,
    /// Collect bounded live-run insight.
    pub analyze: bool,
    /// Copy unknown reparse buffers verbatim.
    pub raw_reparse: bool,
    /// Ignore prior checkpoints.
    pub fresh: bool,
    /// Accept degradation on FAT or exFAT destinations.
    pub accept_degraded_filesystem: bool,
    /// Accept the limits of UNC and WSL paths.
    pub accept_remote_paths: bool,
    /// Continue on a slow write-cache policy without a prompt.
    pub accept_write_cache_policy: bool,
    /// Device classes of both sides.
    pub profile: Option<(DeviceClass, DeviceClass)>,
    /// Overrides.
    pub tune: Option<TuneOptions>,
    /// State directory.
    pub state_dir: Option<WidePath>,
    /// Log path.
    pub log: Option<WidePath>,
    /// Report path.
    pub report: Option<WidePath>,
    /// Line-oriented output.
    pub plain: bool,
    /// No terminal colors.
    pub no_color: bool,
    /// Only the final summary.
    pub quiet: bool,
}

/// The flags of a copy, as values.
pub ghost struct FlagsView {
    pub dry_run: bool,
    pub verify: bool,
    pub include_system: bool,
    pub skip_cloud: bool,
    pub replace: Option<bool>,
    pub flush: bool,
    pub no_sparse: bool,
    pub analyze: bool,
    pub raw_reparse: bool,
    pub fresh: bool,
    pub accept_degraded_filesystem: bool,
    pub accept_remote_paths: bool,
    pub accept_write_cache_policy: bool,
    pub profile: Option<(DeviceClass, DeviceClass)>,
    pub tune: Option<TuneOptions>,
    pub state_dir: Option<Seq<u16>>,
    pub log: Option<Seq<u16>>,
    pub report: Option<Seq<u16>>,
    pub plain: bool,
    pub no_color: bool,
    pub quiet: bool,
}

/// An optional path as values.
pub open spec fn opt_path(path: Option<WidePath>) -> Option<Seq<u16>> {
    match path {
        Some(path) => Some(path@),
        None => None,
    }
}

impl View for CopyFlags {
    type V = FlagsView;

    open spec fn view(&self) -> FlagsView {
        FlagsView {
            dry_run: self.dry_run,
            verify: self.verify,
            include_system: self.include_system,
            skip_cloud: self.skip_cloud,
            replace: self.replace,
            flush: self.flush,
            no_sparse: self.no_sparse,
            analyze: self.analyze,
            raw_reparse: self.raw_reparse,
            fresh: self.fresh,
            accept_degraded_filesystem: self.accept_degraded_filesystem,
            accept_remote_paths: self.accept_remote_paths,
            accept_write_cache_policy: self.accept_write_cache_policy,
            profile: self.profile,
            tune: self.tune,
            state_dir: opt_path(self.state_dir),
            log: opt_path(self.log),
            report: opt_path(self.report),
            plain: self.plain,
            no_color: self.no_color,
            quiet: self.quiet,
        }
    }
}

impl FlagsView {
    /// No flag.
    pub open spec fn none() -> FlagsView {
        FlagsView {
            dry_run: false,
            verify: false,
            include_system: false,
            skip_cloud: false,
            replace: None,
            flush: false,
            no_sparse: false,
            analyze: false,
            raw_reparse: false,
            fresh: false,
            accept_degraded_filesystem: false,
            accept_remote_paths: false,
            accept_write_cache_policy: false,
            profile: None,
            tune: None,
            state_dir: None,
            log: None,
            report: None,
            plain: false,
            no_color: false,
            quiet: false,
        }
    }

    /// Whether a flag was given.
    pub open spec fn has(self, flag: FlagName) -> bool {
        match flag {
            FlagName::DryRun => self.dry_run,
            FlagName::Verify => self.verify,
            FlagName::IncludeSystem => self.include_system,
            FlagName::SkipCloud => self.skip_cloud,
            FlagName::Replace => self.replace is Some,
            FlagName::Flush => self.flush,
            FlagName::NoSparse => self.no_sparse,
            FlagName::Analyze => self.analyze,
            FlagName::RawReparse => self.raw_reparse,
            FlagName::Fresh => self.fresh,
            FlagName::AcceptDegraded => self.accept_degraded_filesystem,
            FlagName::AcceptRemote => self.accept_remote_paths,
            FlagName::AcceptWriteCache => self.accept_write_cache_policy,
            FlagName::Profile => self.profile is Some,
            FlagName::Tune => self.tune is Some,
            FlagName::StateDir => self.state_dir is Some,
            FlagName::Log => self.log is Some,
            FlagName::Report => self.report is Some,
            FlagName::Plain => self.plain,
            FlagName::NoColor => self.no_color,
            FlagName::Quiet => self.quiet,
        }
    }

    /// With a switch turned on. Flags with a value are no switches.
    pub open spec fn switched(self, flag: FlagName) -> FlagsView {
        FlagsView {
            dry_run: self.dry_run || flag is DryRun,
            verify: self.verify || flag is Verify,
            include_system: self.include_system || flag is IncludeSystem,
            skip_cloud: self.skip_cloud || flag is SkipCloud,
            replace: if flag is Replace {
                Some(true)
            } else {
                self.replace
            },
            flush: self.flush || flag is Flush,
            no_sparse: self.no_sparse || flag is NoSparse,
            analyze: self.analyze || flag is Analyze,
            raw_reparse: self.raw_reparse || flag is RawReparse,
            fresh: self.fresh || flag is Fresh,
            accept_degraded_filesystem: self.accept_degraded_filesystem || flag
                is AcceptDegraded,
            accept_remote_paths: self.accept_remote_paths || flag is AcceptRemote,
            accept_write_cache_policy: self.accept_write_cache_policy || flag
                is AcceptWriteCache,
            plain: self.plain || flag is Plain,
            no_color: self.no_color || flag is NoColor,
            quiet: self.quiet || flag is Quiet,
            ..self
        }
    }

    /// With a value for a flag.
    pub open spec fn valued(self, flag: FlagName, value: FlagValueView) -> FlagsView {
        FlagsView {
            replace: match value {
                FlagValueView::Replace(replace) => Some(replace),
                _ => self.replace,
            },
            profile: match value {
                FlagValueView::Profile(classes) => Some(classes),
                _ => self.profile,
            },
            tune: match value {
                FlagValueView::Tune(tune) => Some(tune),
                _ => self.tune,
            },
            state_dir: if flag is StateDir && value is Path {
                Some(value->Path_0)
            } else {
                self.state_dir
            },
            log: if flag is Log && value is Path {
                Some(value->Path_0)
            } else {
                self.log
            },
            report: if flag is Report && value is Path {
                Some(value->Path_0)
            } else {
                self.report
            },
            ..self
        }
    }

    /// Whether any flag was given.
    pub open spec fn any(self) -> bool {
        self.dry_run || self.verify || self.include_system || self.skip_cloud || self.replace
            is Some || self.flush || self.no_sparse || self.analyze || self.raw_reparse
            || self.fresh || self.accept_degraded_filesystem || self.accept_remote_paths
            || self.accept_write_cache_policy || self.profile is Some || self.tune is Some
            || self.state_dir is Some || self.log is Some || self.report is Some || self.plain
            || self.no_color || self.quiet
    }
}

impl CopyFlags {
    /// No flag.
    pub fn none() -> (flags: CopyFlags)
        ensures
            flags@ == FlagsView::none(),
    {
        CopyFlags {
            dry_run: false,
            verify: false,
            include_system: false,
            skip_cloud: false,
            replace: None,
            flush: false,
            no_sparse: false,
            analyze: false,
            raw_reparse: false,
            fresh: false,
            accept_degraded_filesystem: false,
            accept_remote_paths: false,
            accept_write_cache_policy: false,
            profile: None,
            tune: None,
            state_dir: None,
            log: None,
            report: None,
            plain: false,
            no_color: false,
            quiet: false,
        }
    }

    fn has(&self, flag: FlagName) -> (given: bool)
        ensures
            given == self@.has(flag),
    {
        match flag {
            FlagName::DryRun => self.dry_run,
            FlagName::Verify => self.verify,
            FlagName::IncludeSystem => self.include_system,
            FlagName::SkipCloud => self.skip_cloud,
            FlagName::Replace => self.replace.is_some(),
            FlagName::Flush => self.flush,
            FlagName::NoSparse => self.no_sparse,
            FlagName::Analyze => self.analyze,
            FlagName::RawReparse => self.raw_reparse,
            FlagName::Fresh => self.fresh,
            FlagName::AcceptDegraded => self.accept_degraded_filesystem,
            FlagName::AcceptRemote => self.accept_remote_paths,
            FlagName::AcceptWriteCache => self.accept_write_cache_policy,
            FlagName::Profile => self.profile.is_some(),
            FlagName::Tune => self.tune.is_some(),
            FlagName::StateDir => self.state_dir.is_some(),
            FlagName::Log => self.log.is_some(),
            FlagName::Report => self.report.is_some(),
            FlagName::Plain => self.plain,
            FlagName::NoColor => self.no_color,
            FlagName::Quiet => self.quiet,
        }
    }

    fn switch(self, flag: FlagName) -> (flags: CopyFlags)
        ensures
            flags@ == self@.switched(flag),
    {
        CopyFlags {
            dry_run: self.dry_run || flag == FlagName::DryRun,
            verify: self.verify || flag == FlagName::Verify,
            include_system: self.include_system || flag == FlagName::IncludeSystem,
            skip_cloud: self.skip_cloud || flag == FlagName::SkipCloud,
            replace: if flag == FlagName::Replace {
                Some(true)
            } else {
                self.replace
            },
            flush: self.flush || flag == FlagName::Flush,
            no_sparse: self.no_sparse || flag == FlagName::NoSparse,
            analyze: self.analyze || flag == FlagName::Analyze,
            raw_reparse: self.raw_reparse || flag == FlagName::RawReparse,
            fresh: self.fresh || flag == FlagName::Fresh,
            accept_degraded_filesystem: self.accept_degraded_filesystem || flag
                == FlagName::AcceptDegraded,
            accept_remote_paths: self.accept_remote_paths || flag == FlagName::AcceptRemote,
            accept_write_cache_policy: self.accept_write_cache_policy || flag
                == FlagName::AcceptWriteCache,
            plain: self.plain || flag == FlagName::Plain,
            no_color: self.no_color || flag == FlagName::NoColor,
            quiet: self.quiet || flag == FlagName::Quiet,
            ..self
        }
    }

    fn value(&mut self, flag: FlagName, value: FlagValue)
        ensures
            final(self)@ == old(self)@.valued(flag, value@),
    {
        match value {
            FlagValue::Replace(replace) => {
                self.replace = Some(replace);
            },
            FlagValue::Profile(classes) => {
                self.profile = Some(classes);
            },
            FlagValue::Tune(tune) => {
                self.tune = Some(tune);
            },
            FlagValue::Path(path) => match flag {
                FlagName::StateDir => {
                    self.state_dir = Some(path);
                },
                FlagName::Log => {
                    self.log = Some(path);
                },
                FlagName::Report => {
                    self.report = Some(path);
                },
                _ => {},
            },
        }
    }
}

/// The value of a flag.
#[derive(Debug, PartialEq, Eq)]
pub enum FlagValue {
    /// Whether to replace.
    Replace(bool),
    /// Device classes.
    Profile((DeviceClass, DeviceClass)),
    /// Overrides.
    Tune(TuneOptions),
    /// A path.
    Path(WidePath),
}

/// The value of a flag, as values.
#[verifier::ext_equal]
pub ghost enum FlagValueView {
    Replace(bool),
    Profile((DeviceClass, DeviceClass)),
    Tune(TuneOptions),
    Path(Seq<u16>),
}

impl View for FlagValue {
    type V = FlagValueView;

    open spec fn view(&self) -> FlagValueView {
        match *self {
            FlagValue::Replace(replace) => FlagValueView::Replace(replace),
            FlagValue::Profile(classes) => FlagValueView::Profile(classes),
            FlagValue::Tune(tune) => FlagValueView::Tune(tune),
            FlagValue::Path(path) => FlagValueView::Path(path@),
        }
    }
}

/// What the argument of a flag stands for, or what is wrong with it.
pub open spec fn flag_value(flag: FlagName, value: Seq<u16>) -> Result<FlagValueView, UsageKind> {
    let text = lossy_text(value);
    match flag {
        FlagName::Replace => if text == "true"@ {
            Ok(FlagValueView::Replace(true))
        } else if text == "false"@ {
            Ok(FlagValueView::Replace(false))
        } else {
            Err(UsageKind::InvalidValue)
        },
        FlagName::Profile => if unpaired_from(value, 0) {
            Err(UsageKind::NotUnicode)
        } else {
            match profiles_value(text) {
                Ok(classes) => Ok(FlagValueView::Profile(classes)),
                Err(_) => Err(UsageKind::RejectedValue),
            }
        },
        FlagName::Tune => if unpaired_from(value, 0) {
            Err(UsageKind::NotUnicode)
        } else {
            match tune_value(text) {
                Ok(tune) => Ok(FlagValueView::Tune(tune)),
                Err(_) => Err(UsageKind::RejectedValue),
            }
        },
        FlagName::StateDir | FlagName::Log | FlagName::Report => if value.len() == 0 {
            Err(UsageKind::InvalidValue)
        } else {
            Ok(FlagValueView::Path(value))
        },
        _ => Err(UsageKind::UnexpectedValue),
    }
}

fn parse_flag_value(flag: FlagName, value: WidePath) -> (parsed: Result<FlagValue, UsageKind>)
    ensures
        match flag_value(flag, value@) {
            Ok(expected) => parsed matches Ok(found) && found@ == expected,
            Err(kind) => parsed matches Err(found) && found == kind,
        },
{
    let text = value.to_text_lossy();
    match flag {
        FlagName::Replace => {
            if str_eq(text.as_str(), "true") {
                Ok(FlagValue::Replace(true))
            } else if str_eq(text.as_str(), "false") {
                Ok(FlagValue::Replace(false))
            } else {
                Err(UsageKind::InvalidValue)
            }
        },
        FlagName::Profile => {
            if value.is_lossy() {
                return Err(UsageKind::NotUnicode);
            }
            match parse_profiles(text.as_str()) {
                Ok(classes) => Ok(FlagValue::Profile(classes)),
                Err(_) => Err(UsageKind::RejectedValue),
            }
        },
        FlagName::Tune => {
            if value.is_lossy() {
                return Err(UsageKind::NotUnicode);
            }
            match parse_tune(text.as_str()) {
                Ok(tune) => Ok(FlagValue::Tune(tune)),
                Err(_) => Err(UsageKind::RejectedValue),
            }
        },
        FlagName::StateDir | FlagName::Log | FlagName::Report => {
            if value.units.len() == 0 {
                Err(UsageKind::InvalidValue)
            } else {
                Ok(FlagValue::Path(value))
            }
        },
        _ => Err(UsageKind::UnexpectedValue),
    }
}

/// A subcommand.
#[derive(Clone, Debug, PartialEq, Eq)]
pub enum Command {
    /// Compare two trees in full.
    Verify {
        /// Source tree.
        source: WidePath,
        /// Destination tree.
        destination: WidePath,
    },
    /// Open a saved report.
    Report {
        /// Report file.
        file: WidePath,
        /// Print the summary only.
        plain: bool,
    },
}

/// A subcommand, as values.
#[verifier::ext_equal]
pub ghost enum CommandView {
    Verify { source: Seq<u16>, destination: Seq<u16> },
    Report { file: Seq<u16>, plain: bool },
}

impl View for Command {
    type V = CommandView;

    open spec fn view(&self) -> CommandView {
        match *self {
            Command::Verify { source, destination } => CommandView::Verify {
                source: source@,
                destination: destination@,
            },
            Command::Report { file, plain } => CommandView::Report { file: file@, plain },
        }
    }
}

/// A command line that follows the grammar.
#[derive(Clone, Debug, PartialEq, Eq)]
pub struct Cli {
    /// The subcommand, where there is one.
    pub command: Option<Command>,
    /// Source tree of a copy.
    pub source: Option<WidePath>,
    /// Destination tree of a copy.
    pub destination: Option<WidePath>,
    /// Flags before any subcommand.
    pub flags: CopyFlags,
}

/// A command line, as values.
#[verifier::ext_equal]
pub ghost struct CliView {
    pub command: Option<CommandView>,
    pub source: Option<Seq<u16>>,
    pub destination: Option<Seq<u16>>,
    pub flags: FlagsView,
}

impl View for Cli {
    type V = CliView;

    open spec fn view(&self) -> CliView {
        CliView {
            command: match self.command {
                Some(command) => Some(command@),
                None => None,
            },
            source: opt_path(self.source),
            destination: opt_path(self.destination),
            flags: self.flags@,
        }
    }
}

/// What help is about.
#[derive(Clone, Copy, Debug, PartialEq, Eq, Structural)]
pub enum HelpTopic {
    /// The program.
    Program,
    /// `verify`
    Verify,
    /// `report`
    Report,
}

/// What is wrong with a command line.
#[derive(Clone, Copy, Debug, PartialEq, Eq, Structural)]
pub enum UsageKind {
    /// Nothing takes the argument.
    UnexpectedArgument,
    /// An option was given before.
    RepeatedOption,
    /// A value is missing, empty, or none of those there are.
    InvalidValue,
    /// A value does not parse.
    RejectedValue,
    /// A value that is text is not valid Unicode.
    NotUnicode,
    /// A switch was given a value.
    UnexpectedValue,
    /// A subcommand lacks an argument.
    MissingArgument,
}

/// Why a command line is not carried out.
#[derive(Clone, Copy, Debug, PartialEq, Eq, Structural)]
pub enum CliExit {
    /// Help was asked for.
    Help(HelpTopic),
    /// The version was asked for.
    Version,
    /// The command line does not follow the grammar.
    Usage(UsageKind),
}

impl CliExit {
    /// The process exit code: a usage failure is never mistaken for a finished
    /// run.
    pub fn exit_code(&self) -> (code: u8)
        ensures
            code == (if self is Usage {
                5u8
            } else {
                0u8
            }),
    {
        match self {
            CliExit::Usage(_) => 5,
            _ => 0,
        }
    }
}

/// The short option for help, `h`.
pub const SHORT_HELP: u16 = 0x68;

/// The short option for the version, `V`.
pub const SHORT_VERSION: u16 = 0x56;

/// Whether an argument starts with a dash and is more than one.
pub open spec fn is_option(arg: Seq<u16>) -> bool {
    arg.len() >= 2 && arg[0] == 0x2D
}

/// Whether an argument starts with two dashes.
pub open spec fn is_long(arg: Seq<u16>) -> bool {
    arg.len() >= 2 && arg[0] == 0x2D && arg[1] == 0x2D
}

/// The place of the first equals sign from an index on, or the length.
pub open spec fn unit_equals_at(arg: Seq<u16>, at: int) -> int
    decreases arg.len() - at,
{
    if at >= arg.len() || arg[at] == 0x3D {
        at
    } else {
        unit_equals_at(arg, at + 1)
    }
}

/// The name of a long option.
pub open spec fn long_name(arg: Seq<u16>) -> Seq<char> {
    lossy_text(arg.subrange(2, unit_equals_at(arg, 2)))
}

/// The value behind the equals sign of a long option, if there is one.
pub open spec fn long_value(arg: Seq<u16>) -> Option<Seq<u16>> {
    let at = unit_equals_at(arg, 2);
    if at < arg.len() {
        Some(arg.skip(at + 1))
    } else {
        None
    }
}

/// What waits for the arguments behind it before it counts.
#[verifier::ext_equal]
pub ghost enum PendingView {
    /// An option, with its value once that was read.
    Option { flag: FlagName, value: Option<Seq<u16>> },
    /// A positional argument.
    Place(Seq<u16>),
}

/// What was read of a command line so far. The last option or positional
/// argument is pending: what is wrong with it is told only once the next
/// argument counts, or at the end.
#[verifier::ext_equal]
pub ghost struct TopView {
    pub positionals: Seq<Seq<u16>>,
    pub flags: FlagsView,
    pub pending: Option<PendingView>,
    /// Whether the next argument may be the value of the pending option.
    pub awaiting: bool,
    /// Whether only positional arguments follow.
    pub trailing: bool,
}

/// The subcommands.
#[derive(Clone, Copy, Debug, PartialEq, Eq, Structural)]
pub enum Subcommand {
    /// `verify`
    Verify,
    /// `report`
    Report,
}

/// What one argument comes to.
#[verifier::ext_equal]
pub ghost enum TopStep {
    Go(TopView),
    Sub(Subcommand),
    Exit(CliExit),
}

impl TopView {
    /// Before the first argument.
    pub open spec fn start() -> TopView {
        TopView {
            positionals: seq![],
            flags: FlagsView::none(),
            pending: None,
            awaiting: false,
            trailing: false,
        }
    }

    /// How many positional arguments there are.
    pub open spec fn placed(self) -> nat {
        self.positionals.len() + if self.pending matches Some(PendingView::Place(_)) {
            1nat
        } else {
            0nat
        }
    }

    /// With a value for an option, behind everything before it.
    pub open spec fn given(self, flag: FlagName, value: Seq<u16>) -> Result<TopView, UsageKind> {
        if self.flags.has(flag) {
            Err(UsageKind::RepeatedOption)
        } else {
            match flag_value(flag, value) {
                Ok(parsed) => Ok(TopView { flags: self.flags.valued(flag, parsed), ..self }),
                Err(kind) => Err(kind),
            }
        }
    }

    /// Once the pending argument counts.
    pub open spec fn resolved(self) -> Result<TopView, UsageKind> {
        let next = TopView { pending: None, awaiting: false, ..self };
        match self.pending {
            None => Ok(next),
            Some(PendingView::Place(arg)) => if arg.len() == 0 {
                Err(UsageKind::InvalidValue)
            } else {
                Ok(TopView { positionals: self.positionals.push(arg), ..next })
            },
            Some(PendingView::Option { flag, value }) => match value {
                None => Err(UsageKind::InvalidValue),
                Some(value) => next.given(flag, value),
            },
        }
    }

    /// With a positional argument.
    pub open spec fn place(self, arg: Seq<u16>) -> TopStep {
        if self.placed() >= 2 {
            TopStep::Exit(CliExit::Usage(UsageKind::UnexpectedArgument))
        } else {
            match self.resolved() {
                Err(kind) => TopStep::Exit(CliExit::Usage(kind)),
                Ok(next) => TopStep::Go(
                    TopView { pending: Some(PendingView::Place(arg)), ..next },
                ),
            }
        }
    }

    /// The end of the command line, once the pending argument counts.
    pub open spec fn exit(self, exit: CliExit) -> TopStep {
        match self.resolved() {
            Err(kind) => TopStep::Exit(CliExit::Usage(kind)),
            Ok(_) => TopStep::Exit(exit),
        }
    }

    /// With a long option.
    pub open spec fn long(self, arg: Seq<u16>) -> TopStep {
        let name = long_name(arg);
        let value = long_value(arg);
        match flag_of(name) {
            None => if name != "help"@ && name != "version"@ {
                TopStep::Exit(CliExit::Usage(UsageKind::UnexpectedArgument))
            } else if value is Some {
                TopStep::Exit(CliExit::Usage(UsageKind::UnexpectedValue))
            } else if name == "help"@ {
                self.exit(CliExit::Help(HelpTopic::Program))
            } else {
                self.exit(CliExit::Version)
            },
            Some(flag) => if value is Some && !wants_value(flag) && !(flag is Replace) {
                TopStep::Exit(CliExit::Usage(UsageKind::UnexpectedValue))
            } else {
                match self.resolved() {
                    Err(kind) => TopStep::Exit(CliExit::Usage(kind)),
                    Ok(next) => match value {
                        Some(value) => match next.given(flag, value) {
                            Err(kind) => TopStep::Exit(CliExit::Usage(kind)),
                            Ok(next) => TopStep::Go(next),
                        },
                        None => if wants_value(flag) {
                            TopStep::Go(
                                TopView {
                                    pending: Some(PendingView::Option { flag, value: None }),
                                    awaiting: true,
                                    ..next
                                },
                            )
                        } else if next.flags.has(flag) {
                            TopStep::Exit(CliExit::Usage(UsageKind::RepeatedOption))
                        } else {
                            TopStep::Go(TopView { flags: next.flags.switched(flag), ..next })
                        },
                    },
                }
            },
        }
    }

    /// With one more argument. Of a cluster of short options the first letter
    /// decides.
    pub open spec fn step(self, arg: Seq<u16>) -> TopStep {
        if self.trailing {
            self.place(arg)
        } else if !self.awaiting && lossy_text(arg) == "verify"@ {
            TopStep::Sub(Subcommand::Verify)
        } else if !self.awaiting && lossy_text(arg) == "report"@ {
            TopStep::Sub(Subcommand::Report)
        } else if is_long(arg) {
            if arg.len() == 2 {
                TopStep::Go(TopView { trailing: true, ..self })
            } else {
                self.long(arg)
            }
        } else if is_option(arg) {
            if arg[1] == SHORT_HELP {
                self.exit(CliExit::Help(HelpTopic::Program))
            } else if arg[1] == SHORT_VERSION {
                self.exit(CliExit::Version)
            } else {
                TopStep::Exit(CliExit::Usage(UsageKind::UnexpectedArgument))
            }
        } else if self.awaiting {
            match self.pending {
                Some(PendingView::Option { flag, .. }) => TopStep::Go(
                    TopView {
                        pending: Some(PendingView::Option { flag, value: Some(arg) }),
                        awaiting: false,
                        ..self
                    },
                ),
                _ => self.place(arg),
            }
        } else {
            self.place(arg)
        }
    }

    /// The command line once every argument counts.
    pub open spec fn finished(self, command: Option<CommandView>) -> CliView {
        CliView {
            command,
            source: if self.positionals.len() > 0 {
                Some(self.positionals[0])
            } else {
                None
            },
            destination: if self.positionals.len() > 1 {
                Some(self.positionals[1])
            } else {
                None
            },
            flags: self.flags,
        }
    }

    /// The command line at its end.
    pub open spec fn ended(self, command: Option<CommandView>) -> Result<CliView, CliExit> {
        match self.resolved() {
            Err(kind) => Err(CliExit::Usage(kind)),
            Ok(next) => Ok(next.finished(command)),
        }
    }
}

/// What was read of a subcommand so far. The last positional argument is
/// pending.
#[verifier::ext_equal]
pub ghost struct SubView {
    pub positionals: Seq<Seq<u16>>,
    pub plain: bool,
    pub pending: Option<Seq<u16>>,
    pub trailing: bool,
}

impl SubView {
    /// Before the first argument of a subcommand.
    pub open spec fn start() -> SubView {
        SubView { positionals: seq![], plain: false, pending: None, trailing: false }
    }

    /// How many positional arguments there are.
    pub open spec fn placed(self) -> nat {
        self.positionals.len() + if self.pending is Some {
            1nat
        } else {
            0nat
        }
    }

    /// Once the pending argument counts.
    pub open spec fn resolved(self) -> Result<SubView, CliExit> {
        match self.pending {
            None => Ok(self),
            Some(arg) => if arg.len() == 0 {
                Err(CliExit::Usage(UsageKind::InvalidValue))
            } else {
                Ok(SubView { positionals: self.positionals.push(arg), pending: None, ..self })
            },
        }
    }

    /// With a positional argument.
    pub open spec fn place(self, sub: Subcommand, arg: Seq<u16>) -> Result<SubView, CliExit> {
        if self.placed() >= places(sub) {
            Err(CliExit::Usage(UsageKind::UnexpectedArgument))
        } else {
            match self.resolved() {
                Err(exit) => Err(exit),
                Ok(next) => Ok(SubView { pending: Some(arg), ..next }),
            }
        }
    }

    /// The end of the command line, once the pending argument counts.
    pub open spec fn helped(self, sub: Subcommand) -> Result<SubView, CliExit> {
        match self.resolved() {
            Err(exit) => Err(exit),
            Ok(_) => Err(CliExit::Help(topic_of(sub))),
        }
    }

    /// With a long option.
    pub open spec fn long(self, sub: Subcommand, arg: Seq<u16>) -> Result<SubView, CliExit> {
        let name = long_name(arg);
        if name != "help"@ && !(sub is Report && name == "plain"@) {
            Err(CliExit::Usage(UsageKind::UnexpectedArgument))
        } else if long_value(arg) is Some {
            Err(CliExit::Usage(UsageKind::UnexpectedValue))
        } else if name == "help"@ {
            self.helped(sub)
        } else {
            match self.resolved() {
                Err(exit) => Err(exit),
                Ok(next) => if next.plain {
                    Err(CliExit::Usage(UsageKind::RepeatedOption))
                } else {
                    Ok(SubView { plain: true, ..next })
                },
            }
        }
    }

    /// With one more argument.
    pub open spec fn step(self, sub: Subcommand, arg: Seq<u16>) -> Result<SubView, CliExit> {
        if self.trailing || !is_option(arg) {
            self.place(sub, arg)
        } else if is_long(arg) {
            if arg.len() == 2 {
                Ok(SubView { trailing: true, ..self })
            } else {
                self.long(sub, arg)
            }
        } else if arg[1] == SHORT_HELP {
            self.helped(sub)
        } else {
            Err(CliExit::Usage(UsageKind::UnexpectedArgument))
        }
    }

    /// The subcommand once every argument is read.
    pub open spec fn finished(self, sub: Subcommand) -> Result<CommandView, CliExit> {
        match self.resolved() {
            Err(exit) => Err(exit),
            Ok(last) => if last.positionals.len() < places(sub) {
                Err(CliExit::Usage(UsageKind::MissingArgument))
            } else {
                Ok(
                    match sub {
                        Subcommand::Verify => CommandView::Verify {
                            source: last.positionals[0],
                            destination: last.positionals[1],
                        },
                        Subcommand::Report => CommandView::Report {
                            file: last.positionals[0],
                            plain: last.plain,
                        },
                    },
                )
            },
        }
    }
}

/// How many positional arguments a subcommand takes.
pub open spec fn places(sub: Subcommand) -> nat {
    if sub is Verify {
        2
    } else {
        1
    }
}

/// The help of a subcommand.
pub open spec fn topic_of(sub: Subcommand) -> HelpTopic {
    if sub is Verify {
        HelpTopic::Verify
    } else {
        HelpTopic::Report
    }
}

/// What the arguments of a subcommand stand for.
pub open spec fn sub_value(sub: Subcommand, state: SubView, args: Seq<Seq<u16>>) -> Result<
    CommandView,
    CliExit,
>
    decreases args.len(),
{
    if args.len() == 0 {
        state.finished(sub)
    } else {
        match state.step(sub, args[0]) {
            Err(exit) => Err(exit),
            Ok(next) => sub_value(sub, next, args.drop_first()),
        }
    }
}

/// What arguments stand for, behind what was read before. What is wrong with a
/// subcommand is told before what is wrong with the argument in front of it.
pub open spec fn cli_value(state: TopView, args: Seq<Seq<u16>>) -> Result<CliView, CliExit>
    decreases args.len(),
{
    if args.len() == 0 {
        state.ended(None)
    } else {
        match state.step(args[0]) {
            TopStep::Exit(exit) => Err(exit),
            TopStep::Sub(sub) => match sub_value(sub, SubView::start(), args.drop_first()) {
                Err(exit) => Err(exit),
                Ok(command) => state.ended(Some(command)),
            },
            TopStep::Go(next) => cli_value(next, args.drop_first()),
        }
    }
}

/// Arguments as values.
pub open spec fn arg_views(args: Seq<WidePath>) -> Seq<Seq<u16>> {
    args.map_values(|arg: WidePath| arg@)
}

fn takes_dash(arg: &WidePath) -> (dash: bool)
    ensures
        dash == is_option(arg@),
{
    arg.units.len() >= 2 && arg.units[0] == 0x2D
}

fn find_unit_equals(arg: &WidePath, from: usize) -> (at: usize)
    requires
        from <= arg.units.len(),
    ensures
        at == unit_equals_at(arg@, from as int),
        from <= at <= arg.units.len(),
{
    let mut at: usize = from;
    while at < arg.units.len() && arg.units[at] != 0x3D
        invariant
            from <= at <= arg.units.len(),
            unit_equals_at(arg@, from as int) == unit_equals_at(arg@, at as int),
        decreases arg.units.len() - at,
    {
        at = at + 1;
    }
    at
}

/// Splits a long option into its name and its value.
fn split_long(arg: &WidePath) -> (split: (String, Option<WidePath>))
    requires
        is_long(arg@),
    ensures
        split.0@ == long_name(arg@),
        opt_path(split.1) == long_value(arg@),
{
    let units = arg.units.as_slice();
    let at: usize = find_unit_equals(arg, 2);
    let name = (WidePath { units: copy_units(units, 2, at) }).to_text_lossy();
    let value = if at < arg.units.len() {
        let value = WidePath { units: copy_units(units, at + 1, units.len()) };
        assert(value@ =~= arg@.skip(at as int + 1));
        Some(value)
    } else {
        None
    };
    (name, value)
}

enum Pending {
    Option { flag: FlagName, value: Option<WidePath> },
    Place(WidePath),
}

impl View for Pending {
    type V = PendingView;

    closed spec fn view(&self) -> PendingView {
        match *self {
            Pending::Option { flag, value } => PendingView::Option { flag, value: opt_path(value) },
            Pending::Place(arg) => PendingView::Place(arg@),
        }
    }
}

struct TopParser {
    positionals: Vec<WidePath>,
    flags: CopyFlags,
    pending: Option<Pending>,
    awaiting: bool,
    trailing: bool,
}

impl View for TopParser {
    type V = TopView;

    closed spec fn view(&self) -> TopView {
        TopView {
            positionals: arg_views(self.positionals@),
            flags: self.flags@,
            pending: match self.pending {
                Some(pending) => Some(pending@),
                None => None,
            },
            awaiting: self.awaiting,
            trailing: self.trailing,
        }
    }
}

enum Taken {
    Go,
    Sub(Subcommand),
    Exit(CliExit),
}

spec fn taken_is(taken: Taken, after: TopView, step: TopStep) -> bool {
    match step {
        TopStep::Go(next) => taken is Go && after == next,
        TopStep::Sub(sub) => taken == Taken::Sub(sub),
        TopStep::Exit(exit) => taken == Taken::Exit(exit),
    }
}

impl TopParser {
    fn give(&mut self, flag: FlagName, value: WidePath) -> (given: Result<(), UsageKind>)
        ensures
            match old(self)@.given(flag, value@) {
                Ok(next) => given is Ok && final(self)@ == next,
                Err(kind) => given == Err::<(), UsageKind>(kind),
            },
    {
        if self.flags.has(flag) {
            return Err(UsageKind::RepeatedOption);
        }
        match parse_flag_value(flag, value) {
            Ok(parsed) => {
                self.flags.value(flag, parsed);
                Ok(())
            },
            Err(kind) => Err(kind),
        }
    }

    fn resolve(&mut self) -> (resolved: Result<(), UsageKind>)
        ensures
            match old(self)@.resolved() {
                Ok(next) => resolved is Ok && final(self)@ == next,
                Err(kind) => resolved == Err::<(), UsageKind>(kind),
            },
    {
        let ghost before = self@;
        let mut pending: Option<Pending> = None;
        std::mem::swap(&mut pending, &mut self.pending);
        self.awaiting = false;
        let ghost next = TopView { pending: None, awaiting: false, ..before };
        assert(self@ =~= next);
        match pending {
            None => Ok(()),
            Some(Pending::Place(arg)) => {
                if arg.units.len() == 0 {
                    return Err(UsageKind::InvalidValue);
                }
                let ghost added = arg@;
                self.positionals.push(arg);
                assert(self@ =~= (TopView {
                    positionals: before.positionals.push(added),
                    ..next
                }));
                Ok(())
            },
            Some(Pending::Option { flag, value }) => match value {
                None => Err(UsageKind::InvalidValue),
                Some(value) => self.give(flag, value),
            },
        }
    }

    fn place(&mut self, arg: &WidePath) -> (taken: Taken)
        ensures
            taken_is(taken, final(self)@, old(self)@.place(arg@)),
    {
        let waiting: usize = match &self.pending {
            Some(Pending::Place(_)) => 1,
            _ => 0,
        };
        assert(self@.positionals.len() == self.positionals.len());
        if self.positionals.len() >= 2 || self.positionals.len() + waiting >= 2 {
            return Taken::Exit(CliExit::Usage(UsageKind::UnexpectedArgument));
        }
        match self.resolve() {
            Err(kind) => Taken::Exit(CliExit::Usage(kind)),
            Ok(_) => {
                self.pending = Some(Pending::Place(arg.copied()));
                Taken::Go
            },
        }
    }

    fn exit(&mut self, exit: CliExit) -> (taken: Taken)
        ensures
            taken_is(taken, final(self)@, old(self)@.exit(exit)),
    {
        match self.resolve() {
            Err(kind) => Taken::Exit(CliExit::Usage(kind)),
            Ok(_) => Taken::Exit(exit),
        }
    }

    fn long(&mut self, arg: &WidePath) -> (taken: Taken)
        requires
            is_long(arg@),
        ensures
            taken_is(taken, final(self)@, old(self)@.long(arg@)),
    {
        let (name, value) = split_long(arg);
        let flag = match find_flag(name.as_str()) {
            None => {
                let help = str_eq(name.as_str(), "help");
                if !help && !str_eq(name.as_str(), "version") {
                    return Taken::Exit(CliExit::Usage(UsageKind::UnexpectedArgument));
                }
                if value.is_some() {
                    return Taken::Exit(CliExit::Usage(UsageKind::UnexpectedValue));
                }
                return self.exit(
                    if help {
                        CliExit::Help(HelpTopic::Program)
                    } else {
                        CliExit::Version
                    },
                );
            },
            Some(flag) => flag,
        };
        let wants = matches!(
            flag,
            FlagName::Profile | FlagName::Tune | FlagName::StateDir | FlagName::Log
                | FlagName::Report
        );
        if value.is_some() && !wants && flag != FlagName::Replace {
            return Taken::Exit(CliExit::Usage(UsageKind::UnexpectedValue));
        }
        match self.resolve() {
            Err(kind) => {
                return Taken::Exit(CliExit::Usage(kind));
            },
            Ok(_) => {},
        }
        if let Some(value) = value {
            return match self.give(flag, value) {
                Err(kind) => Taken::Exit(CliExit::Usage(kind)),
                Ok(_) => Taken::Go,
            };
        }
        if wants {
            self.pending = Some(Pending::Option { flag, value: None });
            self.awaiting = true;
            return Taken::Go;
        }
        if self.flags.has(flag) {
            return Taken::Exit(CliExit::Usage(UsageKind::RepeatedOption));
        }
        let mut flags = CopyFlags::none();
        std::mem::swap(&mut flags, &mut self.flags);
        self.flags = flags.switch(flag);
        Taken::Go
    }

    fn step(&mut self, arg: &WidePath) -> (taken: Taken)
        ensures
            taken_is(taken, final(self)@, old(self)@.step(arg@)),
            taken is Sub ==> final(self)@ == old(self)@,
    {
        if self.trailing {
            return self.place(arg);
        }
        if !self.awaiting {
            let text = arg.to_text_lossy();
            if str_eq(text.as_str(), "verify") {
                return Taken::Sub(Subcommand::Verify);
            }
            if str_eq(text.as_str(), "report") {
                return Taken::Sub(Subcommand::Report);
            }
        }
        if takes_dash(arg) {
            if arg.units[1] == 0x2D {
                if arg.units.len() == 2 {
                    self.trailing = true;
                    return Taken::Go;
                }
                return self.long(arg);
            }
            if arg.units[1] == SHORT_HELP {
                return self.exit(CliExit::Help(HelpTopic::Program));
            }
            if arg.units[1] == SHORT_VERSION {
                return self.exit(CliExit::Version);
            }
            return Taken::Exit(CliExit::Usage(UsageKind::UnexpectedArgument));
        }
        if self.awaiting {
            let flag: Option<FlagName> = match &self.pending {
                Some(Pending::Option { flag, .. }) => Some(*flag),
                _ => None,
            };
            if let Some(flag) = flag {
                self.pending = Some(Pending::Option { flag, value: Some(arg.copied()) });
                self.awaiting = false;
                return Taken::Go;
            }
        }
        self.place(arg)
    }

    fn finish(self, command: Option<Command>) -> (cli: Result<Cli, CliExit>)
        ensures
            match self@.ended(
                match command {
                    Some(command) => Some(command@),
                    None => None,
                },
            ) {
                Ok(expected) => cli matches Ok(found) && found@ == expected,
                Err(exit) => cli == Err::<Cli, CliExit>(exit),
            },
    {
        let mut last = self;
        match last.resolve() {
            Err(kind) => {
                return Err(CliExit::Usage(kind));
            },
            Ok(_) => {},
        }
        assert(last@.positionals.len() == last.positionals.len());
        let source = if last.positionals.len() > 0 {
            Some(last.positionals[0].copied())
        } else {
            None
        };
        let destination = if last.positionals.len() > 1 {
            Some(last.positionals[1].copied())
        } else {
            None
        };
        Ok(Cli { command, source, destination, flags: last.flags })
    }
}

struct SubParser {
    positionals: Vec<WidePath>,
    plain: bool,
    pending: Option<WidePath>,
    trailing: bool,
}

impl View for SubParser {
    type V = SubView;

    closed spec fn view(&self) -> SubView {
        SubView {
            positionals: arg_views(self.positionals@),
            plain: self.plain,
            pending: opt_path(self.pending),
            trailing: self.trailing,
        }
    }
}

fn most_places(sub: Subcommand) -> (most: usize)
    ensures
        most == places(sub),
{
    match sub {
        Subcommand::Verify => 2,
        Subcommand::Report => 1,
    }
}

spec fn sub_is(taken: Result<(), CliExit>, after: SubView, step: Result<SubView, CliExit>) -> bool {
    match step {
        Ok(next) => taken is Ok && after == next,
        Err(exit) => taken == Err::<(), CliExit>(exit),
    }
}

impl SubParser {
    fn resolve(&mut self) -> (resolved: Result<(), CliExit>)
        ensures
            sub_is(resolved, final(self)@, old(self)@.resolved()),
    {
        let ghost before = self@;
        let mut pending: Option<WidePath> = None;
        std::mem::swap(&mut pending, &mut self.pending);
        assert(self@ =~= (SubView { pending: None, ..before }));
        if let Some(arg) = pending {
            if arg.units.len() == 0 {
                return Err(CliExit::Usage(UsageKind::InvalidValue));
            }
            let ghost added = arg@;
            self.positionals.push(arg);
            assert(self@ =~= (SubView {
                positionals: before.positionals.push(added),
                pending: None,
                ..before
            }));
        }
        Ok(())
    }

    fn place(&mut self, sub: Subcommand, arg: &WidePath) -> (taken: Result<(), CliExit>)
        ensures
            sub_is(taken, final(self)@, old(self)@.place(sub, arg@)),
    {
        let waiting: usize = if self.pending.is_some() {
            1
        } else {
            0
        };
        let most: usize = most_places(sub);
        assert(self@.positionals.len() == self.positionals.len());
        if self.positionals.len() >= most || self.positionals.len() + waiting >= most {
            return Err(CliExit::Usage(UsageKind::UnexpectedArgument));
        }
        match self.resolve() {
            Err(exit) => Err(exit),
            Ok(_) => {
                self.pending = Some(arg.copied());
                Ok(())
            },
        }
    }

    fn help(&mut self, sub: Subcommand) -> (taken: Result<(), CliExit>)
        ensures
            sub_is(taken, final(self)@, old(self)@.helped(sub)),
    {
        match self.resolve() {
            Err(exit) => Err(exit),
            Ok(_) => Err(
                CliExit::Help(
                    match sub {
                        Subcommand::Verify => HelpTopic::Verify,
                        Subcommand::Report => HelpTopic::Report,
                    },
                ),
            ),
        }
    }

    fn step(&mut self, sub: Subcommand, arg: &WidePath) -> (taken: Result<(), CliExit>)
        ensures
            sub_is(taken, final(self)@, old(self)@.step(sub, arg@)),
    {
        if self.trailing || !takes_dash(arg) {
            return self.place(sub, arg);
        }
        if arg.units[1] != 0x2D {
            if arg.units[1] == SHORT_HELP {
                return self.help(sub);
            }
            return Err(CliExit::Usage(UsageKind::UnexpectedArgument));
        }
        if arg.units.len() == 2 {
            self.trailing = true;
            return Ok(());
        }
        let (name, value) = split_long(arg);
        let help = str_eq(name.as_str(), "help");
        if !help && !(sub == Subcommand::Report && str_eq(name.as_str(), "plain")) {
            return Err(CliExit::Usage(UsageKind::UnexpectedArgument));
        }
        if value.is_some() {
            return Err(CliExit::Usage(UsageKind::UnexpectedValue));
        }
        if help {
            return self.help(sub);
        }
        match self.resolve() {
            Err(exit) => {
                return Err(exit);
            },
            Ok(_) => {},
        }
        if self.plain {
            return Err(CliExit::Usage(UsageKind::RepeatedOption));
        }
        self.plain = true;
        Ok(())
    }

    fn finish(self, sub: Subcommand) -> (command: Result<Command, CliExit>)
        ensures
            match self@.finished(sub) {
                Ok(expected) => command matches Ok(found) && found@ == expected,
                Err(exit) => command == Err::<Command, CliExit>(exit),
            },
    {
        let mut last = self;
        match last.resolve() {
            Err(exit) => {
                return Err(exit);
            },
            Ok(_) => {},
        }
        assert(last@.positionals.len() == last.positionals.len());
        if last.positionals.len() < most_places(sub) {
            return Err(CliExit::Usage(UsageKind::MissingArgument));
        }
        match sub {
            Subcommand::Verify => Ok(
                Command::Verify {
                    source: last.positionals[0].copied(),
                    destination: last.positionals[1].copied(),
                },
            ),
            Subcommand::Report => Ok(
                Command::Report { file: last.positionals[0].copied(), plain: last.plain },
            ),
        }
    }
}

fn parse_sub(sub: Subcommand, args: &Vec<WidePath>, from: usize) -> (command: Result<
    Command,
    CliExit,
>)
    requires
        from <= args.len(),
    ensures
        match sub_value(sub, SubView::start(), arg_views(args@).skip(from as int)) {
            Ok(expected) => command matches Ok(found) && found@ == expected,
            Err(exit) => command == Err::<Command, CliExit>(exit),
        },
{
    let ghost views = arg_views(args@);
    let mut parser = SubParser {
        positionals: Vec::new(),
        plain: false,
        pending: None,
        trailing: false,
    };
    assert(parser@ =~= SubView::start());
    let mut at: usize = from;
    while at < args.len()
        invariant
            from <= at <= args.len(),
            views == arg_views(args@),
            views.len() == args.len(),
            sub_value(sub, SubView::start(), views.skip(from as int)) == sub_value(
                sub,
                parser@,
                views.skip(at as int),
            ),
        decreases args.len() - at,
    {
        let ghost rest = views.skip(at as int);
        assert(rest[0] == args@[at as int]@);
        assert(rest.drop_first() =~= views.skip(at as int + 1));
        match parser.step(sub, &args[at]) {
            Err(exit) => {
                return Err(exit);
            },
            Ok(_) => {},
        }
        at = at + 1;
    }
    assert(views.skip(at as int) =~= Seq::<Seq<u16>>::empty());
    parser.finish(sub)
}

impl Cli {
    /// Reads a command line, whose first argument is the program's name.
    pub fn try_parse_from(args: &Vec<WidePath>) -> (parsed: Result<Cli, CliExit>)
        ensures
            match cli_value(
                TopView::start(),
                if args@.len() > 0 {
                    arg_views(args@).drop_first()
                } else {
                    seq![]
                },
            ) {
                Ok(expected) => parsed matches Ok(cli) && cli@ == expected,
                Err(exit) => parsed == Err::<Cli, CliExit>(exit),
            },
    {
        let ghost views = arg_views(args@);
        let mut parser = TopParser {
            positionals: Vec::new(),
            flags: CopyFlags::none(),
            pending: None,
            awaiting: false,
            trailing: false,
        };
        assert(parser@ =~= TopView::start());
        let ghost given = if args@.len() > 0 {
            views.drop_first()
        } else {
            seq![]
        };
        let mut at: usize = if args.len() > 0 {
            1
        } else {
            0
        };
        assert(views.skip(at as int) =~= given);
        while at < args.len()
            invariant
                at <= args.len(),
                views == arg_views(args@),
                views.len() == args.len(),
                cli_value(TopView::start(), given) == cli_value(parser@, views.skip(at as int)),
                given == (if args@.len() > 0 {
                    arg_views(args@).drop_first()
                } else {
                    seq![]
                }),
            decreases args.len() - at,
        {
            let ghost rest = views.skip(at as int);
            assert(rest[0] == args@[at as int]@);
            assert(rest.drop_first() =~= views.skip(at as int + 1));
            match parser.step(&args[at]) {
                Taken::Exit(exit) => {
                    return Err(exit);
                },
                Taken::Sub(sub) => {
                    return match parse_sub(sub, args, at + 1) {
                        Err(exit) => Err(exit),
                        Ok(command) => parser.finish(Some(command)),
                    };
                },
                Taken::Go => {},
            }
            at = at + 1;
        }
        assert(views.skip(at as int) =~= Seq::<Seq<u16>>::empty());
        parser.finish(None)
    }
}

/// How a copy shows its progress.
#[derive(Clone, Copy, Debug, PartialEq, Eq, Structural)]
pub enum CopyDisplayMode {
    /// On a full screen.
    Dashboard {
        /// Whether colors are used.
        color_enabled: bool,
    },
    /// Line by line.
    Plain {
        /// Whether only the final summary is printed.
        quiet: bool,
    },
}

/// How a copy shows its progress. Colors are chosen apart from the dashboard.
pub fn copy_display_mode(flags: &CopyFlags, color_disabled: bool, stdout_terminal: bool) -> (mode:
    CopyDisplayMode)
    ensures
        mode == (if flags.plain || flags.quiet || !stdout_terminal {
            CopyDisplayMode::Plain { quiet: flags.quiet }
        } else {
            CopyDisplayMode::Dashboard { color_enabled: !color_disabled }
        }),
{
    if flags.plain || flags.quiet || !stdout_terminal {
        CopyDisplayMode::Plain { quiet: flags.quiet }
    } else {
        CopyDisplayMode::Dashboard { color_enabled: !color_disabled }
    }
}

/// What is said of copy flags before a subcommand.
pub const FLAG_COMPLAINT: &'static str =
    "copy flags are not accepted by verify or report subcommands (subcommand-specific flags go after the subcommand, e.g. bigcp report FILE --plain)";

/// Refuses copy flags before a subcommand.
pub fn reject_copy_only_flags(flags: &CopyFlags) -> (verdict: Result<(), (u8, String)>)
    ensures
        if flags@.any() {
            verdict matches Err((code, text)) && code == 5 && text@ == FLAG_COMPLAINT@
        } else {
            verdict is Ok
        },
{
    let used = flags.dry_run || flags.verify || flags.include_system || flags.skip_cloud
        || flags.replace.is_some() || flags.flush || flags.no_sparse || flags.analyze
        || flags.raw_reparse || flags.fresh || flags.accept_degraded_filesystem
        || flags.accept_remote_paths || flags.accept_write_cache_policy
        || flags.profile.is_some() || flags.tune.is_some() || flags.state_dir.is_some()
        || flags.log.is_some() || flags.report.is_some() || flags.plain || flags.no_color
        || flags.quiet;
    if used {
        Err((5, FLAG_COMPLAINT.to_owned()))
    } else {
        Ok(())
    }
}

/// What a command line asks for.
#[derive(Clone, Debug, PartialEq, Eq)]
pub enum Plan {
    /// Compare two trees.
    Verify(VerifyOptions),
    /// Open a report.
    Report {
        /// Report file.
        file: WidePath,
        /// Print the summary only.
        plain: bool,
    },
    /// Copy a tree.
    Copy {
        /// Source tree.
        source: WidePath,
        /// Destination tree.
        destination: WidePath,
        /// The flags.
        flags: CopyFlags,
    },
}

/// What a command line asks for, as values.
#[verifier::ext_equal]
pub ghost enum PlanView {
    Verify { source: Seq<u16>, destination: Seq<u16> },
    Report { file: Seq<u16>, plain: bool },
    Copy { source: Seq<u16>, destination: Seq<u16>, flags: FlagsView },
}

impl View for Plan {
    type V = PlanView;

    open spec fn view(&self) -> PlanView {
        match *self {
            Plan::Verify(options) => PlanView::Verify {
                source: options.source@,
                destination: options.destination@,
            },
            Plan::Report { file, plain } => PlanView::Report { file: file@, plain },
            Plan::Copy { source, destination, flags } => PlanView::Copy {
                source: source@,
                destination: destination@,
                flags: flags@,
            },
        }
    }
}

/// What a command line asks for, or what is wrong with it.
pub open spec fn planned(cli: CliView) -> Result<PlanView, Seq<char>> {
    match cli.command {
        Some(command) => if cli.flags.any() {
            Err(FLAG_COMPLAINT@)
        } else {
            match command {
                CommandView::Verify { source, destination } => Ok(
                    PlanView::Verify { source, destination },
                ),
                CommandView::Report { file, plain } => Ok(PlanView::Report { file, plain }),
            }
        },
        None => match (cli.source, cli.destination) {
            (Some(source), Some(destination)) => Ok(
                PlanView::Copy { source, destination, flags: cli.flags },
            ),
            _ => Err("copy requires SRC and DST; see --help"@),
        },
    }
}

/// What a command line asks for. Whatever is wrong with it is found before any
/// I/O, with exit code 5.
pub fn execute(cli: Cli) -> (plan: Result<Plan, (u8, String)>)
    ensures
        match planned(cli@) {
            Ok(expected) => plan matches Ok(found) && found@ == expected,
            Err(complaint) => plan matches Err((code, text)) && code == 5 && text@ == complaint,
        },
{
    match cli.command {
        Some(command) => {
            match reject_copy_only_flags(&cli.flags) {
                Err(failure) => {
                    return Err(failure);
                },
                Ok(_) => {},
            }
            match command {
                Command::Verify { source, destination } => Ok(
                    Plan::Verify(VerifyOptions { source, destination }),
                ),
                Command::Report { file, plain } => Ok(Plan::Report { file, plain }),
            }
        },
        None => match (cli.source, cli.destination) {
            (Some(source), Some(destination)) => Ok(
                Plan::Copy { source, destination, flags: cli.flags },
            ),
            _ => Err((5, "copy requires SRC and DST; see --help".to_owned())),
        },
    }
}

/// The options of a copy.
pub open spec fn options_of(
    source: WidePath,
    destination: WidePath,
    flags: CopyFlags,
    degraded_filesystem: bool,
    remote_paths: bool,
) -> CopyOptions {
    CopyOptions {
        source,
        destination,
        dry_run: flags.dry_run,
        verify: flags.verify,
        include_system: flags.include_system,
        skip_cloud: flags.skip_cloud,
        replace: match flags.replace {
            Some(replace) => replace,
            None => true,
        },
        flush: flags.flush,
        no_sparse: flags.no_sparse,
        analyze: flags.analyze,
        raw_reparse: flags.raw_reparse,
        fresh: flags.fresh,
        accept_degraded_filesystem: degraded_filesystem,
        accept_remote_paths: remote_paths,
        state_dir: flags.state_dir,
        log_path: flags.log,
        report_path: flags.report,
        source_profile: match flags.profile {
            Some(classes) => classes.0,
            None => DeviceClass::Auto,
        },
        destination_profile: match flags.profile {
            Some(classes) => classes.1,
            None => DeviceClass::Auto,
        },
        tune: match flags.tune {
            Some(tune) => tune,
            None => TuneOptions::none(),
        },
    }
}

/// The options of a copy, from its flags and from what the user accepted.
pub fn copy_options(
    source: WidePath,
    destination: WidePath,
    flags: CopyFlags,
    degraded_filesystem: bool,
    remote_paths: bool,
) -> (options: CopyOptions)
    ensures
        options == options_of(source, destination, flags, degraded_filesystem, remote_paths),
{
    let mut options = CopyOptions::new(source, destination);
    options.dry_run = flags.dry_run;
    options.verify = flags.verify;
    options.include_system = flags.include_system;
    options.skip_cloud = flags.skip_cloud;
    options.replace = match flags.replace {
        Some(replace) => replace,
        None => true,
    };
    options.flush = flags.flush;
    options.no_sparse = flags.no_sparse;
    options.analyze = flags.analyze;
    options.raw_reparse = flags.raw_reparse;
    options.fresh = flags.fresh;
    options.accept_degraded_filesystem = degraded_filesystem;
    options.accept_remote_paths = remote_paths;
    options.state_dir = flags.state_dir;
    options.log_path = flags.log;
    options.report_path = flags.report;
    options.tune = match flags.tune {
        Some(tune) => tune,
        None => TuneOptions::default(),
    };
    if let Some((source_profile, destination_profile)) = flags.profile {
        options.source_profile = source_profile;
        options.destination_profile = destination_profile;
    }
    options
}

/// The process exit code of a finished copy.
pub fn report_exit(exit: i32) -> (code: u8)
    ensures
        code == (if 0 <= exit <= 255 {
            exit as u8
        } else {
            6u8
        }),
{
    if 0 <= exit && exit <= 255 {
        exit as u8
    } else {
        6
    }
}

/// The process exit code of a comparison of two trees.
pub fn verify_exit(failed: u64) -> (code: u8)
    ensures
        code == (if failed == 0 {
            0u8
        } else {
            2u8
        }),
{
    if failed == 0 {
        0
    } else {
        2
    }
}

/// Whether a character is Unicode white space.
pub open spec fn is_white_space(c: char) -> bool {
    let code = c as u32;
    ||| 0x09 <= code <= 0x0D
    ||| code == 0x20
    ||| code == 0x85
    ||| code == 0xA0
    ||| code == 0x1680
    ||| 0x2000 <= code <= 0x200A
    ||| code == 0x2028
    ||| code == 0x2029
    ||| code == 0x202F
    ||| code == 0x205F
    ||| code == 0x3000
}

/// A text without white space at its end.
pub open spec fn trimmed_end(text: Seq<char>) -> Seq<char>
    decreases text.len(),
{
    if text.len() > 0 && is_white_space(text.last()) {
        trimmed_end(text.drop_last())
    } else {
        text
    }
}

/// A text without white space at its start.
pub open spec fn trimmed_start(text: Seq<char>) -> Seq<char>
    decreases text.len(),
{
    if text.len() > 0 && is_white_space(text[0]) {
        trimmed_start(text.drop_first())
    } else {
        text
    }
}

fn white_space(c: char) -> (white: bool)
    ensures
        white == is_white_space(c),
{
    let code: u32 = c as u32;
    (0x09 <= code && code <= 0x0D) || code == 0x20 || code == 0x85 || code == 0xA0 || code
        == 0x1680 || (0x2000 <= code && code <= 0x200A) || code == 0x2028 || code == 0x2029
        || code == 0x202F || code == 0x205F || code == 0x3000
}

/// A line without white space around it.
pub open spec fn trimmed(text: Seq<char>) -> Seq<char> {
    trimmed_end(trimmed_start(text))
}

/// An answer as it is judged.
pub open spec fn normalized(answer: Seq<char>) -> Seq<char> {
    trimmed(ascii_lowered(answer))
}

fn normalize(answer: &str) -> (text: Vec<char>)
    ensures
        text@ == normalized(answer@),
{
    let mut text = lower_text(answer);
    let ghost whole = text@;
    while text.len() > 0 && white_space(text[0])
        invariant
            trimmed_start(whole) == trimmed_start(text@),
        decreases text.len(),
    {
        let ghost before = text@;
        let _ = text.remove(0);
        assert(text@ =~= before.drop_first());
    }
    let ghost started = text@;
    while text.len() > 0 && white_space(text[text.len() - 1])
        invariant
            trimmed_end(started) == trimmed_end(text@),
        decreases text.len(),
    {
        let ghost before = text@;
        let _ = text.pop();
        assert(text@ =~= before.drop_last());
    }
    text
}

/// Whether an answer to a prompt is a yes. A limitation has to be accepted in
/// words; a slow drive policy stands unless it is refused.
pub open spec fn is_accepted(answer: Seq<char>, degradation_confirmation: bool) -> bool {
    let text = normalized(answer);
    if degradation_confirmation {
        text == seq!['y'] || text == seq!['y', 'e', 's']
    } else {
        !(text.len() > 0 && text[0] == 'n')
    }
}

/// Whether an answer to a prompt is a yes.
pub fn prompt_answer_accepted(answer: &str, degradation_confirmation: bool) -> (accepted: bool)
    ensures
        accepted == is_accepted(answer@, degradation_confirmation),
{
    let text = normalize(answer);
    if degradation_confirmation {
        let short = text.len() == 1 && text[0] == 'y';
        let long = text.len() == 3 && text[0] == 'y' && text[1] == 'e' && text[2] == 's';
        proof {
            if short {
                assert(text@ =~= seq!['y']);
            }
            if long {
                assert(text@ =~= seq!['y', 'e', 's']);
            }
        }
        short || long
    } else {
        !(text.len() > 0 && text[0] == 'n')
    }
}

/// What is said of a destination with reduced fidelity.
pub open spec fn degraded_notice_text(source: Option<VolumeInfo>, destination: VolumeInfo) -> Seq<
    char,
> {
    "Preflight notice - reduced filesystem fidelity: copying from "@ + (match source {
        Some(volume) => volume.filesystem.spec_name(),
        None => "source"@,
    }) + " to "@ + destination.filesystem.spec_name()
        + ".\n  Creation and last-write times use the destination's coarser, range-limited representation;\n  only READONLY, HIDDEN, SYSTEM, and ARCHIVE attributes are representable. Named streams,\n  EAs, sparse layout, EFS state, ACLs, and reparse points cannot be preserved. Reparse\n  objects fail without being followed."@
        + (if destination.filesystem.spec_maximum_file_size() is Some {
        " FAT files larger than 4 GiB minus 1 byte fail before writing."@
    } else {
        seq![]
    })
        + "\n  To confirm this limitation noninteractively next time, pass --accept-degraded-filesystem."@
}

/// Where the source lies, as far as it is known.
pub open spec fn source_endpoint(source: Option<VolumeInfo>) -> EndpointKind {
    match source {
        Some(volume) => volume.endpoint,
        None => EndpointKind::Local,
    }
}

/// What is said of a remote side.
pub open spec fn remote_notice_text(source: Option<VolumeInfo>, destination: VolumeInfo) -> Seq<
    char,
> {
    "Preflight notice - remote path: source is "@ + source_endpoint(source).spec_name()
        + "; destination is "@ + destination.endpoint.spec_name()
        + ".\n  Network or WSL disconnects can interrupt open handles, and server-side cache durability and\n  optional metadata support cannot be inferred from local disk IOCTLs. bigcp keeps bounded I/O,\n  atomic-or-rerunnable publication, verification, and no retries, but cannot make the remote\n  server durable."@
        + (if source_endpoint(source) is Wsl || destination.endpoint is Wsl {
        "\n  WSL access crosses Windows/Linux 9P translation. Linux uid/gid/mode/xattrs and special\n  files are not representable by this Win32 engine; unsupported reparse objects fail, and\n  case-colliding names fail when the destination is case-insensitive. Microsoft recommends\n  native Linux tools for sustained Linux-filesystem workloads because \\\\wsl.localhost I/O is slower."@
    } else {
        seq![]
    })
        + "\n  To confirm this limitation noninteractively next time, pass --accept-remote-paths."@
}

/// What is said of a slow write-cache policy.
pub const QUICK_REMOVAL_NOTICE: &'static str =
    "Preflight notice - destination performance: write caching is disabled (Windows 'Quick removal' policy).\n  Copies with many small files run several times slower this way (~3.4x measured).\n  To speed it up: Device Manager > the drive > Policies > 'Better performance', and check\n  'Enable write caching on the device'. Leave 'Turn off Windows write-cache buffer flushing'\n  UNCHECKED \u{2014} that setting risks filesystem corruption on power loss, which a re-run cannot\n  repair. With caching on, always use Safely Remove Hardware before unplugging.\n  To continue without this prompt next time, pass --accept-write-cache-policy.";

/// The notices before a copy, in order.
pub open spec fn spec_notices(
    source: Option<VolumeInfo>,
    destination: VolumeInfo,
    quick_removal: bool,
) -> Seq<Seq<char>> {
    let fidelity = if destination.filesystem.spec_is_fat_family() {
        seq![degraded_notice_text(source, destination)]
    } else {
        seq![]
    };
    let remote = if source_endpoint(source).spec_is_remote()
        || destination.endpoint.spec_is_remote() {
        fidelity.push(remote_notice_text(source, destination))
    } else {
        fidelity
    };
    if quick_removal {
        remote.push(QUICK_REMOVAL_NOTICE@)
    } else {
        remote
    }
}

fn degraded_notice(source: &Option<VolumeInfo>, destination: &VolumeInfo) -> (text: String)
    ensures
        text@ == degraded_notice_text(*source, *destination),
{
    let mut text =
        "Preflight notice - reduced filesystem fidelity: copying from ".to_owned();
    match source {
        Some(volume) => {
            text.append(volume.filesystem.name());
        },
        None => {
            text.append("source");
        },
    }
    text.append(" to ");
    text.append(destination.filesystem.name());
    text.append(
        ".\n  Creation and last-write times use the destination's coarser, range-limited representation;\n  only READONLY, HIDDEN, SYSTEM, and ARCHIVE attributes are representable. Named streams,\n  EAs, sparse layout, EFS state, ACLs, and reparse points cannot be preserved. Reparse\n  objects fail without being followed.",
    );
    if destination.filesystem.maximum_file_size().is_some() {
        text.append(" FAT files larger than 4 GiB minus 1 byte fail before writing.");
    }
    text.append(
        "\n  To confirm this limitation noninteractively next time, pass --accept-degraded-filesystem.",
    );
    assert(text@ =~= degraded_notice_text(*source, *destination));
    text
}

fn endpoint_of(source: &Option<VolumeInfo>) -> (endpoint: EndpointKind)
    ensures
        endpoint == source_endpoint(*source),
{
    match source {
        Some(volume) => volume.endpoint,
        None => EndpointKind::Local,
    }
}

fn remote_notice(source: &Option<VolumeInfo>, destination: &VolumeInfo) -> (text: String)
    ensures
        text@ == remote_notice_text(*source, *destination),
{
    let endpoint = endpoint_of(source);
    let mut text = "Preflight notice - remote path: source is ".to_owned();
    text.append(endpoint.name());
    text.append("; destination is ");
    text.append(destination.endpoint.name());
    text.append(
        ".\n  Network or WSL disconnects can interrupt open handles, and server-side cache durability and\n  optional metadata support cannot be inferred from local disk IOCTLs. bigcp keeps bounded I/O,\n  atomic-or-rerunnable publication, verification, and no retries, but cannot make the remote\n  server durable.",
    );
    if endpoint == EndpointKind::Wsl || destination.endpoint == EndpointKind::Wsl {
        text.append(
            "\n  WSL access crosses Windows/Linux 9P translation. Linux uid/gid/mode/xattrs and special\n  files are not representable by this Win32 engine; unsupported reparse objects fail, and\n  case-colliding names fail when the destination is case-insensitive. Microsoft recommends\n  native Linux tools for sustained Linux-filesystem workloads because \\\\wsl.localhost I/O is slower.",
        );
    }
    text.append(
        "\n  To confirm this limitation noninteractively next time, pass --accept-remote-paths.",
    );
    assert(text@ =~= remote_notice_text(*source, *destination));
    text
}

/// The notices that are printed before a copy, whether or not anything is
/// asked.
pub fn preflight_notices(
    source: &Option<VolumeInfo>,
    destination: &VolumeInfo,
    quick_removal: bool,
) -> (notices: Vec<String>)
    ensures
        texts(notices@) == spec_notices(*source, *destination, quick_removal),
{
    let mut notices: Vec<String> = Vec::new();
    assert(texts(notices@) =~= Seq::<Seq<char>>::empty());
    if destination.filesystem.is_fat_family() {
        notices.push(degraded_notice(source, destination));
        assert(texts(notices@) =~= seq![degraded_notice_text(*source, *destination)]);
    }
    if endpoint_of(source).is_remote() || destination.endpoint.is_remote() {
        let ghost before = texts(notices@);
        notices.push(remote_notice(source, destination));
        assert(texts(notices@) =~= before.push(remote_notice_text(*source, *destination)));
    }
    if quick_removal {
        let ghost before = texts(notices@);
        notices.push(QUICK_REMOVAL_NOTICE.to_owned());
        assert(texts(notices@) =~= before.push(QUICK_REMOVAL_NOTICE@));
    }
    notices
}

/// What the user has accepted.
#[derive(Clone, Copy, Debug, PartialEq, Eq, Structural)]
pub struct PreflightAcceptance {
    /// The limits of a FAT-family destination.
    pub degraded_filesystem: bool,
    /// The limits of remote paths.
    pub remote_paths: bool,
    /// A slow write-cache policy.
    pub write_cache_policy: bool,
}

/// What is to be confirmed before a copy.
#[derive(Clone, Copy, Debug, PartialEq, Eq, Structural)]
pub struct PreflightQuestion {
    /// Whether the destination is of the FAT family.
    pub degraded: bool,
    /// Whether a side is remote.
    pub remote: bool,
    /// Whether the destination's write cache is known to be off.
    pub quick_removal: bool,
    /// Whether the user can be asked.
    pub interactive: bool,
    /// What was accepted beforehand.
    pub accepted: PreflightAcceptance,
    /// Whether nothing will be written.
    pub dry_run: bool,
}

impl PreflightQuestion {
    /// Whether the limits of the destination have to be accepted.
    pub open spec fn spec_needs_degradation(self) -> bool {
        self.degraded && !self.accepted.degraded_filesystem && !self.dry_run
    }

    /// Whether the limits of remote paths have to be accepted.
    pub open spec fn spec_needs_remote(self) -> bool {
        self.remote && !self.accepted.remote_paths && !self.dry_run
    }

    /// Whether something has to be accepted.
    pub open spec fn spec_required(self) -> bool {
        self.spec_needs_degradation() || self.spec_needs_remote()
    }

    /// Whether the drive policy is asked about.
    pub open spec fn spec_asks_policy(self) -> bool {
        self.quick_removal && !self.accepted.write_cache_policy
    }

    /// What has to be passed where nobody can be asked.
    pub open spec fn spec_missing_flags(self) -> Seq<char> {
        if self.spec_needs_degradation() && self.spec_needs_remote() {
            "--accept-degraded-filesystem and --accept-remote-paths"@
        } else if self.spec_needs_degradation() {
            "--accept-degraded-filesystem"@
        } else {
            "--accept-remote-paths"@
        }
    }

    /// What is accepted once the user has said yes.
    pub open spec fn spec_agreed(self) -> PreflightAcceptance {
        PreflightAcceptance {
            degraded_filesystem: self.accepted.degraded_filesystem
                || self.spec_needs_degradation(),
            remote_paths: self.accepted.remote_paths || self.spec_needs_remote(),
            write_cache_policy: self.accepted.write_cache_policy || self.spec_asks_policy(),
        }
    }
}

/// How a copy goes on after the warnings.
#[derive(Clone, Debug, PartialEq, Eq)]
pub enum PreflightDecision {
    /// With what is accepted.
    Proceed(PreflightAcceptance),
    /// Not at all.
    Refuse {
        /// The process exit code.
        code: u8,
        /// Why.
        message: String,
    },
    /// After the user has answered.
    Ask {
        /// Whether the answer has to be an explicit yes.
        required: bool,
        /// The prompt.
        prompt: &'static str,
    },
}

/// Decides whether the user has to be asked before a copy.
pub fn confirm_preflight_warnings(question: &PreflightQuestion) -> (decision: PreflightDecision)
    ensures
        if question.spec_required() && !question.interactive {
            decision matches PreflightDecision::Refuse { code, message } && code == 5 && message@
                == "copy limitations require confirmation, but no interactive prompt is available; pass "@
                + question.spec_missing_flags() + " after reviewing the warning"@
        } else if question.interactive && (question.spec_required()
            || question.spec_asks_policy()) {
            decision matches PreflightDecision::Ask { required, prompt } && required
                == question.spec_required() && prompt@ == (if question.spec_required() {
                "Continue with the acknowledged copy limitations? [y/N] "@
            } else {
                "Continue with the current drive policy? [Y/n] "@
            })
        } else {
            decision == PreflightDecision::Proceed(question.accepted)
        },
{
    let degradation = question.degraded && !question.accepted.degraded_filesystem
        && !question.dry_run;
    let remote = question.remote && !question.accepted.remote_paths && !question.dry_run;
    let required = degradation || remote;
    let policy = question.quick_removal && !question.accepted.write_cache_policy;
    if required && !question.interactive {
        let mut message =
            "copy limitations require confirmation, but no interactive prompt is available; pass ".to_owned();
        if degradation && remote {
            message.append("--accept-degraded-filesystem and --accept-remote-paths");
        } else if degradation {
            message.append("--accept-degraded-filesystem");
        } else {
            message.append("--accept-remote-paths");
        }
        message.append(" after reviewing the warning");
        return PreflightDecision::Refuse { code: 5, message };
    }
    if question.interactive && (required || policy) {
        return PreflightDecision::Ask {
            required,
            prompt: if required {
                "Continue with the acknowledged copy limitations? [y/N] "
            } else {
                "Continue with the current drive policy? [Y/n] "
            },
        };
    }
    PreflightDecision::Proceed(question.accepted)
}

/// Decides how a copy goes on after an answer; none could be read where it is
/// absent.
pub fn confirm_answer(question: &PreflightQuestion, answer: Option<&str>) -> (decision:
    PreflightDecision)
    ensures
        if answer matches Some(text) && is_accepted(text@, question.spec_required()) {
            decision == PreflightDecision::Proceed(question.spec_agreed())
        } else {
            decision matches PreflightDecision::Refuse { code, message } && code == 5 && message@
                == "aborted before any copying; no destination-tree changes were made"@
        },
{
    let degradation = question.degraded && !question.accepted.degraded_filesystem
        && !question.dry_run;
    let remote = question.remote && !question.accepted.remote_paths && !question.dry_run;
    let accepted = match answer {
        Some(text) => prompt_answer_accepted(text, degradation || remote),
        None => false,
    };
    if !accepted {
        return PreflightDecision::Refuse {
            code: 5,
            message: "aborted before any copying; no destination-tree changes were made".to_owned(),
        };
    }
    PreflightDecision::Proceed(
        PreflightAcceptance {
            degraded_filesystem: question.accepted.degraded_filesystem || degradation,
            remote_paths: question.accepted.remote_paths || remote,
            write_cache_policy: question.accepted.write_cache_policy || (question.quick_removal
                && !question.accepted.write_cache_policy),
        },
    )
}

/// Every copy flag is refused before a subcommand: none can be given without
/// being noticed.
pub proof fn no_flag_escapes_rejection(flags: FlagsView, flag: FlagName)
    requires
        flags.has(flag),
    ensures
        flags.any(),
{
}

/// Every name in the list is a flag of its own.
pub proof fn listed_names_are_flags(at: int)
    requires
        0 <= at < 21,
    ensures
        flag_of(COPY_FLAGS@[at]@) is Some,
{
}

/// A switch that is given is remembered, and none that was given before is
/// forgotten.
#[verifier::rlimit(60)]
#[verifier::spinoff_prover]
pub proof fn switches_are_remembered(flags: FlagsView, flag: FlagName, other: FlagName)
    requires
        !wants_value(flag),
    ensures
        flags.switched(flag).has(flag),
        flags.has(other) ==> flags.switched(flag).has(other),
{
}

/// What the library demands to be accepted is accepted once the user has said
/// yes to the question, or passed the flags.
pub proof fn consent_covers_what_is_demanded(question: PreflightQuestion)
    requires
        !question.dry_run,
    ensures
        question.degraded ==> question.spec_agreed().degraded_filesystem,
        question.remote ==> question.spec_agreed().remote_paths,
        !question.spec_required() ==> (question.degraded
            ==> question.accepted.degraded_filesystem) && (question.remote
            ==> question.accepted.remote_paths),
{
}

/// The names of the switches, each with the flag that it stands for.
proof fn lemma_names_of_switches()
    ensures
        flag_of("dry-run"@) == Some(FlagName::DryRun),
        flag_of("verify"@) == Some(FlagName::Verify),
        flag_of("include-system"@) == Some(FlagName::IncludeSystem),
        flag_of("skip-cloud"@) == Some(FlagName::SkipCloud),
        flag_of("replace"@) == Some(FlagName::Replace),
        flag_of("flush"@) == Some(FlagName::Flush),
        flag_of("no-sparse"@) == Some(FlagName::NoSparse),
        flag_of("analyze"@) == Some(FlagName::Analyze),
        flag_of("raw-reparse"@) == Some(FlagName::RawReparse),
        flag_of("fresh"@) == Some(FlagName::Fresh),
        flag_of("accept-degraded-filesystem"@) == Some(FlagName::AcceptDegraded),
        flag_of("accept-remote-paths"@) == Some(FlagName::AcceptRemote),
        flag_of("accept-write-cache-policy"@) == Some(FlagName::AcceptWriteCache),
        flag_of("profile"@) == Some(FlagName::Profile),
        flag_of("tune"@) == Some(FlagName::Tune),
        flag_of("state-dir"@) == Some(FlagName::StateDir),
        flag_of("log"@) == Some(FlagName::Log),
        flag_of("report"@) == Some(FlagName::Report),
        flag_of("plain"@) == Some(FlagName::Plain),
        flag_of("no-color"@) == Some(FlagName::NoColor),
        flag_of("quiet"@) == Some(FlagName::Quiet),
        flag_of("help"@) is None,
        flag_of("version"@) is None,
{
    reveal_strlit("dry-run");
    reveal_strlit("verify");
    reveal_strlit("include-system");
    reveal_strlit("skip-cloud");
    reveal_strlit("replace");
    reveal_strlit("flush");
    reveal_strlit("no-sparse");
    reveal_strlit("analyze");
    reveal_strlit("raw-reparse");
    reveal_strlit("fresh");
    reveal_strlit("accept-degraded-filesystem");
    reveal_strlit("accept-remote-paths");
    reveal_strlit("accept-write-cache-policy");
    reveal_strlit("profile");
    reveal_strlit("tune");
    reveal_strlit("state-dir");
    reveal_strlit("log");
    reveal_strlit("report");
    reveal_strlit("plain");
    reveal_strlit("no-color");
    reveal_strlit("quiet");
    reveal_strlit("help");
    reveal_strlit("version");
    assert("dry-run"@.len() == 7 && "dry-run"@[0] == 'd');
    assert("verify"@.len() == 6 && "verify"@[0] == 'v');
    assert("include-system"@.len() == 14);
    assert("skip-cloud"@.len() == 10);
    assert("replace"@.len() == 7 && "replace"@[0] == 'r');
    assert("flush"@.len() == 5 && "flush"@[0] == 'f' && "flush"@[1] == 'l');
    assert("no-sparse"@.len() == 9 && "no-sparse"@[0] == 'n');
    assert("analyze"@.len() == 7 && "analyze"@[0] == 'a');
    assert("raw-reparse"@.len() == 11);
    assert("fresh"@.len() == 5 && "fresh"@[0] == 'f' && "fresh"@[1] == 'r');
    assert("accept-degraded-filesystem"@.len() == 26);
    assert("accept-remote-paths"@.len() == 19);
    assert("accept-write-cache-policy"@.len() == 25);
    assert("profile"@.len() == 7 && "profile"@[0] == 'p');
    assert("tune"@.len() == 4 && "tune"@[0] == 't');
    assert("state-dir"@.len() == 9 && "state-dir"@[0] == 's');
    assert("log"@.len() == 3);
    assert("report"@.len() == 6 && "report"@[0] == 'r');
    assert("plain"@.len() == 5 && "plain"@[0] == 'p');
    assert("no-color"@.len() == 8);
    assert("quiet"@.len() == 5 && "quiet"@[0] == 'q');
    assert("help"@.len() == 4 && "help"@[0] == 'h');
    assert("version"@.len() == 7 && "version"@[0] == 'v');
}

/// A switch that is taken from the command line sets the field that its name
/// says, and is taken once: given again it is refused.
#[verifier::rlimit(60)]
#[verifier::spinoff_prover]
pub proof fn switch_sets_what_its_name_says(state: TopView, arg: Seq<u16>)
    requires
        state.pending is None,
        long_value(arg) is None,
    ensures
        state.long(arg) matches TopStep::Go(next) ==> {
            let name = long_name(arg);
            let flags = next.flags;
            &&& name == "dry-run"@ ==> flags.dry_run && !state.flags.dry_run
            &&& name == "verify"@ ==> flags.verify && !state.flags.verify
            &&& name == "include-system"@ ==> flags.include_system && !state.flags.include_system
            &&& name == "skip-cloud"@ ==> flags.skip_cloud && !state.flags.skip_cloud
            &&& name == "replace"@ ==> flags.replace == Some(true) && state.flags.replace is None
            &&& name == "flush"@ ==> flags.flush && !state.flags.flush
            &&& name == "no-sparse"@ ==> flags.no_sparse && !state.flags.no_sparse
            &&& name == "analyze"@ ==> flags.analyze && !state.flags.analyze
            &&& name == "raw-reparse"@ ==> flags.raw_reparse && !state.flags.raw_reparse
            &&& name == "fresh"@ ==> flags.fresh && !state.flags.fresh
            &&& name == "accept-degraded-filesystem"@ ==> flags.accept_degraded_filesystem
            &&& name == "accept-remote-paths"@ ==> flags.accept_remote_paths
            &&& name == "accept-write-cache-policy"@ ==> flags.accept_write_cache_policy
            &&& name == "plain"@ ==> flags.plain && !state.flags.plain
            &&& name == "no-color"@ ==> flags.no_color && !state.flags.no_color
            &&& name == "quiet"@ ==> flags.quiet && !state.flags.quiet
            &&& next.positionals == state.positionals
            &&& next.trailing == state.trailing
        },
        long_name(arg) == "help"@ ==> state.long(arg) == TopStep::Exit(
            CliExit::Help(HelpTopic::Program),
        ),
        long_name(arg) == "version"@ ==> state.long(arg) == TopStep::Exit(CliExit::Version),
{
    lemma_names_of_switches();
    reveal_strlit("help");
    reveal_strlit("version");
    assert("help"@.len() == 4 && "version"@.len() == 7);
}

/// An option changes its own flag and no other one: the rest stands as it was
/// given before.
#[verifier::rlimit(60)]
#[verifier::spinoff_prover]
pub proof fn option_changes_its_own_flag_alone(
    flags: FlagsView,
    flag: FlagName,
    value: FlagValueView,
    other: FlagName,
)
    requires
        other != flag,
        value is Replace <==> flag is Replace,
        value is Profile <==> flag is Profile,
        value is Tune <==> flag is Tune,
    ensures
        flags.switched(flag).has(other) == flags.has(other),
        flags.valued(flag, value).has(other) == flags.has(other),
        !FlagsView::none().has(flag),
        !FlagsView::none().any(),
        flags.any() ==> exists|given: FlagName| #[trigger] flags.has(given),
{
    if flags.any() {
        assert(flags.has(FlagName::DryRun) || flags.has(FlagName::Verify) || flags.has(
            FlagName::IncludeSystem,
        ) || flags.has(FlagName::SkipCloud) || flags.has(FlagName::Replace) || flags.has(
            FlagName::Flush,
        ) || flags.has(FlagName::NoSparse) || flags.has(FlagName::Analyze) || flags.has(
            FlagName::RawReparse,
        ) || flags.has(FlagName::Fresh) || flags.has(FlagName::AcceptDegraded) || flags.has(
            FlagName::AcceptRemote,
        ) || flags.has(FlagName::AcceptWriteCache) || flags.has(FlagName::Profile) || flags.has(
            FlagName::Tune,
        ) || flags.has(FlagName::StateDir) || flags.has(FlagName::Log) || flags.has(
            FlagName::Report,
        ) || flags.has(FlagName::Plain) || flags.has(FlagName::NoColor) || flags.has(
            FlagName::Quiet,
        ));
    }
}

/// The value of an option is kept under the option that it was given for, as it
/// was written; an empty path and a value that is no truth value are refused.
pub proof fn value_is_kept_under_its_option(state: TopView, flag: FlagName, value: Seq<u16>)
    ensures
        state.flags.has(flag) ==> state.given(flag, value) == Err::<TopView, UsageKind>(
            UsageKind::RepeatedOption,
        ),
        !wants_value(flag) && !(flag is Replace) ==> state.given(flag, value) is Err,
        state.given(flag, value) matches Ok(next) ==> {
            &&& !state.flags.has(flag)
            &&& next.flags.has(flag)
            &&& next.flags.state_dir == (if flag is StateDir {
                Some(value)
            } else {
                state.flags.state_dir
            })
            &&& next.flags.log == (if flag is Log {
                Some(value)
            } else {
                state.flags.log
            })
            &&& next.flags.report == (if flag is Report {
                Some(value)
            } else {
                state.flags.report
            })
            &&& (flag is StateDir || flag is Log || flag is Report ==> value.len() > 0)
            &&& (flag is Replace ==> next.flags.replace == Some(lossy_text(value) == "true"@) && (
            lossy_text(value) == "true"@ || lossy_text(value) == "false"@))
            &&& (flag is Profile ==> profiles_value(lossy_text(value)) == Ok::<_, Seq<char>>(
                next.flags.profile->0,
            ))
            &&& (flag is Tune ==> tune_value(lossy_text(value)) == Ok::<_, Seq<char>>(
                next.flags.tune->0,
            ))
            &&& (flag is Profile || flag is Tune ==> !unpaired_from(value, 0))
            &&& next.positionals == state.positionals
            &&& next.flags.dry_run == state.flags.dry_run
            &&& next.flags.verify == state.flags.verify
        },
        (flag is StateDir || flag is Log || flag is Report) && value.len() > 0
            && !state.flags.has(flag) ==> state.given(flag, value) is Ok,
{
    reveal_strlit("true");
    reveal_strlit("false");
}

/// An argument that is a place: not an option, and not a subcommand's name.
pub open spec fn is_place(arg: Seq<u16>) -> bool {
    !is_option(arg) && lossy_text(arg) != "verify"@ && lossy_text(arg) != "report"@
}

/// Two places are a source and a destination, in that order; one place alone is
/// a source, and a third one is refused.
pub proof fn places_are_source_and_destination(
    one: Seq<u16>,
    two: Seq<u16>,
    three: Seq<u16>,
    rest: Seq<Seq<u16>>,
)
    requires
        is_place(one),
        is_place(two),
        is_place(three),
        one.len() > 0,
        two.len() > 0,
    ensures
        cli_value(TopView::start(), seq![one, two]) matches Ok(cli) && {
            &&& cli.command is None
            &&& cli.source == Some(one)
            &&& cli.destination == Some(two)
            &&& !cli.flags.any()
        },
        cli_value(TopView::start(), seq![one]) matches Ok(cli) && {
            &&& cli.source == Some(one)
            &&& cli.destination is None
        },
        cli_value(TopView::start(), seq![one, two, three] + rest) == Err::<CliView, CliExit>(
            CliExit::Usage(UsageKind::UnexpectedArgument),
        ),
{
    reveal_with_fuel(cli_value, 4);
    assert(seq![one, two].drop_first() =~= seq![two]);
    assert(seq![two].drop_first() =~= Seq::<Seq<u16>>::empty());
    assert(seq![one].drop_first() =~= Seq::<Seq<u16>>::empty());
    let all = seq![one, two, three] + rest;
    assert(all[0] == one);
    assert(all.drop_first() =~= seq![two, three] + rest);
    assert(all.drop_first()[0] == two);
    assert(all.drop_first().drop_first() =~= seq![three] + rest);
    assert(all.drop_first().drop_first()[0] == three);
    assert(Seq::<Seq<u16>>::empty().push(one).push(two)[0] == one);
}

/// A subcommand takes the places that follow its name in order, and is refused
/// where one of them is missing or one is too many.
pub proof fn subcommand_takes_its_places(one: Seq<u16>, two: Seq<u16>, rest: Seq<Seq<u16>>)
    requires
        !is_option(one),
        !is_option(two),
        one.len() > 0,
        two.len() > 0,
    ensures
        sub_value(Subcommand::Verify, SubView::start(), seq![one, two]) == Ok::<
            CommandView,
            CliExit,
        >(CommandView::Verify { source: one, destination: two }),
        sub_value(Subcommand::Report, SubView::start(), seq![one]) == Ok::<CommandView, CliExit>(
            CommandView::Report { file: one, plain: false },
        ),
        sub_value(Subcommand::Verify, SubView::start(), seq![one]) == Err::<CommandView, CliExit>(
            CliExit::Usage(UsageKind::MissingArgument),
        ),
        sub_value(Subcommand::Report, SubView::start(), seq![one, two] + rest) == Err::<
            CommandView,
            CliExit,
        >(CliExit::Usage(UsageKind::UnexpectedArgument)),
{
    reveal_with_fuel(sub_value, 4);
    assert(seq![one, two].drop_first() =~= seq![two]);
    assert(seq![two].drop_first() =~= Seq::<Seq<u16>>::empty());
    assert(seq![one].drop_first() =~= Seq::<Seq<u16>>::empty());
    let all = seq![one, two] + rest;
    assert(all[0] == one);
    assert(all.drop_first() =~= seq![two] + rest);
    assert(all.drop_first()[0] == two);
}

/// Behind `--` an argument is a place, whatever it looks like.
pub proof fn trailing_arguments_are_places(state: TopView, arg: Seq<u16>)
    requires
        state.trailing,
        state.pending is None,
        state.positionals.len() < 2,
    ensures
        state.step(arg) matches TopStep::Go(next) && next.trailing && next.flags == state.flags
            && (arg.len() > 0 ==> (next.ended(None) matches Ok(cli) && (state.positionals.len()
            == 0 ==> cli.source == Some(arg)) && (state.positionals.len() == 1
            ==> cli.destination == Some(arg)))),
{
}

/// A copy runs with what the flags say: a switch that was not given is off, but
/// for replacing, which is on until it is switched off, and a drive whose class
/// was not given is looked at.
pub proof fn copy_runs_as_its_flags_say(
    source: WidePath,
    destination: WidePath,
    flags: CopyFlags,
    degraded: bool,
    remote: bool,
)
    ensures
        ({
            let options = options_of(source, destination, flags, degraded, remote);
            &&& options.source == source
            &&& options.destination == destination
            &&& options.dry_run <==> flags.dry_run
            &&& options.verify <==> flags.verify
            &&& options.include_system <==> flags.include_system
            &&& options.skip_cloud <==> flags.skip_cloud
            &&& options.replace <==> flags.replace != Some(false)
            &&& options.flush <==> flags.flush
            &&& options.no_sparse <==> flags.no_sparse
            &&& options.analyze <==> flags.analyze
            &&& options.raw_reparse <==> flags.raw_reparse
            &&& options.fresh <==> flags.fresh
            &&& options.accept_degraded_filesystem <==> degraded
            &&& options.accept_remote_paths <==> remote
            &&& opt_path(options.state_dir) == flags@.state_dir
            &&& opt_path(options.log_path) == flags@.log
            &&& opt_path(options.report_path) == flags@.report
            &&& flags.profile is None ==> options.source_profile is Auto
                && options.destination_profile is Auto
            &&& flags.profile matches Some(classes) ==> options.source_profile == classes.0
                && options.destination_profile == classes.1
            &&& flags.tune matches Some(tune) ==> options.tune == tune
            &&& flags.tune is None ==> options.tune == TuneOptions::none()
        }),
{
}

/// A subcommand goes with none of the copy's flags, a copy needs both places,
/// and what was asked for is what is planned.
pub proof fn plan_is_what_was_asked_for(cli: CliView)
    ensures
        cli.command is Some ==> (planned(cli) is Ok <==> !cli.flags.any()),
        cli.command is None ==> (planned(cli) is Ok <==> cli.source is Some && cli.destination
            is Some),
        planned(cli) matches Ok(PlanView::Copy { source, destination, flags }) ==> cli.command
            is None && cli.source == Some(source) && cli.destination == Some(destination) && flags
            == cli.flags,
        planned(cli) matches Ok(PlanView::Verify { source, destination }) ==> cli.command == Some(
            CommandView::Verify { source, destination },
        ),
        planned(cli) matches Ok(PlanView::Report { file, plain }) ==> cli.command == Some(
            CommandView::Report { file, plain },
        ),
{
}

/// A limitation is asked about exactly where it holds, was not accepted before,
/// and the run would write; and an agreement accepts no more than was asked.
pub proof fn question_is_asked_where_it_matters(question: PreflightQuestion)
    ensures
        question.dry_run ==> !question.spec_required(),
        !question.degraded && !question.remote ==> !question.spec_required(),
        question.degraded && !question.accepted.degraded_filesystem && !question.dry_run
            ==> question.spec_required(),
        question.remote && !question.accepted.remote_paths && !question.dry_run
            ==> question.spec_required(),
        question.accepted.degraded_filesystem && question.accepted.remote_paths
            ==> !question.spec_required(),
        question.accepted.write_cache_policy || !question.quick_removal
            ==> !question.spec_asks_policy(),
        question.quick_removal && !question.accepted.write_cache_policy
            ==> question.spec_asks_policy() && question.spec_agreed().write_cache_policy,
        question.spec_agreed().degraded_filesystem ==> question.degraded
            || question.accepted.degraded_filesystem,
        question.spec_agreed().remote_paths ==> question.remote || question.accepted.remote_paths,
        question.spec_agreed().write_cache_policy ==> question.quick_removal
            || question.accepted.write_cache_policy,
        question.accepted.degraded_filesystem ==> question.spec_agreed().degraded_filesystem,
        question.accepted.remote_paths ==> question.spec_agreed().remote_paths,
{
}

/// A limitation is accepted by a plain yes alone, and a drive's policy by
/// anything but a no: an empty line is enough for the one and not for the other.
pub proof fn limitation_needs_a_yes(answer: Seq<char>)
    ensures
        is_accepted(answer, true) ==> normalized(answer).len() > 0 && normalized(answer)[0]
            == 'y' && is_accepted(answer, false),
        normalized(answer).len() == 0 ==> !is_accepted(answer, true) && is_accepted(
            answer,
            false,
        ),
        normalized(answer).len() > 0 && normalized(answer)[0] == 'n' ==> !is_accepted(answer, true)
            && !is_accepted(answer, false),
        !is_accepted(answer, false) ==> normalized(answer).len() > 0,
{
}

/// There is one notice for each limitation of the run, and none without one.
pub proof fn every_limitation_has_its_notice(
    source: Option<VolumeInfo>,
    destination: VolumeInfo,
    quick_removal: bool,
)
    ensures
        ({
            let notices = spec_notices(source, destination, quick_removal);
            let fat = destination.filesystem is Fat || destination.filesystem is ExFat;
            let remote = !(destination.endpoint is Local) || (source matches Some(volume)
                && !(volume.endpoint is Local));
            &&& notices.len() == (if fat {
                1int
            } else {
                0
            }) + (if remote {
                1int
            } else {
                0
            }) + (if quick_removal {
                1int
            } else {
                0
            })
            &&& fat ==> notices[0] == degraded_notice_text(source, destination)
            &&& remote ==> notices[if fat {
                1
            } else {
                0
            }] == remote_notice_text(source, destination)
            &&& quick_removal ==> notices.last() == QUICK_REMOVAL_NOTICE@
        }),
{
}

} // verus!
