//! Stable error categories and operation-rich failures.

use vstd::prelude::*;
use vstd::string::*;

use crate::path::{lossy_text, WidePath};

verus! {

/// Stable public error taxonomy used by logs, reports, and the interface.
#[derive(Clone, Copy, Debug, PartialEq, Eq, PartialOrd, Ord, Hash, Structural)]
pub enum ErrorCategory {
    /// Access-control failure.
    Permissions,
    /// Sharing violation or lock.
    Locked,
    /// Invalid, missing, or overlong path.
    Path,
    /// Destination capacity exhausted.
    Space,
    /// Device-reported data or media error.
    Media,
    /// Device disappeared.
    DeviceGone,
    /// Filesystem cannot represent the requested feature.
    FsLimit,
    /// Source changed after enumeration.
    SourceChanged,
    /// Destination changed after classification.
    DestinationChanged,
    /// Unsupported reparse tag.
    UnsupportedReparse,
    /// A parent directory could not be prepared.
    ParentDirFailed,
    /// Source and destination object types conflict.
    TypeConflict,
    /// Cloud hydration failure.
    Cloud,
    /// Unexpected invariant or implementation failure.
    Internal,
}

/// The kinds of I/O failure that decide a category or a retry.
#[derive(Clone, Copy, Debug, PartialEq, Eq, Structural)]
pub enum IoErrorKind {
    /// An object was not found.
    NotFound,
    /// A parameter was incorrect.
    InvalidInput,
    /// An object already exists.
    AlreadyExists,
    /// The operation lacked privileges.
    PermissionDenied,
    /// The operation was interrupted and can be retried.
    Interrupted,
    /// A write made no progress.
    WriteZero,
    /// The data ended early.
    UnexpectedEof,
    /// The data was not valid.
    InvalidData,
    /// The operation is unsupported.
    Unsupported,
    /// The operation would have to wait.
    WouldBlock,
    /// Any other kind.
    Other,
}

/// One failed I/O call as the operating system reported it.
#[derive(Clone, Debug, PartialEq, Eq)]
pub struct IoError {
    /// Raw operating-system code, where there was one.
    pub code: Option<i32>,
    /// Portable kind.
    pub kind: IoErrorKind,
    /// Whether the platform counts the code among its cloud-file errors.
    pub cloud: bool,
    /// Operating-system message.
    pub message: String,
}

impl IoError {
    /// An I/O failure that came from no system call.
    pub fn other(message: &str) -> (error: IoError)
        ensures
            error.code is None,
            error.kind is Other,
            !error.cloud,
            error.message@ == message@,
    {
        IoError {
            code: None,
            kind: IoErrorKind::Other,
            cloud: false,
            message: message.to_owned(),
        }
    }

    /// An equal error.
    pub fn copied(&self) -> (error: IoError)
        ensures
            error == *self,
    {
        IoError {
            code: self.code,
            kind: self.kind,
            cloud: self.cloud,
            message: self.message.clone(),
        }
    }
}

/// Codes that mean a local device or a remote endpoint went away.
pub open spec fn is_device_gone_code(code: i32) -> bool {
    ||| code == 21
    ||| code == 53
    ||| code == 55
    ||| code == 59
    ||| code == 64
    ||| code == 67
    ||| code == 121
    ||| code == 433
    ||| code == 1167
    ||| code == 1222
    ||| code == 1231
    ||| code == 1236
    ||| code == 2250
}

/// The category that a raw code alone decides.
pub open spec fn category_of_code(code: i32) -> Option<ErrorCategory> {
    if code == 5 {
        Some(ErrorCategory::Permissions)
    } else if code == 32 || code == 33 {
        Some(ErrorCategory::Locked)
    } else if code == 39 || code == 112 {
        Some(ErrorCategory::Space)
    } else if code == 23 || code == 1117 {
        Some(ErrorCategory::Media)
    } else if is_device_gone_code(code) {
        Some(ErrorCategory::DeviceGone)
    } else if code == 80 || code == 183 {
        Some(ErrorCategory::DestinationChanged)
    } else if code == 206 {
        Some(ErrorCategory::Path)
    } else {
        None
    }
}

/// The category that a portable kind decides.
pub open spec fn category_of_kind(kind: IoErrorKind) -> ErrorCategory {
    match kind {
        IoErrorKind::NotFound | IoErrorKind::InvalidInput => ErrorCategory::Path,
        IoErrorKind::AlreadyExists => ErrorCategory::DestinationChanged,
        IoErrorKind::PermissionDenied => ErrorCategory::Permissions,
        _ => ErrorCategory::Internal,
    }
}

/// The category of an I/O failure: by code, then by the cloud-file verdict on
/// the code, then by kind.
pub open spec fn spec_category_for(
    code: Option<i32>,
    cloud: bool,
    kind: IoErrorKind,
) -> ErrorCategory {
    match code {
        Some(code) => match category_of_code(code) {
            Some(category) => category,
            None => if cloud {
                ErrorCategory::Cloud
            } else {
                category_of_kind(kind)
            },
        },
        None => category_of_kind(kind),
    }
}

/// Classifies a raw code and kind.
pub fn category_for(code: Option<i32>, cloud: bool, kind: IoErrorKind) -> (category: ErrorCategory)
    ensures
        category == spec_category_for(code, cloud, kind),
{
    if let Some(code) = code {
        match code {
            5 => {
                return ErrorCategory::Permissions;
            },
            32 | 33 => {
                return ErrorCategory::Locked;
            },
            39 | 112 => {
                return ErrorCategory::Space;
            },
            23 | 1117 => {
                return ErrorCategory::Media;
            },
            // Local removals and remote redirector disconnects both invalidate
            // an in-flight endpoint, so they share the breaker's category.
            21 | 53 | 55 | 59 | 64 | 67 | 121 | 433 | 1167 | 1222 | 1231 | 1236 | 2250 => {
                return ErrorCategory::DeviceGone;
            },
            80 | 183 => {
                return ErrorCategory::DestinationChanged;
            },
            206 => {
                return ErrorCategory::Path;
            },
            _ => {
                if cloud {
                    return ErrorCategory::Cloud;
                }
            },
        }
    }
    match kind {
        IoErrorKind::NotFound | IoErrorKind::InvalidInput => ErrorCategory::Path,
        IoErrorKind::AlreadyExists => ErrorCategory::DestinationChanged,
        IoErrorKind::PermissionDenied => ErrorCategory::Permissions,
        _ => ErrorCategory::Internal,
    }
}

/// The repair guidance of each category.
pub open spec fn spec_hint_for(category: ErrorCategory) -> Seq<char> {
    match category {
        ErrorCategory::Permissions =>
            "Check or repair ACLs, take ownership if appropriate, then re-run"@,
        ErrorCategory::Locked => "Close the process using this object, then re-run"@,
        ErrorCategory::Path => "Check the path and shorten the destination root if necessary"@,
        ErrorCategory::Space => "Free destination space, then re-run to resume"@,
        ErrorCategory::Media => "Check the drive and its health before re-running"@,
        ErrorCategory::DeviceGone => "Reconnect the device or remote path and re-run to resume"@,
        ErrorCategory::FsLimit =>
            "Use a destination filesystem that supports this object type, feature, or size"@,
        ErrorCategory::SourceChanged => "Quiesce source writers and re-run"@,
        ErrorCategory::DestinationChanged => "Stop other destination writers and re-run"@,
        ErrorCategory::UnsupportedReparse =>
            "Use --raw-reparse only when the owning filter is present and the risk is understood"@,
        ErrorCategory::ParentDirFailed => "Resolve the parent directory failure, then re-run"@,
        ErrorCategory::TypeConflict =>
            "Resolve the conflicting destination object manually; bigcp never deletes it"@,
        ErrorCategory::Cloud =>
            "Restore cloud provider connectivity/health or use --skip-cloud"@,
        ErrorCategory::Internal => "Retain the log and report and file a bigcp bug"@,
    }
}

/// The repair guidance of a category.
pub fn hint_for(category: ErrorCategory) -> (hint: &'static str)
    ensures
        hint@ == spec_hint_for(category),
{
    match category {
        ErrorCategory::Permissions =>
            "Check or repair ACLs, take ownership if appropriate, then re-run",
        ErrorCategory::Locked => "Close the process using this object, then re-run",
        ErrorCategory::Path => "Check the path and shorten the destination root if necessary",
        ErrorCategory::Space => "Free destination space, then re-run to resume",
        ErrorCategory::Media => "Check the drive and its health before re-running",
        ErrorCategory::DeviceGone => "Reconnect the device or remote path and re-run to resume",
        ErrorCategory::FsLimit =>
            "Use a destination filesystem that supports this object type, feature, or size",
        ErrorCategory::SourceChanged => "Quiesce source writers and re-run",
        ErrorCategory::DestinationChanged => "Stop other destination writers and re-run",
        ErrorCategory::UnsupportedReparse =>
            "Use --raw-reparse only when the owning filter is present and the risk is understood",
        ErrorCategory::ParentDirFailed => "Resolve the parent directory failure, then re-run",
        ErrorCategory::TypeConflict =>
            "Resolve the conflicting destination object manually; bigcp never deletes it",
        ErrorCategory::Cloud => "Restore cloud provider connectivity/health or use --skip-cloud",
        ErrorCategory::Internal => "Retain the log and report and file a bigcp bug",
    }
}

/// One failed operation with enough context for repair and audit.
#[derive(Clone, Debug, PartialEq, Eq)]
pub struct OperationError {
    /// Stable error category.
    pub category: ErrorCategory,
    /// Operation name, such as open_src or rename.
    pub operation: String,
    /// Source-root-relative path where possible.
    pub path: WidePath,
    /// Original operating-system error code when available.
    pub code: Option<i32>,
    /// Operating-system or semantic message.
    pub message: String,
    /// Actionable resolution guidance.
    pub hint: String,
}

/// What an operation error says, as values.
pub ghost struct ErrorView {
    pub category: ErrorCategory,
    pub operation: Seq<char>,
    pub path: Seq<u16>,
    pub code: Option<i32>,
    pub message: Seq<char>,
    pub hint: Seq<char>,
}

impl View for OperationError {
    type V = ErrorView;

    open spec fn view(&self) -> ErrorView {
        ErrorView {
            category: self.category,
            operation: self.operation@,
            path: self.path@,
            code: self.code,
            message: self.message@,
            hint: self.hint@,
        }
    }
}

/// The error of one failed I/O call, filed under `category`.
pub open spec fn io_error_view(
    category: ErrorCategory,
    operation: Seq<char>,
    path: Seq<u16>,
    error: IoError,
) -> ErrorView {
    ErrorView {
        category,
        operation,
        path,
        code: error.code,
        message: error.message@,
        hint: spec_hint_for(category),
    }
}

/// The error of a violated expectation.
pub open spec fn semantic_error_view(
    category: ErrorCategory,
    operation: Seq<char>,
    path: Seq<u16>,
    message: Seq<char>,
) -> ErrorView {
    ErrorView {
        category,
        operation,
        path,
        code: None,
        message,
        hint: spec_hint_for(category),
    }
}

/// The category of one failed I/O call.
pub open spec fn category_of(error: IoError) -> ErrorCategory {
    spec_category_for(error.code, error.cloud, error.kind)
}

impl OperationError {
    /// Classifies one I/O error while preserving its raw code.
    pub fn from_io(operation: &str, path: WidePath, error: &IoError) -> (failure: Self)
        ensures
            failure@ == io_error_view(category_of(*error), operation@, path@, *error),
    {
        let category = category_for(error.code, error.cloud, error.kind);
        Self::from_io_as(category, operation, path, error)
    }

    /// Files one I/O error under a given category, preserving its raw code.
    pub fn from_io_as(
        category: ErrorCategory,
        operation: &str,
        path: WidePath,
        error: &IoError,
    ) -> (failure: Self)
        ensures
            failure@ == io_error_view(category, operation@, path@, *error),
    {
        OperationError {
            category,
            operation: operation.to_owned(),
            path,
            code: error.code,
            message: error.message.clone(),
            hint: hint_for(category).to_owned(),
        }
    }

    /// Builds a semantic error that did not originate from one system call.
    pub fn semantic(
        category: ErrorCategory,
        operation: &str,
        path: WidePath,
        message: String,
    ) -> (failure: Self)
        ensures
            failure@ == semantic_error_view(category, operation@, path@, message@),
    {
        OperationError {
            category,
            operation: operation.to_owned(),
            path,
            code: None,
            message,
            hint: hint_for(category).to_owned(),
        }
    }

    /// An equal error.
    pub fn copied(&self) -> (failure: Self)
        ensures
            failure@ == self@,
    {
        OperationError {
            category: self.category,
            operation: self.operation.clone(),
            path: self.path.copied(),
            code: self.code,
            message: self.message.clone(),
            hint: self.hint.clone(),
        }
    }

    /// One line of text: what failed, for which path, and why.
    pub fn to_text(&self) -> (text: String)
        ensures
            text@ == self.operation@ + " failed for "@ + lossy_text(self.path@) + ": "@
                + self.message@,
    {
        let mut out = self.operation.clone();
        out.append(" failed for ");
        out.append(self.path.to_text_lossy().as_str());
        out.append(": ");
        out.append(self.message.as_str());
        out
    }
}

/// Top-level failure before a reportable per-object outcome can be produced.
#[derive(Clone, Debug, PartialEq, Eq)]
pub enum BigcpError {
    /// Fatal startup or orchestration I/O.
    Io {
        /// What operation failed.
        context: String,
        /// Original error.
        source: IoError,
    },
    /// Invalid or unsafe configuration.
    Invalid(String),
    /// Machine-wide destination lock is already held.
    Locked(String),
    /// Audit stream could not be preserved.
    Audit(String),
    /// Counter or state invariant was violated.
    Invariant(String),
    /// Stored artifact is malformed.
    Format(String),
}

/// A top-level failure as values.
#[verifier::ext_equal]
pub ghost enum FailureView {
    Io { context: Seq<char>, source: IoError },
    Invalid(Seq<char>),
    Locked(Seq<char>),
    Audit(Seq<char>),
    Invariant(Seq<char>),
    Format(Seq<char>),
}

impl View for BigcpError {
    type V = FailureView;

    open spec fn view(&self) -> FailureView {
        match *self {
            BigcpError::Io { context, source } => FailureView::Io { context: context@, source },
            BigcpError::Invalid(text) => FailureView::Invalid(text@),
            BigcpError::Locked(text) => FailureView::Locked(text@),
            BigcpError::Audit(text) => FailureView::Audit(text@),
            BigcpError::Invariant(text) => FailureView::Invariant(text@),
            BigcpError::Format(text) => FailureView::Format(text@),
        }
    }
}

impl BigcpError {
    /// The text of a top-level failure.
    pub open spec fn spec_text(self) -> Seq<char> {
        match self {
            BigcpError::Io { context, source } => context@ + ": "@ + source.message@,
            BigcpError::Invalid(text) => text@,
            BigcpError::Locked(text) => text@,
            BigcpError::Audit(text) => text@,
            BigcpError::Invariant(text) => text@,
            BigcpError::Format(text) => text@,
        }
    }

    /// Attaches a concise operation label to an I/O error.
    pub fn io(context: &str, source: IoError) -> (error: Self)
        ensures
            error matches BigcpError::Io { context: c, source: s } && c@ == context@ && s
                == source,
    {
        BigcpError::Io { context: context.to_owned(), source }
    }

    /// The text of this failure.
    pub fn to_text(&self) -> (text: String)
        ensures
            text@ == self.spec_text(),
    {
        match self {
            BigcpError::Io { context, source } => {
                let mut out = context.clone();
                out.append(": ");
                out.append(source.message.as_str());
                out
            },
            BigcpError::Invalid(text) => text.clone(),
            BigcpError::Locked(text) => text.clone(),
            BigcpError::Audit(text) => text.clone(),
            BigcpError::Invariant(text) => text.clone(),
            BigcpError::Format(text) => text.clone(),
        }
    }
}

/// The process exit code of a top-level failure: 5 where the run could not
/// start or continue, 6 where its own records or invariants failed.
pub open spec fn spec_exit_for_error(error: BigcpError) -> u8 {
    match error {
        BigcpError::Locked(_) | BigcpError::Invalid(_) | BigcpError::Io { .. } => 5,
        BigcpError::Audit(_) | BigcpError::Invariant(_) | BigcpError::Format(_) => 6,
    }
}

/// The process exit code of a top-level failure.
pub fn exit_for_error(error: &BigcpError) -> (code: u8)
    ensures
        code == spec_exit_for_error(*error),
{
    match error {
        BigcpError::Locked(_) | BigcpError::Invalid(_) | BigcpError::Io { .. } => 5,
        BigcpError::Audit(_) | BigcpError::Invariant(_) | BigcpError::Format(_) => 6,
    }
}

/// What the system's own code says of a failure decides its category before
/// anything else; a cloud failure or the kind of the error decides only where
/// the code says nothing.
pub proof fn system_code_decides_the_category(code: i32, cloud: bool, kind: IoErrorKind)
    ensures
        ({
            let category = spec_category_for(Some(code), cloud, kind);
            let gone = code == 21 || code == 53 || code == 55 || code == 59 || code == 64 || code
                == 67 || code == 121 || code == 433 || code == 1167 || code == 1222 || code == 1231
                || code == 1236 || code == 2250;
            let known = gone || code == 5 || code == 32 || code == 33 || code == 39 || code == 112
                || code == 23 || code == 1117 || code == 80 || code == 183 || code == 206;
            &&& code == 5 ==> category is Permissions
            &&& code == 32 || code == 33 ==> category is Locked
            &&& category is Locked <==> code == 32 || code == 33
            &&& category is Space <==> code == 39 || code == 112
            &&& category is Media <==> code == 23 || code == 1117
            &&& category is DeviceGone <==> gone
            &&& code == 80 || code == 183 ==> category is DestinationChanged
            &&& code == 206 ==> category is Path
            &&& category is Cloud <==> !known && cloud
            &&& !known && !cloud ==> category == spec_category_for(None, cloud, kind)
        }),
        spec_category_for(None, cloud, kind) is Path <==> kind is NotFound || kind is InvalidInput,
        spec_category_for(None, cloud, kind) is DestinationChanged <==> kind is AlreadyExists,
        spec_category_for(None, cloud, kind) is Permissions <==> kind is PermissionDenied,
        !(kind is NotFound || kind is InvalidInput || kind is AlreadyExists || kind
            is PermissionDenied) ==> spec_category_for(None, cloud, kind) is Internal,
{
}

/// A failure carries its operation, path, code and message as they are, with
/// the hint of its category.
pub proof fn failure_keeps_its_facts(
    category: ErrorCategory,
    operation: Seq<char>,
    path: Seq<u16>,
    error: IoError,
    message: Seq<char>,
)
    ensures
        ({
            let io = io_error_view(category, operation, path, error);
            let semantic = semantic_error_view(category, operation, path, message);
            &&& io.category == category && semantic.category == category
            &&& io.operation == operation && semantic.operation == operation
            &&& io.path == path && semantic.path == path
            &&& io.code == error.code && semantic.code is None
            &&& io.message == error.message@ && semantic.message == message
            &&& io.hint == semantic.hint
        }),
{
}

/// A run that may not start ends with 5, one that lost its own records with 6.
pub proof fn exit_tells_refusals_from_lost_records(error: BigcpError)
    ensures
        spec_exit_for_error(error) == 5 <==> error is Locked || error is Invalid || error is Io,
        spec_exit_for_error(error) == 6 <==> error is Audit || error is Invariant || error
            is Format,
{
}

} // verus!
