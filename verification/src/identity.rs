//! Which paths name the same object: comparison under the casing of their
//! endpoints, lock identities, and the layout of the audit artifacts.

use vstd::prelude::*;
use vstd::string::*;

use crate::error::{BigcpError, FailureView, IoError};
use crate::hashing::{hex_encode, hex_text, sha256, sha256_of};
use crate::keys::{le_bytes, le_bytes_of};
use crate::path::{child_of, is_separator, units_eq, utf16_of, WidePath};
use crate::text::text_prefix;

verus! {

/// A path with what the platform says of its comparison.
#[derive(Debug, PartialEq, Eq)]
pub struct PathIdentity {
    /// The path as it is.
    pub exact: WidePath,
    /// The path without regard to case, or why there is none.
    pub folded: Result<WidePath, IoError>,
    /// Whether names are matched with exact casing where the path lies.
    pub case_sensitive: bool,
}

/// A path with its comparison, as values.
#[verifier::ext_equal]
pub ghost struct IdentityView {
    pub exact: Seq<u16>,
    pub folded: Result<Seq<u16>, IoError>,
    pub case_sensitive: bool,
}

impl View for PathIdentity {
    type V = IdentityView;

    open spec fn view(&self) -> IdentityView {
        IdentityView {
            exact: self.exact@,
            folded: match self.folded {
                Ok(path) => Ok(path@),
                Err(error) => Err(error),
            },
            case_sensitive: self.case_sensitive,
        }
    }
}

/// Whether a path is a root or lies below it.
pub open spec fn at_or_below(path: Seq<u16>, root: Seq<u16>) -> bool {
    path == root || (root.len() > 0 && path.len() > root.len() && path.take(root.len() as int)
        == root && (is_separator(root.last()) || is_separator(path[root.len() as int])))
}

impl IdentityView {
    /// What is compared of a path.
    pub open spec fn key(self, case_sensitive: bool) -> Result<Seq<u16>, IoError> {
        if case_sensitive {
            Ok(self.exact)
        } else {
            self.folded
        }
    }

    /// Whether two paths are the same.
    pub open spec fn same(self, other: IdentityView, case_sensitive: bool) -> Result<
        bool,
        IoError,
    > {
        match (self.key(case_sensitive), other.key(case_sensitive)) {
            (Err(error), _) => Err(error),
            (_, Err(error)) => Err(error),
            (Ok(left), Ok(right)) => Ok(left == right),
        }
    }

    /// Whether this path is a root or lies below it.
    pub open spec fn below(self, root: IdentityView, case_sensitive: bool) -> Result<
        bool,
        IoError,
    > {
        match (self.key(case_sensitive), root.key(case_sensitive)) {
            (Err(error), _) => Err(error),
            (_, Err(error)) => Err(error),
            (Ok(path), Ok(root)) => Ok(at_or_below(path, root)),
        }
    }

    /// Whether two paths are the same where either one's endpoint may match
    /// with exact casing.
    pub open spec fn resolves_to(self, other: IdentityView) -> Result<bool, IoError> {
        self.same(other, self.case_sensitive || other.case_sensitive)
    }
}

fn starts_with(path: &WidePath, root: &WidePath) -> (starts: bool)
    ensures
        starts == (path@.len() >= root@.len() && path@.take(root@.len() as int) == root@),
{
    if path.units.len() < root.units.len() {
        return false;
    }
    let prefix = crate::path::copy_units(path.units.as_slice(), 0, root.units.len());
    assert(prefix@ =~= path@.take(root@.len() as int));
    units_eq(prefix.as_slice(), root.units.as_slice())
}

fn separates(unit: u16) -> (separates: bool)
    ensures
        separates == is_separator(unit),
{
    unit == 0x5C || unit == 0x2F
}

fn lies_at_or_below(path: &WidePath, root: &WidePath) -> (below: bool)
    ensures
        below == at_or_below(path@, root@),
{
    if path.same_as(root) {
        return true;
    }
    if root.units.len() == 0 || path.units.len() <= root.units.len() || !starts_with(path, root) {
        return false;
    }
    separates(root.units[root.units.len() - 1]) || separates(path.units[root.units.len()])
}

/// An optional outcome as values.
pub open spec fn verdict_of<T>(result: Result<T, BigcpError>) -> Result<T, FailureView> {
    match result {
        Ok(value) => Ok(value),
        Err(error) => Err(error@),
    }
}

/// A comparison that failed in some context.
pub open spec fn in_context(result: Result<bool, IoError>, context: Seq<char>) -> Result<
    bool,
    FailureView,
> {
    match result {
        Ok(value) => Ok(value),
        Err(source) => Err(FailureView::Io { context, source }),
    }
}

impl PathIdentity {
    fn key(&self, case_sensitive: bool) -> (key: Result<&WidePath, IoError>)
        ensures
            match key {
                Ok(path) => self@.key(case_sensitive) == Ok::<Seq<u16>, IoError>(path@),
                Err(error) => self@.key(case_sensitive) == Err::<Seq<u16>, IoError>(error),
            },
    {
        if case_sensitive {
            return Ok(&self.exact);
        }
        match &self.folded {
            Ok(path) => Ok(path),
            Err(error) => Err(error.copied()),
        }
    }

    /// Whether two paths are the same.
    pub fn is_same(&self, other: &PathIdentity, case_sensitive: bool) -> (same: Result<
        bool,
        IoError,
    >)
        ensures
            same == self@.same(other@, case_sensitive),
    {
        match self.key(case_sensitive) {
            Err(error) => Err(error),
            Ok(left) => match other.key(case_sensitive) {
                Err(error) => Err(error),
                Ok(right) => Ok(left.same_as(right)),
            },
        }
    }

    /// Whether this path is a root or lies below it.
    pub fn is_same_or_descendant(&self, root: &PathIdentity, case_sensitive: bool) -> (below: Result<
        bool,
        IoError,
    >)
        ensures
            below == self@.below(root@, case_sensitive),
    {
        match self.key(case_sensitive) {
            Err(error) => Err(error),
            Ok(path) => match root.key(case_sensitive) {
                Err(error) => Err(error),
                Ok(root) => Ok(lies_at_or_below(path, root)),
            },
        }
    }
}

/// Whether two resolved paths are the same.
pub fn resolved_paths_equal(left: &PathIdentity, right: &PathIdentity) -> (same: Result<
    bool,
    BigcpError,
>)
    ensures
        verdict_of(same) == in_context(
            left@.resolves_to(right@),
            "compare audit artifact paths"@,
        ),
{
    match left.is_same(right, left.case_sensitive || right.case_sensitive) {
        Ok(same) => Ok(same),
        Err(error) => Err(BigcpError::io("compare audit artifact paths", error)),
    }
}

/// Whether two paths are the same, each under the casing of its own endpoint.
pub open spec fn spec_same_path(left: IdentityView, right: IdentityView) -> Result<bool, IoError> {
    match (left.key(left.case_sensitive), right.key(right.case_sensitive)) {
        (Err(error), _) => Err(error),
        (_, Err(error)) => Err(error),
        (Ok(left), Ok(right)) => Ok(left == right),
    }
}

/// Whether two paths are the same, each under the casing of its own endpoint.
pub fn same_path(left: &PathIdentity, right: &PathIdentity) -> (same: Result<bool, BigcpError>)
    ensures
        verdict_of(same) == in_context(spec_same_path(left@, right@), "compare path"@),
{
    match left.key(left.case_sensitive) {
        Err(error) => Err(BigcpError::io("compare path", error)),
        Ok(one) => match right.key(right.case_sensitive) {
            Err(error) => Err(BigcpError::io("compare path", error)),
            Ok(other) => Ok(one.same_as(other)),
        },
    }
}

/// The bytes that identify one path: its compared units, and a zero unit
/// behind them.
pub open spec fn identity_bytes(units: Seq<u16>) -> Seq<u8> {
    le_bytes(units) + seq![0u8, 0u8]
}

/// The text of a lock identity.
pub open spec fn identity_text(bytes: Seq<u8>) -> Seq<char> {
    hex_text(sha256_of(bytes))
}

/// The identity of one path.
pub open spec fn spec_path_hash(path: IdentityView) -> Result<Seq<char>, IoError> {
    match path.key(path.case_sensitive) {
        Ok(units) => Ok(identity_text(identity_bytes(units))),
        Err(error) => Err(error),
    }
}

/// The identity of a pair of paths.
pub open spec fn spec_path_pair_hash(source: IdentityView, destination: IdentityView) -> Result<
    Seq<char>,
    IoError,
> {
    match (source.key(source.case_sensitive), destination.key(destination.case_sensitive)) {
        (Err(error), _) => Err(error),
        (_, Err(error)) => Err(error),
        (Ok(left), Ok(right)) => Ok(identity_text(identity_bytes(left) + identity_bytes(right))),
    }
}

/// Whether a result is this text, or this failure to fold a path.
pub open spec fn is_identity(
    result: Result<String, BigcpError>,
    expected: Result<Seq<char>, IoError>,
) -> bool {
    match expected {
        Ok(text) => result matches Ok(found) && found@ == text,
        Err(source) => result matches Err(error) && error@ == (FailureView::Io {
            context: "case-fold path lock identity"@,
            source,
        }),
    }
}

fn push_identity(out: &mut Vec<u8>, units: &WidePath)
    ensures
        final(out)@ == old(out)@ + identity_bytes(units@),
{
    let mut bytes = le_bytes_of(units.units.as_slice());
    out.append(&mut bytes);
    out.push(0);
    out.push(0);
    assert(out@ =~= old(out)@ + identity_bytes(units@));
}

/// The identity of one path, by which the machine-wide lock is named.
pub fn path_hash(path: &PathIdentity) -> (hash: Result<String, BigcpError>)
    ensures
        is_identity(hash, spec_path_hash(path@)),
        hash matches Ok(text) ==> text@.len() == 64,
{
    let mut bytes: Vec<u8> = Vec::new();
    match path.key(path.case_sensitive) {
        Err(error) => Err(BigcpError::io("case-fold path lock identity", error)),
        Ok(units) => {
            push_identity(&mut bytes, units);
            assert(bytes@ =~= identity_bytes(units@));
            let digest = sha256(bytes.as_slice());
            Ok(hex_encode(digest.as_slice()))
        },
    }
}

/// The identity of a source and destination pair, by which their state is
/// kept.
pub fn path_pair_hash(source: &PathIdentity, destination: &PathIdentity) -> (hash: Result<
    String,
    BigcpError,
>)
    ensures
        is_identity(hash, spec_path_pair_hash(source@, destination@)),
        hash matches Ok(text) ==> text@.len() == 64,
{
    let mut bytes: Vec<u8> = Vec::new();
    let left = match source.key(source.case_sensitive) {
        Err(error) => {
            return Err(BigcpError::io("case-fold path lock identity", error));
        },
        Ok(units) => units,
    };
    let right = match destination.key(destination.case_sensitive) {
        Err(error) => {
            return Err(BigcpError::io("case-fold path lock identity", error));
        },
        Ok(units) => units,
    };
    push_identity(&mut bytes, left);
    push_identity(&mut bytes, right);
    assert(bytes@ =~= identity_bytes(left@) + identity_bytes(right@));
    let digest = sha256(bytes.as_slice());
    Ok(hex_encode(digest.as_slice()))
}

/// Which artifact is spoken of.
#[derive(Clone, Copy, Debug, PartialEq, Eq, Structural)]
pub enum ArtifactRole {
    /// The state directory.
    State,
    /// The log.
    Log,
    /// The report.
    Report,
}

impl ArtifactRole {
    /// The name of the role in messages.
    pub open spec fn spec_label(self) -> Seq<char> {
        match self {
            ArtifactRole::State => "state directory"@,
            ArtifactRole::Log => "log"@,
            ArtifactRole::Report => "report"@,
        }
    }

    /// The name of the role in messages.
    pub fn label(self) -> (label: &'static str)
        ensures
            label@ == self.spec_label(),
    {
        match self {
            ArtifactRole::State => "state directory",
            ArtifactRole::Log => "log",
            ArtifactRole::Report => "report",
        }
    }
}

/// Whether an artifact keeps clear of the state directory and its journal, or
/// what is wrong.
pub open spec fn artifact_failure(
    role: ArtifactRole,
    artifact: IdentityView,
    state: IdentityView,
    journal: IdentityView,
) -> Option<FailureView> {
    match in_context(artifact.resolves_to(state), "compare audit artifact paths"@) {
        Err(failure) => Some(failure),
        Ok(true) => Some(
            FailureView::Invalid(
                role.spec_label() + " path may not replace the state directory"@,
            ),
        ),
        Ok(false) => match in_context(
            artifact.resolves_to(journal),
            "compare audit artifact paths"@,
        ) {
            Err(failure) => Some(failure),
            Ok(true) => Some(
                FailureView::Invalid(
                    role.spec_label() + " path may not replace the checkpoint journal"@,
                ),
            ),
            Ok(false) => match in_context(
                state.below(artifact, state.case_sensitive || artifact.case_sensitive),
                "validate audit artifact layout"@,
            ) {
                Err(failure) => Some(failure),
                Ok(true) => Some(
                    FailureView::Invalid(
                        role.spec_label()
                            + " path may not be an ancestor of the state directory"@,
                    ),
                ),
                Ok(false) => None,
            },
        },
    }
}

/// Whether the artifact roles are disjoint, or what is wrong.
pub open spec fn layout_failure(
    state: IdentityView,
    journal: IdentityView,
    log: IdentityView,
    report: IdentityView,
) -> Option<FailureView> {
    match in_context(log.resolves_to(report), "compare audit artifact paths"@) {
        Err(failure) => Some(failure),
        Ok(true) => Some(FailureView::Invalid("log and report paths must be distinct"@)),
        Ok(false) => match artifact_failure(ArtifactRole::Log, log, state, journal) {
            Some(failure) => Some(failure),
            None => artifact_failure(ArtifactRole::Report, report, state, journal),
        },
    }
}

/// Whether a verdict is this failure, or success where there is none.
pub open spec fn is_verdict_on(
    verdict: Result<(), BigcpError>,
    failure: Option<FailureView>,
) -> bool {
    match failure {
        None => verdict is Ok,
        Some(failure) => verdict matches Err(error) && error@ == failure,
    }
}

fn invalid_role(role: ArtifactRole, message: &str) -> (error: BigcpError)
    ensures
        error@ == FailureView::Invalid(role.spec_label() + message@),
{
    let mut text = role.label().to_owned();
    text.append(message);
    BigcpError::Invalid(text)
}

fn check_artifact(
    role: ArtifactRole,
    artifact: &PathIdentity,
    state: &PathIdentity,
    journal: &PathIdentity,
) -> (verdict: Result<(), BigcpError>)
    ensures
        is_verdict_on(verdict, artifact_failure(role, artifact@, state@, journal@)),
{
    match resolved_paths_equal(artifact, state) {
        Err(error) => {
            return Err(error);
        },
        Ok(same) => {
            if same {
                return Err(invalid_role(role, " path may not replace the state directory"));
            }
        },
    }
    match resolved_paths_equal(artifact, journal) {
        Err(error) => {
            return Err(error);
        },
        Ok(same) => {
            if same {
                return Err(invalid_role(role, " path may not replace the checkpoint journal"));
            }
        },
    }
    match state.is_same_or_descendant(artifact, state.case_sensitive || artifact.case_sensitive) {
        Err(error) => Err(BigcpError::io("validate audit artifact layout", error)),
        Ok(below) => {
            if below {
                Err(invalid_role(role, " path may not be an ancestor of the state directory"))
            } else {
                Ok(())
            }
        },
    }
}

/// Keeps the durable artifacts disjoint. Log and report may lie inside the
/// state directory, but neither may replace it, its journal, the other one, or
/// an ancestor of it.
pub fn validate_audit_layout(
    state: &PathIdentity,
    journal: &PathIdentity,
    log: &PathIdentity,
    report: &PathIdentity,
) -> (verdict: Result<(), BigcpError>)
    ensures
        is_verdict_on(verdict, layout_failure(state@, journal@, log@, report@)),
{
    match resolved_paths_equal(log, report) {
        Err(error) => {
            return Err(error);
        },
        Ok(same) => {
            if same {
                return Err(
                    BigcpError::Invalid("log and report paths must be distinct".to_owned()),
                );
            }
        },
    }
    match check_artifact(ArtifactRole::Log, log, state, journal) {
        Err(error) => Err(error),
        Ok(_) => check_artifact(ArtifactRole::Report, report, state, journal),
    }
}

/// Whether an artifact lies outside both trees, or what is wrong.
pub open spec fn containment_failure(
    role: ArtifactRole,
    artifact: IdentityView,
    source: IdentityView,
    destination: IdentityView,
) -> Option<FailureView> {
    let inside = FailureView::Invalid(
        role.spec_label() + " may not be inside the source or destination tree"@,
    );
    match in_context(artifact.below(source, source.case_sensitive), "validate audit path"@) {
        Err(failure) => Some(failure),
        Ok(true) => Some(inside),
        Ok(false) => match in_context(
            artifact.below(destination, destination.case_sensitive),
            "validate audit path"@,
        ) {
            Err(failure) => Some(failure),
            Ok(true) => Some(inside),
            Ok(false) => None,
        },
    }
}

/// Checks that an artifact lies outside both trees.
pub fn check_outside(
    role: ArtifactRole,
    artifact: &PathIdentity,
    source: &PathIdentity,
    destination: &PathIdentity,
) -> (verdict: Result<(), BigcpError>)
    ensures
        is_verdict_on(verdict, containment_failure(role, artifact@, source@, destination@)),
{
    match artifact.is_same_or_descendant(source, source.case_sensitive) {
        Err(error) => {
            return Err(BigcpError::io("validate audit path", error));
        },
        Ok(below) => {
            if below {
                return Err(
                    invalid_role(role, " may not be inside the source or destination tree"),
                );
            }
        },
    }
    match artifact.is_same_or_descendant(destination, destination.case_sensitive) {
        Err(error) => Err(BigcpError::io("validate audit path", error)),
        Ok(below) => {
            if below {
                Err(invalid_role(role, " may not be inside the source or destination tree"))
            } else {
                Ok(())
            }
        },
    }
}

/// What is wrong with the audit paths, if anything is: first the layout, then
/// each role's place.
pub open spec fn audit_paths_failure(
    state: IdentityView,
    journal: IdentityView,
    log: IdentityView,
    report: IdentityView,
    source: IdentityView,
    destination: IdentityView,
) -> Option<FailureView> {
    match layout_failure(state, journal, log, report) {
        Some(failure) => Some(failure),
        None => match containment_failure(ArtifactRole::State, state, source, destination) {
            Some(failure) => Some(failure),
            None => match containment_failure(ArtifactRole::Log, log, source, destination) {
                Some(failure) => Some(failure),
                None => containment_failure(ArtifactRole::Report, report, source, destination),
            },
        },
    }
}

/// Checks the resolved audit paths of a run.
pub fn validate_audit_paths(
    state: &PathIdentity,
    journal: &PathIdentity,
    log: &PathIdentity,
    report: &PathIdentity,
    source: &PathIdentity,
    destination: &PathIdentity,
) -> (verdict: Result<(), BigcpError>)
    ensures
        is_verdict_on(
            verdict,
            audit_paths_failure(state@, journal@, log@, report@, source@, destination@),
        ),
{
    match validate_audit_layout(state, journal, log, report) {
        Err(error) => {
            return Err(error);
        },
        Ok(_) => {},
    }
    match check_outside(ArtifactRole::State, state, source, destination) {
        Err(error) => {
            return Err(error);
        },
        Ok(_) => {},
    }
    match check_outside(ArtifactRole::Log, log, source, destination) {
        Err(error) => Err(error),
        Ok(_) => check_outside(ArtifactRole::Report, report, source, destination),
    }
}

/// The default state directory of a pair of roots below the user's data
/// directory.
pub open spec fn default_state(base: Seq<u16>, key: Seq<char>) -> Seq<u16> {
    child_of(
        child_of(child_of(base, utf16_of("bigcp"@)), utf16_of("state"@)),
        utf16_of(key.take(16)),
    )
}

/// The default state directory of a pair of roots.
pub fn default_state_dir(base: &WidePath, key: &str) -> (path: WidePath)
    requires
        key@.len() >= 16,
    ensures
        path@ == default_state(base@, key@),
{
    let folder = base.child(&WidePath::from_text("bigcp")).child(&WidePath::from_text("state"));
    folder.child(&WidePath::from_text(text_prefix(key, 16).as_str()))
}

/// The path of an artifact of one run in the state directory.
pub fn run_artifact(state_dir: &WidePath, stub: &str, suffix: &str) -> (path: WidePath)
    ensures
        path@ == child_of(state_dir@, utf16_of("run-"@ + stub@ + suffix@)),
{
    let mut name = "run-".to_owned();
    name.append(stub);
    name.append(suffix);
    state_dir.child(&WidePath::from_text(name.as_str()))
}

/// Paths that are the same without regard to case name one lock, wherever
/// names are matched that way.
pub proof fn folded_twins_share_a_lock(left: IdentityView, right: IdentityView)
    requires
        !left.case_sensitive,
        !right.case_sensitive,
        left.folded == right.folded,
    ensures
        spec_path_hash(left) == spec_path_hash(right),
{
}

/// The bytes of a pair tell its paths apart: without a zero unit in a path, no
/// two pairs share them.
pub proof fn pairs_have_their_own_bytes(
    one: Seq<u16>,
    two: Seq<u16>,
    three: Seq<u16>,
    four: Seq<u16>,
)
    requires
        forall|i: int| 0 <= i < one.len() ==> #[trigger] one[i] != 0,
        forall|i: int| 0 <= i < two.len() ==> #[trigger] two[i] != 0,
        forall|i: int| 0 <= i < three.len() ==> #[trigger] three[i] != 0,
        forall|i: int| 0 <= i < four.len() ==> #[trigger] four[i] != 0,
        identity_bytes(one) + identity_bytes(two) == identity_bytes(three) + identity_bytes(four),
    ensures
        one == three,
        two == four,
{
    let left = identity_bytes(one) + identity_bytes(two);
    let right = identity_bytes(three) + identity_bytes(four);
    lemma_unit_bytes(one, two);
    lemma_unit_bytes(three, four);
    if one.len() < three.len() {
        let at = one.len() as int;
        assert(left[2 * at] == 0 && left[2 * at + 1] == 0);
        assert(three[at] % 256 == 0 && three[at] / 256 == 0);
        assert(three[at] == 0);
    }
    if three.len() < one.len() {
        let at = three.len() as int;
        assert(right[2 * at] == 0 && right[2 * at + 1] == 0);
        assert(one[at] % 256 == 0 && one[at] / 256 == 0);
        assert(one[at] == 0);
    }
    assert(left.len() == 2 * one.len() + 2 * two.len() + 4);
    assert(right.len() == 2 * three.len() + 2 * four.len() + 4);
    assert forall|i: int| 0 <= i < one.len() implies one[i] == three[i] by {
        assert(left[2 * i] == right[2 * i] && left[2 * i + 1] == right[2 * i + 1]);
        assert(one[i] % 256 == three[i] % 256 && one[i] / 256 == three[i] / 256);
    }
    assert(one =~= three);
    assert forall|i: int| 0 <= i < two.len() implies two[i] == four[i] by {
        let at = 2 * one.len() as int + 2 + 2 * i;
        assert(left[at] == right[at] && left[at + 1] == right[at + 1]);
        assert(two[i] % 256 == four[i] % 256 && two[i] / 256 == four[i] / 256);
    }
    assert(two =~= four);
}

proof fn lemma_unit_bytes(one: Seq<u16>, two: Seq<u16>)
    ensures
        ({
            let all = identity_bytes(one) + identity_bytes(two);
            &&& forall|i: int|
                0 <= i < one.len() ==> all[2 * i] == (#[trigger] one[i] % 256) as u8 && all[2 * i
                    + 1] == (one[i] / 256) as u8
            &&& all[2 * one.len() as int] == 0 && all[2 * one.len() as int + 1] == 0
            &&& forall|i: int|
                0 <= i < two.len() ==> all[2 * one.len() as int + 2 + 2 * i] == (#[trigger] two[i]
                    % 256) as u8 && all[2 * one.len() as int + 2 + 2 * i + 1] == (two[i] / 256)
                    as u8
        }),
{
    let all = identity_bytes(one) + identity_bytes(two);
    assert forall|i: int| 0 <= i < one.len() implies all[2 * i] == (#[trigger] one[i] % 256) as u8
        && all[2 * i + 1] == (one[i] / 256) as u8 by {
        assert((2 * i) / 2 == i && (2 * i + 1) / 2 == i);
    }
    assert forall|i: int| 0 <= i < two.len() implies all[2 * one.len() as int + 2 + 2 * i] == (
    #[trigger] two[i] % 256) as u8 && all[2 * one.len() as int + 2 + 2 * i + 1] == (two[i] / 256)
        as u8 by {
        assert((2 * i) / 2 == i && (2 * i + 1) / 2 == i);
    }
}

/// A layout that is accepted keeps every role to itself: log, report and
/// journal are three places, none of them the state directory.
pub proof fn accepted_roles_are_disjoint(
    state: IdentityView,
    journal: IdentityView,
    log: IdentityView,
    report: IdentityView,
)
    requires
        layout_failure(state, journal, log, report) is None,
    ensures
        log.resolves_to(report) == Ok::<bool, IoError>(false),
        log.resolves_to(state) == Ok::<bool, IoError>(false),
        report.resolves_to(state) == Ok::<bool, IoError>(false),
        log.resolves_to(journal) == Ok::<bool, IoError>(false),
        report.resolves_to(journal) == Ok::<bool, IoError>(false),
{
}

/// A path lies at or below a root exactly if it is the root or continues it
/// behind a separator: a name that only starts alike does not.
pub proof fn only_what_continues_a_root_lies_below_it(root: Seq<u16>, rest: Seq<u16>)
    requires
        root.len() > 0,
        rest.len() > 0,
    ensures
        at_or_below(root, root),
        at_or_below(root + rest, root) <==> is_separator(root.last()) || is_separator(rest[0]),
        !at_or_below(root, root + rest),
{
    assert((root + rest).take(root.len() as int) =~= root);
    assert((root + rest)[root.len() as int] == rest[0]);
    if root == root + rest {
        assert(root.len() == (root + rest).len());
    }
}

/// Two paths are compared as they are written where names are matched with
/// their casing, and by their folded form elsewhere; a form that cannot be had
/// leaves the question open.
pub proof fn casing_counts_only_where_names_match_by_it(
    left: IdentityView,
    right: IdentityView,
    case_sensitive: bool,
)
    ensures
        case_sensitive ==> left.same(right, case_sensitive) == Ok::<bool, IoError>(
            left.exact == right.exact,
        ),
        !case_sensitive ==> (left.same(right, case_sensitive) is Err <==> left.folded is Err
            || right.folded is Err),
        !case_sensitive && left.folded is Ok && right.folded is Ok ==> left.same(
            right,
            case_sensitive,
        ) == Ok::<bool, IoError>(left.folded->Ok_0 == right.folded->Ok_0),
        left.case_sensitive || right.case_sensitive ==> left.resolves_to(right) == Ok::<
            bool,
            IoError,
        >(left.exact == right.exact),
        case_sensitive ==> left.below(right, case_sensitive) == Ok::<bool, IoError>(
            at_or_below(left.exact, right.exact),
        ),
        !case_sensitive && left.folded is Ok && right.folded is Ok ==> left.below(
            right,
            case_sensitive,
        ) == Ok::<bool, IoError>(at_or_below(left.folded->Ok_0, right.folded->Ok_0)),
{
}

/// Artifacts that are accepted lie in neither tree: not the state directory,
/// not the log and not the report.
pub proof fn accepted_artifacts_lie_outside_both_trees(
    state: IdentityView,
    journal: IdentityView,
    log: IdentityView,
    report: IdentityView,
    source: IdentityView,
    destination: IdentityView,
)
    requires
        audit_paths_failure(state, journal, log, report, source, destination) is None,
    ensures
        state.below(source, source.case_sensitive) == Ok::<bool, IoError>(false),
        log.below(source, source.case_sensitive) == Ok::<bool, IoError>(false),
        report.below(source, source.case_sensitive) == Ok::<bool, IoError>(false),
        state.below(destination, destination.case_sensitive) == Ok::<bool, IoError>(false),
        log.below(destination, destination.case_sensitive) == Ok::<bool, IoError>(false),
        report.below(destination, destination.case_sensitive) == Ok::<bool, IoError>(false),
        log.resolves_to(report) == Ok::<bool, IoError>(false),
        state.below(log, state.case_sensitive || log.case_sensitive) == Ok::<bool, IoError>(false),
        state.below(report, state.case_sensitive || report.case_sensitive) == Ok::<bool, IoError>(
            false,
        ),
{
}

/// The lock of a destination and the state of a job go by the same form of the
/// path that names are matched by.
pub proof fn lock_goes_by_the_matching_form(path: IdentityView, other: IdentityView)
    ensures
        path.case_sensitive ==> spec_path_hash(path) == Ok::<Seq<char>, IoError>(
            hex_text(sha256_of(le_bytes(path.exact) + seq![0u8, 0u8])),
        ),
        !path.case_sensitive && path.folded is Ok ==> spec_path_hash(path) == Ok::<
            Seq<char>,
            IoError,
        >(hex_text(sha256_of(le_bytes(path.folded->Ok_0) + seq![0u8, 0u8]))),
        !path.case_sensitive && path.folded is Err ==> spec_path_hash(path) is Err
            && spec_path_pair_hash(path, other) is Err && spec_path_pair_hash(other, path) is Err,
        path.case_sensitive && other.case_sensitive ==> spec_path_pair_hash(path, other) == Ok::<
            Seq<char>,
            IoError,
        >(
            hex_text(
                sha256_of(
                    (le_bytes(path.exact) + seq![0u8, 0u8]) + (le_bytes(other.exact) + seq![
                        0u8,
                        0u8,
                    ]),
                ),
            ),
        ),
{
}

/// Whether two paths are the same does not depend on their order, a path is the
/// same as itself, and paths that match in every spelling are never told apart.
pub proof fn sameness_of_paths_is_mutual(one: IdentityView, other: IdentityView)
    ensures
        spec_same_path(one, other) is Ok <==> spec_same_path(other, one) is Ok,
        spec_same_path(one, other) == Ok::<bool, IoError>(true) ==> spec_same_path(other, one)
            == Ok::<bool, IoError>(true),
        spec_same_path(one, one) is Ok ==> spec_same_path(one, one) == Ok::<bool, IoError>(true),
        one.case_sensitive && other.case_sensitive ==> spec_same_path(one, other) == Ok::<
            bool,
            IoError,
        >(one.exact == other.exact),
        !one.case_sensitive && !other.case_sensitive && one.folded is Ok && other.folded is Ok
            ==> spec_same_path(one, other) == Ok::<bool, IoError>(one.folded == other.folded),
        !one.case_sensitive && one.folded is Err ==> spec_same_path(one, other) is Err,
{
}

} // verus!
