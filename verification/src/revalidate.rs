//! Whether an object is still the one that was enumerated, and what its
//! absence or change is called.

use vstd::prelude::*;
use vstd::string::*;

use crate::error::{
    category_of, io_error_view, semantic_error_view, ErrorCategory, ErrorView, IoError,
    IoErrorKind, OperationError,
};
use crate::path::WidePath;
use crate::platform::{ObjectKind, ObjectMetadata};

verus! {

/// Whether a kind of failure means that the source object is gone or changed.
pub open spec fn means_source_changed(kind: IoErrorKind) -> bool {
    kind is NotFound || kind is UnexpectedEof || kind is InvalidData
}

/// Whether a kind of failure means that the destination object is gone or
/// changed.
pub open spec fn means_destination_changed(kind: IoErrorKind) -> bool {
    kind is NotFound || kind is AlreadyExists || kind is InvalidData
}

/// A failed access to a source object.
pub open spec fn source_access_view(
    operation: Seq<char>,
    relative: Seq<u16>,
    error: IoError,
) -> ErrorView {
    io_error_view(
        if means_source_changed(error.kind) {
            ErrorCategory::SourceChanged
        } else {
            category_of(error)
        },
        operation,
        relative,
        error,
    )
}

/// A failed access to a destination object.
pub open spec fn destination_access_view(
    operation: Seq<char>,
    relative: Seq<u16>,
    error: IoError,
) -> ErrorView {
    io_error_view(
        if means_destination_changed(error.kind) {
            ErrorCategory::DestinationChanged
        } else {
            category_of(error)
        },
        operation,
        relative,
        error,
    )
}

/// Names a failed access to a source object: one that vanished or broke off
/// has changed.
pub fn source_access_error(operation: &str, relative: &WidePath, error: &IoError) -> (failure:
    OperationError)
    ensures
        failure@ == source_access_view(operation@, relative@, *error),
{
    if matches!(
        error.kind,
        IoErrorKind::NotFound | IoErrorKind::UnexpectedEof | IoErrorKind::InvalidData
    ) {
        OperationError::from_io_as(
            ErrorCategory::SourceChanged,
            operation,
            relative.copied(),
            error,
        )
    } else {
        OperationError::from_io(operation, relative.copied(), error)
    }
}

/// Names a failed access to a destination object: one that vanished or
/// appeared has changed.
pub fn destination_access_error(operation: &str, relative: &WidePath, error: &IoError) -> (failure:
    OperationError)
    ensures
        failure@ == destination_access_view(operation@, relative@, *error),
{
    if matches!(
        error.kind,
        IoErrorKind::NotFound | IoErrorKind::AlreadyExists | IoErrorKind::InvalidData
    ) {
        OperationError::from_io_as(
            ErrorCategory::DestinationChanged,
            operation,
            relative.copied(),
            error,
        )
    } else {
        OperationError::from_io(operation, relative.copied(), error)
    }
}

/// Whether an object still has the identity, class, size, last-write time,
/// attributes and reparse tag that were captured.
pub open spec fn unchanged(observed: ObjectMetadata, expected: ObjectMetadata) -> bool {
    &&& observed.identity == expected.identity
    &&& observed.kind == expected.kind
    &&& observed.size == expected.size
    &&& observed.basic.last_write_time == expected.basic.last_write_time
    &&& observed.basic.attributes == expected.basic.attributes
    &&& observed.reparse_tag == expected.reparse_tag
}

/// Whether two optional reparse tags agree.
pub fn same_tag(left: Option<u32>, right: Option<u32>) -> (same: bool)
    ensures
        same == (left == right),
{
    match (left, right) {
        (Some(left), Some(right)) => left == right,
        (None, None) => true,
        _ => false,
    }
}

/// Whether an object is unchanged since it was captured.
pub fn is_unchanged(observed: &ObjectMetadata, expected: &ObjectMetadata) -> (same: bool)
    ensures
        same == unchanged(*observed, *expected),
{
    observed.identity.same_as(&expected.identity) && observed.kind == expected.kind
        && observed.size == expected.size && observed.basic.last_write_time
        == expected.basic.last_write_time && observed.basic.attributes
        == expected.basic.attributes && same_tag(observed.reparse_tag, expected.reparse_tag)
}

/// The failure of a source revalidation, if it fails.
pub open spec fn source_revalidation(
    observed: Result<ObjectMetadata, IoError>,
    expected: ObjectMetadata,
    relative: Seq<u16>,
) -> Option<ErrorView> {
    match observed {
        Err(error) => Some(
            io_error_view(
                if error.kind is NotFound {
                    ErrorCategory::SourceChanged
                } else {
                    category_of(error)
                },
                "revalidate_src"@,
                relative,
                error,
            ),
        ),
        Ok(observed) => if unchanged(observed, expected) {
            None
        } else {
            Some(
                semantic_error_view(
                    ErrorCategory::SourceChanged,
                    "revalidate_src"@,
                    relative,
                    "source changed after enumeration"@,
                ),
            )
        },
    }
}

/// The failure of a destination revalidation, if it fails.
pub open spec fn destination_revalidation(
    observed: Result<ObjectMetadata, IoError>,
    expected: ObjectMetadata,
    relative: Seq<u16>,
) -> Option<ErrorView> {
    match observed {
        Err(error) => if error.kind is NotFound {
            Some(
                semantic_error_view(
                    ErrorCategory::DestinationChanged,
                    "revalidate_dst"@,
                    relative,
                    "destination disappeared after classification"@,
                ),
            )
        } else {
            Some(io_error_view(category_of(error), "revalidate_dst"@, relative, error))
        },
        Ok(observed) => if unchanged(observed, expected) {
            None
        } else {
            Some(
                semantic_error_view(
                    ErrorCategory::DestinationChanged,
                    "revalidate_dst"@,
                    relative,
                    "destination changed after classification"@,
                ),
            )
        },
    }
}

/// Whether a verdict is the stated failure, or success where none is stated.
pub open spec fn is_verdict(
    verdict: Result<(), OperationError>,
    failure: Option<ErrorView>,
) -> bool {
    match failure {
        Some(view) => verdict matches Err(error) && error@ == view,
        None => verdict is Ok,
    }
}

/// Checks what was read again of a source against what was enumerated.
pub fn revalidate_source(
    observed: &Result<ObjectMetadata, IoError>,
    expected: &ObjectMetadata,
    relative: &WidePath,
) -> (verdict: Result<(), OperationError>)
    ensures
        is_verdict(verdict, source_revalidation(*observed, *expected, relative@)),
{
    match observed {
        Err(error) => {
            if error.kind == IoErrorKind::NotFound {
                Err(
                    OperationError::from_io_as(
                        ErrorCategory::SourceChanged,
                        "revalidate_src",
                        relative.copied(),
                        error,
                    ),
                )
            } else {
                Err(OperationError::from_io("revalidate_src", relative.copied(), error))
            }
        },
        Ok(observed) => {
            if is_unchanged(observed, expected) {
                Ok(())
            } else {
                Err(
                    OperationError::semantic(
                        ErrorCategory::SourceChanged,
                        "revalidate_src",
                        relative.copied(),
                        "source changed after enumeration".to_owned(),
                    ),
                )
            }
        },
    }
}

/// Checks what was read again of a destination against what was classified.
pub fn revalidate_destination(
    observed: &Result<ObjectMetadata, IoError>,
    expected: &ObjectMetadata,
    relative: &WidePath,
) -> (verdict: Result<(), OperationError>)
    ensures
        is_verdict(verdict, destination_revalidation(*observed, *expected, relative@)),
{
    match observed {
        Err(error) => {
            if error.kind == IoErrorKind::NotFound {
                Err(
                    OperationError::semantic(
                        ErrorCategory::DestinationChanged,
                        "revalidate_dst",
                        relative.copied(),
                        "destination disappeared after classification".to_owned(),
                    ),
                )
            } else {
                Err(OperationError::from_io("revalidate_dst", relative.copied(), error))
            }
        },
        Ok(observed) => {
            if is_unchanged(observed, expected) {
                Ok(())
            } else {
                Err(
                    OperationError::semantic(
                        ErrorCategory::DestinationChanged,
                        "revalidate_dst",
                        relative.copied(),
                        "destination changed after classification".to_owned(),
                    ),
                )
            }
        },
    }
}

/// Whether a source directory is still the one whose metadata is about to be
/// stamped.
pub open spec fn directory_unchanged(observed: ObjectMetadata, expected: ObjectMetadata) -> bool {
    &&& observed.identity == expected.identity
    &&& observed.kind is Directory
    &&& observed.basic.last_write_time == expected.basic.last_write_time
    &&& observed.basic.attributes == expected.basic.attributes
    &&& observed.reparse_tag == expected.reparse_tag
}

/// Whether a source directory is still the one whose metadata is about to be
/// stamped.
pub fn same_directory_source(observed: &ObjectMetadata, expected: &ObjectMetadata) -> (same: bool)
    ensures
        same == directory_unchanged(*observed, *expected),
{
    observed.identity.same_as(&expected.identity) && observed.kind == ObjectKind::Directory
        && observed.basic.last_write_time == expected.basic.last_write_time
        && observed.basic.attributes == expected.basic.attributes && same_tag(
        observed.reparse_tag,
        expected.reparse_tag,
    )
}

/// An object that was read again without any change passes revalidation.
pub proof fn unchanged_object_revalidates(metadata: ObjectMetadata, relative: Seq<u16>)
    ensures
        source_revalidation(Ok(metadata), metadata, relative) is None,
        destination_revalidation(Ok(metadata), metadata, relative) is None,
{
}

/// A source or destination passes its second look exactly if it could be read
/// and is the same object of the same class, with the same size, last-write
/// time, attributes and reparse tag; everything else is a failure of that look.
pub proof fn second_look_compares_every_field(
    observed: Result<ObjectMetadata, IoError>,
    expected: ObjectMetadata,
    relative: Seq<u16>,
)
    ensures
        ({
            let same = observed matches Ok(seen) && {
                &&& seen.identity.volume_serial == expected.identity.volume_serial
                &&& seen.identity.file_id == expected.identity.file_id
                &&& seen.kind == expected.kind
                &&& seen.size == expected.size
                &&& seen.basic.last_write_time == expected.basic.last_write_time
                &&& seen.basic.attributes == expected.basic.attributes
                &&& seen.reparse_tag == expected.reparse_tag
            };
            let vanished = observed matches Err(error) && error.kind is NotFound;
            let source = source_revalidation(observed, expected, relative);
            let destination = destination_revalidation(observed, expected, relative);
            &&& source is None <==> same
            &&& destination is None <==> same
            &&& source matches Some(failure) ==> failure.operation == "revalidate_src"@ && (observed
                is Ok || vanished ==> failure.category is SourceChanged)
            &&& destination matches Some(failure) ==> failure.operation == "revalidate_dst"@ && (
            observed is Ok || vanished ==> failure.category is DestinationChanged)
        }),
{
}

/// A directory passes its second look exactly if it is the same directory, with
/// the same last-write time, attributes and reparse tag.
pub proof fn directory_look_compares_every_field(
    observed: ObjectMetadata,
    expected: ObjectMetadata,
)
    ensures
        directory_unchanged(observed, expected) <==> {
            &&& observed.identity.volume_serial == expected.identity.volume_serial
            &&& observed.identity.file_id == expected.identity.file_id
            &&& observed.kind == ObjectKind::Directory
            &&& observed.basic.last_write_time == expected.basic.last_write_time
            &&& observed.basic.attributes == expected.basic.attributes
            &&& observed.reparse_tag == expected.reparse_tag
        },
{
}

/// An access that failed because the object is gone or is another one is told
/// as a change; any other failure keeps its own category.
pub proof fn failed_access_names_a_change(
    operation: Seq<char>,
    relative: Seq<u16>,
    error: IoError,
)
    ensures
        ({
            let source = source_access_view(operation, relative, error);
            let destination = destination_access_view(operation, relative, error);
            &&& source.operation == operation && destination.operation == operation
            &&& error.kind is NotFound ==> source.category is SourceChanged && destination.category
                is DestinationChanged
            &&& error.kind is InvalidData ==> source.category is SourceChanged
                && destination.category is DestinationChanged
            &&& error.kind is UnexpectedEof ==> source.category is SourceChanged
            &&& error.kind is AlreadyExists ==> destination.category is DestinationChanged
            &&& error.kind is PermissionDenied ==> source.category == category_of(error)
                && destination.category == category_of(error)
        }),
{
}

} // verus!
