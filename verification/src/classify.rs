//! Pure implementation of the skip and replacement decision table.

use vstd::prelude::*;

use crate::filesystem::FilesystemPolicy;
use crate::model::{Classification, EntrySnapshot};
use crate::platform::{ObjectKind, ObjectMetadata};

verus! {

/// The texts of a list of field labels.
pub open spec fn label_texts(fields: Seq<&'static str>) -> Seq<Seq<char>> {
    fields.map_values(|field: &'static str| field@)
}

/// Whether the objects cannot be compared: their classes or reparse tags
/// differ.
pub open spec fn types_conflict(source: ObjectMetadata, destination: ObjectMetadata) -> bool {
    source.kind != destination.kind || (source.kind is Reparse && source.reparse_tag
        != destination.reparse_tag)
}

/// The data fields that differ, in audit order.
pub open spec fn data_differences(
    source: ObjectMetadata,
    destination: ObjectMetadata,
    policy: FilesystemPolicy,
) -> Seq<Seq<char>> {
    (if source.size != destination.size {
        seq!["size"@]
    } else {
        seq![]
    }) + (if !policy.spec_last_write_equal(
        source.basic.last_write_time as int,
        destination.basic.last_write_time as int,
    ) {
        seq!["mtime"@]
    } else {
        seq![]
    })
}

/// The metadata fields that differ, in audit order.
pub open spec fn metadata_differences(
    source: ObjectMetadata,
    destination: ObjectMetadata,
    policy: FilesystemPolicy,
) -> Seq<Seq<char>> {
    (if !policy.spec_attributes_equal(source.basic.attributes, destination.basic.attributes) {
        seq!["attributes"@]
    } else {
        seq![]
    }) + (if !policy.spec_creation_equal(
        source.basic.creation_time as int,
        destination.basic.creation_time as int,
    ) {
        seq!["ctime"@]
    } else {
        seq![]
    }) + (if policy.capabilities.extended_attributes && source.ea_size != destination.ea_size {
        seq!["ea_size"@]
    } else {
        seq![]
    })
}

/// What the decision table says of one source object and its destination twin.
pub open spec fn classified_as(
    source: ObjectMetadata,
    destination: Option<ObjectMetadata>,
    replace: bool,
    policy: FilesystemPolicy,
    verdict: Classification,
) -> bool {
    match destination {
        None => verdict is New,
        Some(twin) => {
            let data = data_differences(source, twin, policy);
            let metadata = metadata_differences(source, twin, policy);
            let newer = twin.basic.last_write_time > source.basic.last_write_time;
            if types_conflict(source, twin) {
                verdict is TypeConflict
            } else if data.len() > 0 {
                if replace {
                    verdict matches Classification::Replace { fields, destination_newer }
                        && label_texts(fields@) == data && destination_newer == newer
                } else {
                    verdict matches Classification::SkipDifferent { fields, destination_newer }
                        && label_texts(fields@) == data && destination_newer == newer
                }
            } else if metadata.len() > 0 {
                verdict matches Classification::MetadataDiff(fields) && label_texts(fields@)
                    == metadata
            } else {
                verdict is Same
            }
        },
    }
}

/// The destination metadata, where there is a destination.
pub open spec fn twin_metadata(destination: Option<&EntrySnapshot>) -> Option<ObjectMetadata> {
    match destination {
        Some(snapshot) => Some(snapshot.metadata),
        None => None,
    }
}

fn tags_equal(left: Option<u32>, right: Option<u32>) -> (same: bool)
    ensures
        same == (left == right),
{
    match (left, right) {
        (Some(left), Some(right)) => left == right,
        (None, None) => true,
        _ => false,
    }
}

/// Classifies a source entry against its destination-policy-matched twin.
pub fn classify(
    source: &EntrySnapshot,
    destination: Option<&EntrySnapshot>,
    replace: bool,
    policy: FilesystemPolicy,
) -> (verdict: Classification)
    ensures
        classified_as(source.metadata, twin_metadata(destination), replace, policy, verdict),
{
    let destination = match destination {
        Some(destination) => destination,
        None => {
            return Classification::New;
        },
    };
    if type_conflict(source.kind(), destination.kind()) || (source.kind() == ObjectKind::Reparse
        && !tags_equal(source.metadata.reparse_tag, destination.metadata.reparse_tag)) {
        return Classification::TypeConflict;
    }
    let mut data: Vec<&'static str> = Vec::new();
    if source.metadata.size != destination.metadata.size {
        data.push("size");
    }
    if !policy.last_write_equal(
        source.metadata.basic.last_write_time,
        destination.metadata.basic.last_write_time,
    ) {
        data.push("mtime");
    }
    assert(label_texts(data@) =~= data_differences(
        source.metadata,
        destination.metadata,
        policy,
    ));
    if data.len() > 0 {
        assert(label_texts(data@).len() > 0);
        let destination_newer = destination.metadata.basic.last_write_time
            > source.metadata.basic.last_write_time;
        return if replace {
            Classification::Replace { fields: data, destination_newer }
        } else {
            Classification::SkipDifferent { fields: data, destination_newer }
        };
    }
    assert(label_texts(data@).len() == 0);
    let mut metadata: Vec<&'static str> = Vec::new();
    if !policy.attributes_equal(
        source.metadata.basic.attributes,
        destination.metadata.basic.attributes,
    ) {
        metadata.push("attributes");
    }
    if !policy.creation_equal(
        source.metadata.basic.creation_time,
        destination.metadata.basic.creation_time,
    ) {
        metadata.push("ctime");
    }
    if policy.supports_eas() && source.metadata.ea_size != destination.metadata.ea_size {
        metadata.push("ea_size");
    }
    assert(label_texts(metadata@) =~= metadata_differences(
        source.metadata,
        destination.metadata,
        policy,
    ));
    assert(label_texts(metadata@).len() == metadata.len());
    if metadata.len() == 0 {
        Classification::Same
    } else {
        Classification::MetadataDiff(metadata)
    }
}

fn type_conflict(source: ObjectKind, destination: ObjectKind) -> (conflict: bool)
    ensures
        conflict == (source != destination),
{
    source != destination
}

/// An object whose twin carries equal metadata is skipped as the same.
pub proof fn equal_metadata_is_same(
    metadata: ObjectMetadata,
    replace: bool,
    policy: FilesystemPolicy,
    verdict: Classification,
)
    requires
        classified_as(metadata, Some(metadata), replace, policy, verdict),
    ensures
        verdict is Same,
{
    assert(data_differences(metadata, metadata, policy) =~= seq![]);
    assert(metadata_differences(metadata, metadata, policy) =~= seq![]);
}

/// Without the replace option nothing is ever replaced, and with it nothing is
/// ever withheld.
pub proof fn replacement_follows_the_option(
    source: ObjectMetadata,
    destination: Option<ObjectMetadata>,
    replace: bool,
    policy: FilesystemPolicy,
    verdict: Classification,
)
    requires
        classified_as(source, destination, replace, policy, verdict),
    ensures
        verdict is Replace ==> replace,
        verdict is SkipDifferent ==> !replace,
{
}

/// After a copy whose metadata was projected onto the destination, the next
/// run skips the object: the pair classifies as the same, provided that the
/// sizes agree and extended attributes either agree or do not take part.
pub proof fn copied_object_is_same_on_the_next_run(
    source: ObjectMetadata,
    destination: ObjectMetadata,
    replace: bool,
    policy: FilesystemPolicy,
    verdict: Classification,
)
    requires
        !types_conflict(source, destination),
        source.size == destination.size,
        destination.basic == policy.spec_project_basic(source.basic),
        policy.capabilities.extended_attributes ==> source.ea_size == destination.ea_size,
        classified_as(source, Some(destination), replace, policy, verdict),
    ensures
        verdict is Same,
{
    crate::filesystem::projected_metadata_compares_equal(policy, source.basic);
    assert(data_differences(source, destination, policy) =~= seq![]);
    assert(metadata_differences(source, destination, policy) =~= seq![]);
}

/// What the decision table decides, from the two objects alone: an object with
/// no twin is new; one of another class conflicts; one whose size or last-write
/// time differs is replaced or withheld, and nothing else is; one whose
/// attributes, creation time or extended attributes differ is repaired; the
/// rest is the same.
pub proof fn verdict_follows_the_objects(
    source: ObjectMetadata,
    destination: Option<ObjectMetadata>,
    replace: bool,
    policy: FilesystemPolicy,
    verdict: Classification,
)
    requires
        classified_as(source, destination, replace, policy, verdict),
    ensures
        verdict is New <==> destination is None,
        destination matches Some(twin) ==> {
            let conflict = source.kind != twin.kind || source.kind is Reparse
                && source.reparse_tag != twin.reparse_tag;
            let other_data = source.size != twin.size || !policy.spec_last_write_equal(
                source.basic.last_write_time as int,
                twin.basic.last_write_time as int,
            );
            let other_metadata = !policy.spec_attributes_equal(
                source.basic.attributes,
                twin.basic.attributes,
            ) || !policy.spec_creation_equal(
                source.basic.creation_time as int,
                twin.basic.creation_time as int,
            ) || policy.capabilities.extended_attributes && source.ea_size != twin.ea_size;
            &&& verdict is TypeConflict <==> conflict
            &&& verdict is Replace <==> !conflict && other_data && replace
            &&& verdict is SkipDifferent <==> !conflict && other_data && !replace
            &&& verdict is MetadataDiff <==> !conflict && !other_data && other_metadata
            &&& verdict is Same <==> !conflict && !other_data && !other_metadata
            &&& verdict matches Classification::Replace { destination_newer, .. }
                ==> destination_newer == (source.basic.last_write_time
                < twin.basic.last_write_time)
            &&& verdict matches Classification::SkipDifferent { destination_newer, .. }
                ==> destination_newer == (source.basic.last_write_time
                < twin.basic.last_write_time)
        },
{
}

/// A difference is named if and only if it is there.
pub proof fn differences_are_named(
    source: ObjectMetadata,
    destination: ObjectMetadata,
    policy: FilesystemPolicy,
)
    ensures
        ({
            let data = data_differences(source, destination, policy);
            let metadata = metadata_differences(source, destination, policy);
            &&& data.contains("size"@) <==> source.size != destination.size
            &&& data.contains("mtime"@) <==> !policy.spec_last_write_equal(
                source.basic.last_write_time as int,
                destination.basic.last_write_time as int,
            )
            &&& metadata.contains("attributes"@) <==> !policy.spec_attributes_equal(
                source.basic.attributes,
                destination.basic.attributes,
            )
            &&& metadata.contains("ctime"@) <==> !policy.spec_creation_equal(
                source.basic.creation_time as int,
                destination.basic.creation_time as int,
            )
            &&& metadata.contains("ea_size"@) <==> policy.capabilities.extended_attributes
                && source.ea_size != destination.ea_size
        }),
{
    reveal_strlit("size");
    reveal_strlit("mtime");
    reveal_strlit("attributes");
    reveal_strlit("ctime");
    reveal_strlit("ea_size");
    assert("size"@.len() == 4 && "mtime"@.len() == 5 && "attributes"@.len() == 10 && "ctime"@.len()
        == 5 && "ea_size"@.len() == 7);
    assert("ctime"@[0] == 'c');
    let size = source.size != destination.size;
    let mtime = !policy.spec_last_write_equal(
        source.basic.last_write_time as int,
        destination.basic.last_write_time as int,
    );
    let data = data_differences(source, destination, policy);
    assert(size ==> data[0] == "size"@);
    assert(mtime ==> data[data.len() - 1] == "mtime"@);
    assert forall|i: int| 0 <= i < data.len() implies data[i] == "size"@ && size || data[i]
        == "mtime"@ && mtime by {}
    let attributes = !policy.spec_attributes_equal(
        source.basic.attributes,
        destination.basic.attributes,
    );
    let ctime = !policy.spec_creation_equal(
        source.basic.creation_time as int,
        destination.basic.creation_time as int,
    );
    let eas = policy.capabilities.extended_attributes && source.ea_size != destination.ea_size;
    let metadata = metadata_differences(source, destination, policy);
    assert(attributes ==> metadata[0] == "attributes"@);
    assert(eas ==> metadata[metadata.len() - 1] == "ea_size"@);
    assert(ctime ==> metadata[if attributes {
        1
    } else {
        0int
    }] == "ctime"@);
    assert forall|i: int| 0 <= i < metadata.len() implies metadata[i] == "attributes"@
        && attributes || metadata[i] == "ctime"@ && ctime || metadata[i] == "ea_size"@ && eas by {}
}

} // verus!
