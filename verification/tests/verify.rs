use bigcp_core::error::{IoError, IoErrorKind};
use bigcp_core::file::VerificationTarget;
use bigcp_core::filesystem::FilesystemPolicy;
use bigcp_core::hashing::digest_bytes;
use bigcp_core::path::WidePath;
use bigcp_core::platform::{
    BasicMetadata, DirectoryEntry, EndpointKind, FileIdentity, FileSystem, ObjectKind,
    ObjectMetadata, StreamInfo, VolumeCapabilities, VolumeInfo,
};
use bigcp_core::readback::{
    digest_file_streams_and_eas, directory_aux_equal, start_aux, AuxFailure, AuxReply, AuxStep,
    DigestedFile, FileDigest, FileReply, FileStep, ObjectReply, ObjectStep, StreamDigests,
    StreamReply, StreamStep, VerificationFeatures,
};
use bigcp_core::report::VerificationSummary;
use bigcp_core::standalone::{StandaloneVerify, VerifyReply, VerifyStep};
use bigcp_core::verify::{
    check_root_kinds, check_roots_apart, push_mismatch, verify_file_pair, verify_written_targets,
    PairDigest, PairVerdict, WrittenReading, MISMATCH_SAMPLE_LIMIT,
};
use bigcp_core::walk::KeyedEntry;
use bigcp_core::{BigcpError, Counters, OperationError};

fn wide(text: &str) -> WidePath {
    WidePath::from_text(text)
}

fn failed(message: &str) -> IoError {
    IoError {
        code: Some(5),
        kind: IoErrorKind::PermissionDenied,
        cloud: false,
        message: message.to_owned(),
    }
}

fn metadata(kind: ObjectKind, size: u64, mtime: i64) -> ObjectMetadata {
    ObjectMetadata {
        identity: FileIdentity { volume_serial: 1, file_id: [1; 16] },
        kind,
        size,
        allocation_size: size,
        ea_size: 0,
        basic: BasicMetadata {
            creation_time: 1,
            last_access_time: 2,
            last_write_time: mtime,
            attributes: 0,
        },
        reparse_tag: None,
    }
}

fn volume() -> VolumeInfo {
    VolumeInfo {
        filesystem: FileSystem::Ntfs,
        capabilities: VolumeCapabilities {
            named_streams: true,
            extended_attributes: true,
            sparse_files: true,
            encryption: true,
            reparse_points: true,
            block_refcounting: false,
            persistent_acls: true,
            posix_unlink_rename: true,
        },
        endpoint: EndpointKind::Local,
        serial: 1,
    }
}

fn digested(bytes: &[u8]) -> DigestedFile {
    DigestedFile {
        size: bytes.len() as u64,
        digest: digest_bytes(bytes),
        streams: Vec::new(),
        ea_digest: digest_bytes(&[]),
    }
}

fn unreadable() -> OperationError {
    OperationError::from_io("read", wide("a"), &failed("denied"))
}

#[test]
fn digests_cover_every_byte_that_was_read() {
    let data: Vec<u8> = (0..=255).collect();
    let stat = metadata(ObjectKind::File, data.len() as u64, 9);
    let mut digest = FileDigest::start();
    let mut counters = Counters::default();
    let mut step = FileStep::Open;
    let mut at = 0;
    loop {
        let reply = match &step {
            FileStep::Open | FileStep::Revalidate => FileReply::Metadata(Ok(stat)),
            FileStep::Read { max } => {
                let count = 100.min(*max).min(data.len() - at);
                at += count;
                FileReply::Read(Ok(data[at - count..at].to_vec()))
            }
            _ => break,
        };
        step = digest.digest_file(&wide("a"), &mut counters, step, reply);
    }
    assert_eq!(step, FileStep::Finished { size: 256, digest: digest_bytes(&data) });
    assert_eq!(counters.bytes_verified, 256);
}

#[test]
fn a_file_that_moves_under_the_reader_is_not_judged() {
    let mut digest = FileDigest::start();
    let mut counters = Counters::default();
    let path = wide("a");
    let step = digest.digest_file(
        &path,
        &mut counters,
        FileStep::Open,
        FileReply::Metadata(Ok(metadata(ObjectKind::File, 3, 9))),
    );
    let step = digest.digest_file(&path, &mut counters, step, FileReply::Read(Ok(vec![1, 2, 3])));
    let step = digest.digest_file(&path, &mut counters, step, FileReply::Read(Ok(Vec::new())));
    assert_eq!(step, FileStep::Revalidate);
    let step = digest.digest_file(
        &path,
        &mut counters,
        step,
        FileReply::Metadata(Ok(metadata(ObjectKind::File, 3, 10))),
    );
    assert!(matches!(step, FileStep::Failed { .. }));
}

#[test]
fn named_streams_are_digested_in_name_order() {
    let mut digests = StreamDigests::start();
    let mut counters = Counters::default();
    let listed = vec![
        StreamInfo::unnamed(9),
        StreamInfo { name: wide(":b:$DATA"), size: 2 },
        StreamInfo { name: wide(":a:$DATA"), size: 1 },
    ];
    let mut step = StreamStep::List;
    let mut given = false;
    loop {
        let reply = match &step {
            StreamStep::List => StreamReply::Listed(Ok(listed.clone())),
            StreamStep::Open => {
                given = false;
                StreamReply::Done(Ok(()))
            }
            StreamStep::Read { .. } => {
                let size = digests.current().size as usize;
                let bytes = if given { Vec::new() } else { vec![7; size] };
                given = true;
                StreamReply::Read(Ok(bytes))
            }
            _ => break,
        };
        step = digests.digest_named_streams(&wide("a"), &mut counters, step, reply);
    }
    let StreamStep::Finished { digests } = step else {
        panic!("digests were expected: {step:?}");
    };
    let names: Vec<String> =
        digests.iter().map(|(stream, _)| stream.name.to_text_lossy()).collect();
    assert_eq!(names, vec![":a:$DATA", ":b:$DATA"]);
    assert_eq!(digests[0].1, digest_bytes(&[7]));
}

#[test]
fn objects_are_read_with_what_both_sides_can_hold() {
    let stat = metadata(ObjectKind::File, 3, 9);
    let features = VerificationFeatures { streams: false, eas: true };
    let mut step = ObjectStep::Stat;
    loop {
        let reply = match &step {
            ObjectStep::Stat | ObjectStep::StatAgain { .. } => ObjectReply::Metadata(Ok(stat)),
            ObjectStep::DigestFile { .. } => {
                ObjectReply::Digested(Ok((3, digest_bytes(&[1, 2, 3]))))
            }
            ObjectStep::DigestStreams { .. } => panic!("streams are not asked for"),
            ObjectStep::ReadEas { .. } => ObjectReply::Eas(Ok(vec![4])),
            _ => break,
        };
        step = digest_file_streams_and_eas(&wide("a"), features, step, reply);
    }
    let ObjectStep::Finished { read } = step else {
        panic!("a reading was expected");
    };
    assert_eq!(read.digest, digest_bytes(&[1, 2, 3]));
    assert_eq!(read.ea_digest, digest_bytes(&[4]));
}

#[test]
fn auxiliary_data_is_compared_where_the_destination_holds_it() {
    let all = VerificationFeatures { streams: true, eas: true };
    let run = |source: VerificationFeatures, eas: [Vec<u8>; 2]| {
        let mut step = start_aux(source, all);
        loop {
            let reply = match &step {
                AuxStep::SourceStreams | AuxStep::DestinationStreams { .. } => {
                    AuxReply::Streams(Ok(Vec::new()))
                }
                AuxStep::SourceEas { .. } => AuxReply::Eas(Ok(eas[0].clone())),
                AuxStep::DestinationEas { .. } => AuxReply::Eas(Ok(eas[1].clone())),
                _ => break,
            };
            step = directory_aux_equal(source, all, step, reply);
        }
        step
    };
    assert_eq!(run(all, [vec![1], vec![1]]), AuxStep::Finished { same: true });
    assert_eq!(run(all, [vec![1], vec![2]]), AuxStep::Finished { same: false });
    let poor = VerificationFeatures { streams: true, eas: false };
    assert_eq!(run(poor, [vec![1], Vec::new()]), AuxStep::Finished { same: true });
    assert_eq!(all.shared_with(poor), poor);
    let failure = directory_aux_equal(
        all,
        all,
        AuxStep::SourceEas { same_streams: true },
        AuxReply::Eas(Err(failed("denied"))),
    );
    let AuxStep::Failed { failure } = failure else {
        panic!("a failure was expected");
    };
    assert_eq!(failure.to_text(), "denied");
    assert_eq!(failure.into_io().message, "denied");
    assert_eq!(
        AuxFailure::Streams(unreadable()).into_io().message,
        "read failed for a: denied"
    );
}

#[test]
fn roots_are_apart_and_real_directories() {
    assert!(check_roots_apart(Ok(false), Ok(false)).is_ok());
    assert!(matches!(check_roots_apart(Ok(true), Ok(false)), Err(BigcpError::Invalid(_))));
    assert!(matches!(check_roots_apart(Ok(false), Ok(true)), Err(BigcpError::Invalid(_))));
    assert!(matches!(
        check_roots_apart(Ok(false), Err(failed("x"))),
        Err(BigcpError::Io { .. })
    ));
    assert!(check_root_kinds(ObjectKind::Directory, ObjectKind::Directory).is_ok());
    assert!(check_root_kinds(ObjectKind::Directory, ObjectKind::Reparse).is_err());
}

#[test]
fn samples_are_bounded_but_counts_are_not() {
    let mut summary = VerificationSummary::default();
    for index in 0..MISMATCH_SAMPLE_LIMIT + 5 {
        push_mismatch(&mut summary, format!("{index}"));
    }
    assert_eq!(summary.mismatches.len(), MISMATCH_SAMPLE_LIMIT);
    assert_eq!(summary.mismatches[0], "0");
}

#[test]
fn pairs_are_read_only_as_far_as_needed() {
    let read = || PairDigest::Read(digested(b"abc"));
    assert!(matches!(
        verify_file_pair(3, 4, true, &PairDigest::Unread, &PairDigest::Unread),
        PairVerdict::Different(_)
    ));
    assert_eq!(
        verify_file_pair(3, 3, true, &PairDigest::Unread, &PairDigest::Unread),
        PairVerdict::ReadSource
    );
    assert_eq!(
        verify_file_pair(3, 3, true, &read(), &PairDigest::Unread),
        PairVerdict::ReadDestination
    );
    assert_eq!(verify_file_pair(3, 3, true, &read(), &read()), PairVerdict::Same);
    assert!(matches!(
        verify_file_pair(3, 3, true, &read(), &PairDigest::Read(digested(b"abd"))),
        PairVerdict::Different(_)
    ));
    assert!(matches!(
        verify_file_pair(3, 3, false, &read(), &read()),
        PairVerdict::Different(_)
    ));
    let PairVerdict::Different(text) =
        verify_file_pair(3, 3, true, &PairDigest::Failed(unreadable()), &PairDigest::Unread)
    else {
        panic!("a verdict was expected");
    };
    assert!(text.contains("read failed"));
}

fn target(bytes: &[u8]) -> VerificationTarget {
    VerificationTarget {
        relative_path: wide("a.bin"),
        destination_path: wide(r"D:\backup\a.bin"),
        expected_digest: digest_bytes(bytes),
        expected_size: bytes.len() as u64,
        expected_metadata: metadata(ObjectKind::File, 3, 9).basic,
        expected_streams: Vec::new(),
        expected_ea_digest: None,
    }
}

#[test]
fn written_files_are_held_against_what_was_written() {
    let policy = FilesystemPolicy::new(FileSystem::Ntfs, volume().capabilities);
    let reading = |bytes: &[u8], mtime| WrittenReading {
        read: Ok(digested(bytes)),
        observed: Ok(metadata(ObjectKind::File, 3, mtime)),
    };
    let mut accessed = reading(b"abc", 9);
    if let Ok(observed) = &mut accessed.observed {
        observed.basic.last_access_time = 99;
    }
    let summary = verify_written_targets(
        &vec![target(b"abc"), target(b"abc"), target(b"abc"), target(b"abc"), target(b"abc")],
        policy,
        &vec![
            reading(b"abc", 9),
            reading(b"abd", 9),
            reading(b"abc", 10),
            WrittenReading { read: Err(unreadable()), observed: Err(failed("x")) },
            accessed,
        ],
    );
    assert_eq!(summary.mode, "copied");
    assert_eq!(summary.destination_filesystem, Some("NTFS".to_owned()));
    assert_eq!((summary.passed, summary.failed), (2, 3));
    assert_eq!(summary.last_access_differences, 1);
    assert_eq!(summary.mismatches.len(), 3);
    assert!(summary.mismatches[0].starts_with("a.bin: expected size/hash/streams/ea/meta 3/"));
    assert_eq!(
        summary.mismatches[2],
        "a.bin: read-back failed: read failed for a: denied"
    );
}

fn keyed(name: &str, path: &str, metadata: ObjectMetadata) -> KeyedEntry {
    KeyedEntry {
        entry: DirectoryEntry {
            name: wide(name),
            path: wide(path),
            metadata,
            cloud_placeholder: false,
        },
        key: Ok(wide(&name.to_uppercase()).units),
    }
}

/// Compares two trees that are given by the entries of each directory.
fn compare(
    list: &dyn Fn(&str) -> Vec<KeyedEntry>,
) -> (VerifyStep, VerificationSummary) {
    let root = metadata(ObjectKind::Directory, 0, 9);
    let mut verify = StandaloneVerify::start();
    let mut step = VerifyStep::NormalizeSource;
    loop {
        let reply = match &step {
            VerifyStep::NormalizeSource | VerifyStep::ResolveSource => {
                VerifyReply::Path(Ok(wide("S")))
            }
            VerifyStep::NormalizeDestination | VerifyStep::ResolveDestination => {
                VerifyReply::Path(Ok(wide("D")))
            }
            VerifyStep::OpenSource | VerifyStep::OpenDestination => VerifyReply::Done(Ok(())),
            VerifyStep::CompareRoots => VerifyReply::Compared {
                source_below_destination: Ok(false),
                destination_below_source: Ok(false),
            },
            VerifyStep::ProbeSource | VerifyStep::ProbeDestination => {
                VerifyReply::Volume(Ok(volume()))
            }
            VerifyStep::ReadSource | VerifyStep::ReadDestination => {
                VerifyReply::Metadata(Ok(root))
            }
            VerifyStep::CompareRootAux => VerifyReply::RootAux(Ok(true)),
            VerifyStep::ListSource => {
                VerifyReply::Entries(Ok(list(&verify.task().source.to_text_lossy())))
            }
            VerifyStep::ListDestination => {
                VerifyReply::Entries(Ok(list(&verify.task().destination.to_text_lossy())))
            }
            VerifyStep::Compare => {
                let (source, destination, _) = verify.pair().unwrap();
                match source.metadata.kind {
                    ObjectKind::Directory => VerifyReply::Aux(Ok(true)),
                    ObjectKind::File => {
                        if source.metadata.size == destination.metadata.size {
                            VerifyReply::File(PairVerdict::Same)
                        } else {
                            VerifyReply::File(PairVerdict::Different("sizes differ".to_owned()))
                        }
                    }
                    ObjectKind::Reparse => {
                        VerifyReply::Link { reparse: Ok(false), aux: Ok(true) }
                    }
                }
            }
            VerifyStep::Finished | VerifyStep::Failed { .. } => break,
        };
        step = verify.run_standalone_verify(step, reply);
    }
    let summary = verify.summary().copied();
    (step, summary)
}

#[test]
fn whole_trees_are_compared_to_the_last_entry() {
    let file = |size| metadata(ObjectKind::File, size, 9);
    let directory = metadata(ObjectKind::Directory, 0, 9);
    let link = metadata(ObjectKind::Reparse, 0, 9);
    let (step, summary) = compare(&|path| match path {
        "S" => vec![
            keyed("same", r"S\same", file(3)),
            keyed("sub", r"S\sub", directory),
            keyed("gone", r"S\gone", file(3)),
            keyed("link", r"S\link", link),
            keyed("kind", r"S\kind", file(3)),
        ],
        "D" => vec![
            keyed("SAME", r"D\SAME", file(3)),
            keyed("sub", r"D\sub", directory),
            keyed("more", r"D\more", file(3)),
            keyed("link", r"D\link", link),
            keyed("kind", r"D\kind", directory),
        ],
        r"S\sub" => vec![keyed("f", r"S\sub\f", file(3))],
        r"D\sub" => vec![keyed("f", r"D\sub\f", file(4))],
        other => panic!("unexpected {other}"),
    });
    assert_eq!(step, VerifyStep::Finished);
    assert_eq!(summary.mode, "full");
    // The root, the equal file and the directory pass.
    assert_eq!(summary.passed, 3);
    assert_eq!(summary.failed, 5);
    assert_eq!(
        summary.mismatches,
        vec![
            "gone: missing".to_owned(),
            "link: reparse payload, named streams, EAs, or metadata differ".to_owned(),
            "kind: object type differs".to_owned(),
            "more: extra".to_owned(),
            "sub\\f: sizes differ".to_owned(),
        ]
    );
}

#[test]
fn equal_trees_have_no_mismatch() {
    let file = |size| metadata(ObjectKind::File, size, 9);
    let directory = metadata(ObjectKind::Directory, 0, 9);
    let (step, summary) = compare(&|path| match path {
        "S" => vec![keyed("a", r"S\a", file(3)), keyed("sub", r"S\sub", directory)],
        "D" => vec![keyed("SUB", r"D\SUB", directory), keyed("A", r"D\A", file(3))],
        r"S\sub" => vec![keyed("f", r"S\sub\f", file(4))],
        r"D\SUB" => vec![keyed("f", r"D\SUB\f", file(4))],
        other => panic!("unexpected {other}"),
    });
    assert_eq!(step, VerifyStep::Finished);
    assert_eq!((summary.passed, summary.failed), (4, 0));
    assert!(summary.mismatches.is_empty());
}

#[test]
fn every_mismatch_is_described_up_to_the_limit() {
    let file = metadata(ObjectKind::File, 3, 9);
    for (count, described) in [(7_usize, 7_usize), (100, 100), (130, 100)] {
        let (step, summary) = compare(&|path| match path {
            "S" => (0..count).map(|index| keyed(&format!("f{index}"), "S", file)).collect(),
            _ => Vec::new(),
        });
        assert_eq!(step, VerifyStep::Finished);
        assert_eq!(summary.failed, count as u64);
        assert_eq!(summary.mismatches.len(), described);
    }
}

#[test]
fn colliding_names_fail_on_either_side() {
    let file = metadata(ObjectKind::File, 3, 9);
    let (_, summary) = compare(&|path| match path {
        "S" => vec![keyed("a", r"S\a", file), keyed("A", r"S\A", file)],
        _ => vec![keyed("a", r"D\a", file), keyed("A", r"D\A", file)],
    });
    assert_eq!(
        summary.mismatches,
        vec![
            ": destination has a name collision under its matching semantics".to_owned(),
            "A: source has a name collision under destination matching semantics".to_owned(),
        ]
    );
}

#[test]
fn an_unreadable_name_ends_the_comparison() {
    let file = metadata(ObjectKind::File, 3, 9);
    let (step, _) = compare(&|path| match path {
        "S" => {
            let mut item = keyed("a", r"S\a", file);
            item.key = Err(failed("no key"));
            vec![item]
        }
        _ => Vec::new(),
    });
    let VerifyStep::Failed { error: BigcpError::Io { context, .. } } = step else {
        panic!("a failure was expected: {step:?}");
    };
    assert_eq!(context, "match verify source name");
}

#[test]
fn comparisons_need_two_directories() {
    let mut verify = StandaloneVerify::start();
    let step = verify.run_standalone_verify(
        VerifyStep::NormalizeSource,
        VerifyReply::Path(Err(failed("bad path"))),
    );
    let VerifyStep::Failed { error } = step else {
        panic!("a failure was expected");
    };
    assert!(error.to_text().contains("normalize verify source"));
    let nested = verify.run_standalone_verify(
        VerifyStep::CompareRoots,
        VerifyReply::Compared {
            source_below_destination: Ok(true),
            destination_below_source: Ok(false),
        },
    );
    assert!(matches!(nested, VerifyStep::Failed { error: BigcpError::Invalid(_) }));
}
