use bigcp_core::classify::classify;
use bigcp_core::devprofile::{
    detected_class, select_copy_profile, side_profile, CopyProfile, MAX_SAME_SPINDLE_BURST_BYTES,
    MIN_SAME_SPINDLE_BURST_BYTES,
};
use bigcp_core::error::{IoError, IoErrorKind};
use bigcp_core::filesystem::{timestamp_equal, FilesystemPolicy};
use bigcp_core::model::{Classification, EntrySnapshot};
use bigcp_core::path::WidePath;
use bigcp_core::platform::{
    BasicMetadata, DeviceBus, DeviceInfo, EndpointKind, FileIdentity, FileSystem, ObjectKind,
    ObjectMetadata, VolumeCapabilities, VolumeInfo,
};
use bigcp_core::{BigcpError, DeviceClass, ErrorCategory, OperationError, TuneOptions};

const CORES: usize = 16;

fn select(
    source: &DeviceInfo,
    destination: &DeviceInfo,
    source_override: DeviceClass,
    destination_override: DeviceClass,
    tune: &TuneOptions,
) -> Result<CopyProfile, BigcpError> {
    select_copy_profile(source, destination, source_override, destination_override, tune, CORES)
}

fn entry(size: u64, mtime: i64, attributes: u32, kind: ObjectKind) -> EntrySnapshot {
    EntrySnapshot {
        relative_path: WidePath::from_text("file"),
        metadata: ObjectMetadata {
            identity: FileIdentity {
                volume_serial: 1,
                file_id: [0; 16],
            },
            kind,
            size,
            allocation_size: size,
            ea_size: 0,
            basic: BasicMetadata {
                creation_time: 10,
                last_access_time: 11,
                last_write_time: mtime,
                attributes,
            },
            reparse_tag: None,
        },
    }
}

fn policy(filesystem: FileSystem, eas: bool) -> FilesystemPolicy {
    FilesystemPolicy::new(
        filesystem,
        VolumeCapabilities {
            named_streams: !filesystem.is_fat_family(),
            extended_attributes: eas,
            sparse_files: !filesystem.is_fat_family(),
            encryption: filesystem == FileSystem::Ntfs,
            reparse_points: !filesystem.is_fat_family(),
            block_refcounting: false,
            persistent_acls: !filesystem.is_fat_family(),
            posix_unlink_rename: !filesystem.is_fat_family(),
        },
    )
}

#[test]
fn exact_filetime_tick_is_different() {
    let source = entry(1, 100, 0, ObjectKind::File);
    let destination = entry(1, 101, 0, ObjectKind::File);
    assert!(matches!(
        classify(
            &source,
            Some(&destination),
            true,
            policy(FileSystem::Ntfs, true)
        ),
        Classification::Replace { .. }
    ));
}

#[test]
fn attribute_only_difference_is_metadata_repair() {
    let source = entry(1, 100, 1, ObjectKind::File);
    let destination = entry(1, 100, 0, ObjectKind::File);
    assert!(matches!(
        classify(
            &source,
            Some(&destination),
            true,
            policy(FileSystem::Ntfs, true)
        ),
        Classification::MetadataDiff(_)
    ));
}

#[test]
fn replacement_can_be_withheld() {
    let source = entry(2, 100, 0, ObjectKind::File);
    let destination = entry(1, 100, 0, ObjectKind::File);
    assert!(matches!(
        classify(
            &source,
            Some(&destination),
            false,
            policy(FileSystem::Ntfs, true)
        ),
        Classification::SkipDifferent { .. }
    ));
}

#[test]
fn ea_size_only_difference_is_metadata_repair() {
    let source = entry(1, 100, 0, ObjectKind::File);
    let mut destination = entry(1, 100, 0, ObjectKind::File);
    destination.metadata.ea_size = 16;
    assert!(matches!(
        classify(&source, Some(&destination), true, policy(FileSystem::Ntfs, true)),
        Classification::MetadataDiff(fields) if fields == ["ea_size"]
    ));
}

#[test]
fn fat_policy_accepts_coarse_mtime_and_ignores_unrepresentable_metadata() {
    let mut source = entry(1, 20_000_000, 0x0000_2001, ObjectKind::File);
    source.metadata.ea_size = 32;
    let destination = entry(1, 39_999_999, 0x0000_0001, ObjectKind::File);
    assert!(matches!(
        classify(
            &source,
            Some(&destination),
            true,
            policy(FileSystem::Fat, false)
        ),
        Classification::Same
    ));
}

fn capabilities() -> VolumeCapabilities {
    VolumeCapabilities {
        named_streams: false,
        extended_attributes: false,
        sparse_files: false,
        encryption: false,
        reparse_points: false,
        block_refcounting: false,
        persistent_acls: false,
        posix_unlink_rename: false,
    }
}

#[test]
fn strict_filesystems_still_compare_every_filetime_tick() {
    let policy = FilesystemPolicy::new(FileSystem::Ntfs, capabilities());
    assert!(policy.last_write_equal(100, 100));
    assert!(!policy.last_write_equal(100, 101));
}

#[test]
fn fat_and_exfat_accept_only_their_timestamp_quantization() {
    let fat = FilesystemPolicy::new(FileSystem::Fat, capabilities());
    assert!(fat.last_write_equal(0, 19_999_999));
    assert!(!fat.last_write_equal(0, 20_000_000));

    let exfat = FilesystemPolicy::new(FileSystem::ExFat, capabilities());
    assert!(exfat.creation_equal(0, 99_999));
    assert!(!exfat.creation_equal(0, 100_000));
}

#[test]
fn fat_file_size_limit_is_not_applied_to_exfat() {
    let fat = FilesystemPolicy::new(FileSystem::Fat, capabilities());
    let exfat = FilesystemPolicy::new(FileSystem::ExFat, capabilities());
    assert_eq!(fat.maximum_file_size(), Some(u64::from(u32::MAX)));
    assert_eq!(exfat.maximum_file_size(), None);
}

#[test]
fn fat_projects_attributes_without_changing_strict_policy() {
    const READONLY: u32 = 0x0000_0001;
    const NOT_CONTENT_INDEXED: u32 = 0x0000_2000;
    let fat = FilesystemPolicy::new(FileSystem::Fat, capabilities());
    let ntfs = FilesystemPolicy::new(FileSystem::Ntfs, capabilities());
    let metadata = BasicMetadata {
        creation_time: 1,
        last_access_time: 2,
        last_write_time: 3,
        attributes: READONLY | NOT_CONTENT_INDEXED,
    };

    assert_eq!(fat.project_basic(metadata).attributes, READONLY);
    assert_eq!(
        ntfs.project_basic(metadata).attributes,
        READONLY | NOT_CONTENT_INDEXED
    );
}

#[test]
fn wsl_projection_is_isolated_from_known_unc_and_local_policy() {
    const READONLY: u32 = 0x0000_0001;
    let metadata = BasicMetadata {
        creation_time: 1,
        last_access_time: 2,
        last_write_time: 3,
        attributes: READONLY,
    };
    let wsl_destination = FilesystemPolicy {
        filesystem: FileSystem::Wsl,
        capabilities: capabilities(),
        endpoint: EndpointKind::Wsl,
        source_projects_basic: false,
    };
    let wsl_source_to_local = FilesystemPolicy {
        filesystem: FileSystem::Ntfs,
        capabilities: capabilities(),
        endpoint: EndpointKind::Local,
        source_projects_basic: true,
    };
    let unc_ntfs = FilesystemPolicy {
        filesystem: FileSystem::Ntfs,
        capabilities: capabilities(),
        endpoint: EndpointKind::Unc,
        source_projects_basic: false,
    };
    let local_ntfs = FilesystemPolicy::new(FileSystem::Ntfs, capabilities());

    assert_eq!(
        wsl_destination.project_basic(metadata),
        BasicMetadata {
            creation_time: 0,
            last_access_time: 0,
            last_write_time: 3,
            attributes: 0,
        }
    );
    assert!(wsl_destination.is_degraded());
    assert!(wsl_destination.names_are_case_sensitive());
    assert!(!wsl_destination.supports_preallocation());

    assert_eq!(
        wsl_source_to_local.project_basic(metadata),
        wsl_destination.project_basic(metadata)
    );
    assert!(wsl_source_to_local.is_degraded());
    assert!(!wsl_source_to_local.names_are_case_sensitive());
    assert!(wsl_source_to_local.supports_preallocation());

    assert_eq!(unc_ntfs.project_basic(metadata), metadata);
    assert!(!unc_ntfs.is_degraded());
    assert!(!unc_ntfs.names_are_case_sensitive());
    assert!(!unc_ntfs.supports_preallocation());

    assert_eq!(local_ntfs.project_basic(metadata), metadata);
    assert!(local_ntfs.supports_preallocation());
}

#[test]
fn win32_codes_preserve_raw_context_and_stable_categories() {
    for (code, category) in [
        (5, ErrorCategory::Permissions),
        (32, ErrorCategory::Locked),
        (112, ErrorCategory::Space),
        (23, ErrorCategory::Media),
        (1167, ErrorCategory::DeviceGone),
        (64, ErrorCategory::DeviceGone),
        (1231, ErrorCategory::DeviceGone),
        (206, ErrorCategory::Path),
        (183, ErrorCategory::DestinationChanged),
        (362, ErrorCategory::Cloud),
        (386, ErrorCategory::Cloud),
        (388, ErrorCategory::Cloud),
        (404, ErrorCategory::Cloud),
        (426, ErrorCategory::Cloud),
        (475, ErrorCategory::Cloud),
    ] {
        let error = IoError {
            code: Some(code),
            kind: IoErrorKind::Other,
            cloud: category == ErrorCategory::Cloud,
            message: "failed".to_owned(),
        };
        let classified = OperationError::from_io("test", WidePath::from_text("file"), &error);
        assert_eq!(classified.category, category);
        assert_eq!(classified.code, Some(code));
        assert!(!classified.hint.is_empty());
    }
}

#[test]
fn no_seek_penalty_on_unrecognized_bus_is_ssd_class() {
    // A drive that positively reports no seek penalty must never fall to the
    // unknown profile just because its bus is unrecognized.
    let probe = |seek: Option<bool>| DeviceInfo {
        endpoint: EndpointKind::Local,
        disk_numbers: vec![1],
        incurs_seek_penalty: seek,
        bus: None,
        maximum_transfer_length: None,
        logical_sector: Some(512),
        physical_sector: None,
        write_cache_enabled: None,
        high_confidence: false,
    };
    assert_eq!(
        detected_class(&probe(Some(false))),
        DeviceClass::SataSsd
    );
    assert_eq!(detected_class(&probe(Some(true))), DeviceClass::Hdd);
    assert_eq!(detected_class(&probe(None)), DeviceClass::Unknown);
}


fn nvme() -> DeviceInfo {
    DeviceInfo {
        endpoint: EndpointKind::Local,
        disk_numbers: vec![0],
        incurs_seek_penalty: Some(false),
        bus: Some(DeviceBus::Nvme),
        maximum_transfer_length: Some(4 * 1024 * 1024),
        logical_sector: Some(512),
        physical_sector: Some(4096),
        write_cache_enabled: Some(true),
        high_confidence: true,
    }
}

#[test]
fn composition_is_deterministic_and_mtl_clamped() {
    let first = select(
        &nvme(),
        &nvme(),
        DeviceClass::Auto,
        DeviceClass::Auto,
        &TuneOptions::default(),
    );
    let second = select(
        &nvme(),
        &nvme(),
        DeviceClass::Auto,
        DeviceClass::Auto,
        &TuneOptions::default(),
    );
    assert!(first.is_ok());
    assert_eq!(
        first.ok().map(|profile| profile.chunk_bytes),
        second.ok().map(|profile| profile.chunk_bytes)
    );
}

#[test]
fn unsafe_manual_ranges_are_rejected_by_the_library_api() {
    for tune in [
        TuneOptions {
            threads: Some(0),
            ..TuneOptions::default()
        },
        TuneOptions {
            chunk_bytes: Some(4096),
            ..TuneOptions::default()
        },
        TuneOptions {
            checkpoint_threshold: Some(0),
            ..TuneOptions::default()
        },
        TuneOptions {
            same_spindle_burst_bytes: Some(MIN_SAME_SPINDLE_BURST_BYTES - 1),
            ..TuneOptions::default()
        },
        TuneOptions {
            same_spindle_burst_bytes: Some(MAX_SAME_SPINDLE_BURST_BYTES + 1),
            ..TuneOptions::default()
        },
    ] {
        assert!(
            select(
                &nvme(),
                &nvme(),
                DeviceClass::Auto,
                DeviceClass::Auto,
                &tune,
            )
            .is_err()
        );
    }
}

#[test]
fn memory_budget_caps_workers_and_chunks() {
    let tune = TuneOptions {
        chunk_bytes: Some(8 * 1024 * 1024),
        threads: Some(16),
        memory_bytes: Some(8 * 1024 * 1024),
        large_threshold: Some(4 * 1024 * 1024),
        ..TuneOptions::default()
    };
    let profile = select(
        &nvme(),
        &nvme(),
        DeviceClass::Auto,
        DeviceClass::Auto,
        &tune,
    );
    assert!(profile.is_ok());
    assert!(
        profile.is_ok_and(|value| value.workers == 1 && value.chunk_bytes <= 8 * 1024 * 1024)
    );
}

#[test]
fn standard_memory_budget_reserves_the_concurrent_coordinator_chunk() {
    let mut unlimited = nvme();
    unlimited.maximum_transfer_length = None;
    let bounded = TuneOptions {
        chunk_bytes: Some(8 * 1024 * 1024),
        memory_bytes: Some(8 * 1024 * 1024),
        large_threshold: Some(4 * 1024 * 1024),
        ..TuneOptions::default()
    };
    let profile = select(
        &unlimited,
        &unlimited,
        DeviceClass::Auto,
        DeviceClass::Auto,
        &bounded,
    );
    assert!(
        profile
            .is_ok_and(|value| { value.chunk_bytes == 4 * 1024 * 1024 && value.workers == 1 })
    );

    let too_small = TuneOptions {
        memory_bytes: Some(4 * 1024 * 1024),
        large_threshold: Some(4 * 1024 * 1024),
        ..TuneOptions::default()
    };
    assert!(
        select(
            &unlimited,
            &unlimited,
            DeviceClass::Auto,
            DeviceClass::Auto,
            &too_small,
        )
        .is_err_and(|error| error.to_text().contains("must hold"))
    );
}

#[test]
fn shared_rotational_disk_selects_one_phased_scheduler() {
    let mut source = nvme();
    source.incurs_seek_penalty = Some(true);
    source.bus = Some(DeviceBus::Usb);
    let mut destination = source.clone();
    destination.disk_numbers = vec![0, 2];
    let profile = select(
        &source,
        &destination,
        DeviceClass::Auto,
        DeviceClass::Auto,
        &TuneOptions::default(),
    );
    assert!(profile.is_ok());
    let Some(profile) = profile.ok() else {
        return;
    };
    assert!(profile.same_physical_disk);
    assert!(profile.transport.is_same_spindle());
    assert_eq!(profile.workers, 1);
    assert_eq!(profile.transport.burst_bytes, 256 * 1024 * 1024);
}

#[test]
fn shared_solid_state_disk_keeps_standard_transport() {
    let profile = select(
        &nvme(),
        &nvme(),
        DeviceClass::Auto,
        DeviceClass::Auto,
        &TuneOptions::default(),
    );
    assert!(profile.is_ok());
    let Some(profile) = profile.ok() else {
        return;
    };
    assert!(profile.same_physical_disk);
    assert!(!profile.transport.is_same_spindle());
    assert!(profile.workers > 1);
    assert_eq!(profile.transport.burst_bytes, profile.chunk_bytes);
}

#[test]
fn same_spindle_rejects_conflicting_parallel_worker_override() {
    let mut source = nvme();
    source.incurs_seek_penalty = Some(true);
    let tune = TuneOptions {
        threads: Some(2),
        ..TuneOptions::default()
    };
    let result = select(
        &source,
        &source,
        DeviceClass::Auto,
        DeviceClass::Auto,
        &tune,
    );
    assert!(result.is_err_and(|error| error.to_text().contains("requires threads=1")));
}

#[test]
fn remote_source_caps_local_workers_and_wsl_is_independently_profiled() {
    let mut source = nvme();
    source.endpoint = EndpointKind::Wsl;
    source.disk_numbers.clear();
    source.incurs_seek_penalty = None;
    source.bus = None;
    source.high_confidence = false;
    let profile = select(
        &source,
        &nvme(),
        DeviceClass::Auto,
        DeviceClass::Auto,
        &TuneOptions::default(),
    );
    assert!(profile.is_ok_and(|value| {
        value.source.endpoint == EndpointKind::Wsl
            && value.workers == 8
            && value.chunk_bytes == 4 * 1024 * 1024
            && !value.transport.is_same_spindle()
    }));
}


#[test]
fn equal_snapshots_are_the_same_and_absence_is_new() {
    let source = entry(1, 100, 0, ObjectKind::File);
    let strict = policy(FileSystem::Ntfs, true);
    assert_eq!(classify(&source, None, true, strict), Classification::New);
    assert_eq!(classify(&source, Some(&source), true, strict), Classification::Same);
    let link = entry(1, 100, 0, ObjectKind::Directory);
    assert_eq!(classify(&source, Some(&link), true, strict), Classification::TypeConflict);
}

#[test]
fn replacement_names_every_differing_field() {
    let source = entry(2, 100, 0, ObjectKind::File);
    let destination = entry(1, 101, 0, ObjectKind::File);
    assert_eq!(
        classify(&source, Some(&destination), true, policy(FileSystem::Ntfs, true)),
        Classification::Replace { fields: vec!["size", "mtime"], destination_newer: true }
    );
}

#[test]
fn timestamps_compare_alike_from_both_sides() {
    for (left, right) in [(0i64, 19_999_999i64), (5, -20_000_000), (i64::MIN, i64::MAX)] {
        assert_eq!(
            timestamp_equal(left, right, Some(20_000_000)),
            timestamp_equal(right, left, Some(20_000_000))
        );
        assert_eq!(timestamp_equal(left, right, None), timestamp_equal(right, left, None));
    }
    assert!(!timestamp_equal(i64::MIN, i64::MAX, Some(u64::MAX)));
}

#[test]
fn projecting_twice_changes_nothing() {
    let metadata = BasicMetadata {
        creation_time: 1,
        last_access_time: 2,
        last_write_time: 3,
        attributes: 0x0000_2027,
    };
    for filesystem in [FileSystem::Fat, FileSystem::ExFat, FileSystem::Ntfs, FileSystem::Wsl] {
        let policy = policy(filesystem, false);
        let once = policy.project_basic(metadata);
        assert_eq!(policy.project_basic(once), once);
        assert!(policy.metadata_equal(&metadata, &once));
    }
}

#[test]
fn volumes_decide_the_policy() {
    let volume = |filesystem, endpoint| VolumeInfo {
        filesystem,
        capabilities: capabilities(),
        endpoint,
        serial: 7,
    };
    let policy = FilesystemPolicy::from_volumes(
        &volume(FileSystem::Wsl, EndpointKind::Wsl),
        &volume(FileSystem::Ntfs, EndpointKind::Local),
    );
    assert!(policy.is_degraded());
    assert_eq!(policy.filesystem(), FileSystem::Ntfs);
    assert_eq!(policy.endpoint(), EndpointKind::Local);
}

#[test]
fn errors_name_operation_path_and_hint() {
    let error = IoError {
        code: Some(5),
        kind: IoErrorKind::PermissionDenied,
        cloud: false,
        message: "access is denied".to_owned(),
    };
    let failure = OperationError::from_io("open_src", WidePath::from_text("a"), &error);
    assert_eq!(failure.to_text(), "open_src failed for a: access is denied");
    let kept = OperationError::from_io_as(
        ErrorCategory::Internal,
        "open_src",
        WidePath::from_text("a"),
        &error,
    );
    assert_eq!(kept.category, ErrorCategory::Internal);
    assert_eq!(kept.hint, "Retain the log and report and file a bigcp bug");
    let said = OperationError::semantic(
        ErrorCategory::Path,
        "plan",
        WidePath::from_text("a"),
        "no".to_owned(),
    );
    assert_eq!(said.code, None);
    assert_eq!(said.message, "no");
}

#[test]
fn categories_without_a_code_follow_the_kind() {
    let of = |kind| {
        OperationError::from_io(
            "test",
            WidePath::from_text("file"),
            &IoError { code: None, kind, cloud: false, message: String::new() },
        )
        .category
    };
    assert_eq!(of(IoErrorKind::PermissionDenied), ErrorCategory::Permissions);
    assert_eq!(of(IoErrorKind::NotFound), ErrorCategory::Path);
}

#[test]
fn manual_classes_override_detection() {
    let side = side_profile(&nvme(), DeviceClass::Hdd, CORES, true);
    assert_eq!(side.class, DeviceClass::Hdd);
    let detected = side_profile(&nvme(), DeviceClass::Auto, CORES, true);
    assert_eq!(detected.class, DeviceClass::Nvme);
    assert_eq!(detected.confidence, "high");
}

#[test]
fn a_share_selects_the_redirector() {
    let mut share = nvme();
    share.endpoint = EndpointKind::Unc;
    share.disk_numbers.clear();
    share.incurs_seek_penalty = None;
    share.bus = None;
    let profile = select(
        &nvme(),
        &share,
        DeviceClass::Auto,
        DeviceClass::Auto,
        &TuneOptions::default(),
    );
    assert!(profile.is_ok_and(|value| value.transport.is_redirector()
        && !value.same_physical_disk));
}
