use bigcp_core::checkpoints::{
    find_checkpoint, retire_path, store_checkpoint, Checkpoint, CheckpointFileIdentity,
};
use bigcp_core::cursor::{
    append_checkpoint, checkpoint_interval, checkpoint_status, needs_base_checkpoint,
    next_checkpoint_after, CheckpointCursor, CheckpointPlan, CheckpointStatus,
};
use bigcp_core::error::{IoError, IoErrorKind};
use bigcp_core::hashing::StreamDigest;
use bigcp_core::journal::{
    continue_append, crc_matches, crc_text, encode_record, read_bounded_record, record_line,
    AppendReply, AppendStage, AppendStep, BoundedRecord, Journal, JournalEvent, JournalLoader,
    LoadedRecord, LoadedState, RecordProgress, TypedRecord, MAX_JOURNAL_RECORD_BYTES,
};
use bigcp_core::keys::{key_to_path, path_key, stream_key, utf16le_hex};
use bigcp_core::path::WidePath;
use bigcp_core::platform::{BasicMetadata, FileIdentity, ObjectKind, ObjectMetadata, StreamInfo};
use bigcp_core::BigcpError;
use serde_json::Value;

fn quoted(text: &str) -> String {
    Value::String(text.to_owned()).to_string()
}

fn identity_json(identity: &CheckpointFileIdentity) -> String {
    format!(
        "{{\"volume_serial\":{},\"file_id\":{}}}",
        identity.volume_serial,
        quoted(&identity.file_id)
    )
}

/// The JSON of a record without its checksum.
fn unsigned_json(version: u64, event: &JournalEvent) -> Vec<u8> {
    let body = match event {
        JournalEvent::Job { run_id, source, destination, options_hash, timestamp } => format!(
            "\"ev\":\"job\",\"run_id\":{},\"source\":{},\"destination\":{},\"options_hash\":{},\
             \"timestamp\":{}",
            quoted(run_id),
            quoted(source),
            quoted(destination),
            quoted(options_hash),
            quoted(timestamp)
        ),
        JournalEvent::Checkpoint(checkpoint) => {
            let mut text = format!(
                "\"ev\":\"checkpoint\",\"relative_path\":{},\"stream\":{},\"temp_name\":{}",
                quoted(&checkpoint.relative_path),
                quoted(&checkpoint.stream),
                quoted(&checkpoint.temp_name)
            );
            if let Some(identity) = &checkpoint.temp_identity {
                text += &format!(",\"temp_identity\":{}", identity_json(identity));
            }
            if let Some(identity) = &checkpoint.source_identity {
                text += &format!(",\"source_identity\":{}", identity_json(identity));
            }
            text + &format!(
                ",\"source_size\":{},\"source_mtime\":{},\"watermark\":{},\"prefix_digest\":{}",
                checkpoint.source_size,
                checkpoint.source_mtime,
                checkpoint.watermark,
                quoted(&checkpoint.prefix_digest)
            )
        }
        JournalEvent::PartDone { relative_path } => format!(
            "\"ev\":\"part_done\",\"relative_path\":{}",
            quoted(relative_path)
        ),
        JournalEvent::End { run_id } => {
            format!("\"ev\":\"end\",\"run_id\":{}", quoted(run_id))
        }
    };
    format!("{{\"j\":{version},{body}}}").into_bytes()
}

fn text_of(value: &Value, field: &str) -> Option<String> {
    value.get(field)?.as_str().map(str::to_owned)
}

fn identity_of(value: &Value, field: &str) -> Option<CheckpointFileIdentity> {
    let value = value.get(field)?;
    Some(CheckpointFileIdentity {
        volume_serial: value.get("volume_serial")?.as_u64()?,
        file_id: text_of(value, "file_id")?,
    })
}

fn checkpoint_of(value: &Value) -> Option<Checkpoint> {
    Some(Checkpoint {
        relative_path: text_of(value, "relative_path")?,
        stream: text_of(value, "stream")?,
        temp_name: text_of(value, "temp_name")?,
        temp_identity: identity_of(value, "temp_identity"),
        source_identity: identity_of(value, "source_identity"),
        source_size: value.get("source_size")?.as_u64()?,
        source_mtime: value.get("source_mtime")?.as_i64()?,
        watermark: value.get("watermark")?.as_u64()?,
        prefix_digest: text_of(value, "prefix_digest")?,
    })
}

fn typed_of(line: &[u8]) -> Option<TypedRecord> {
    let value = serde_json::from_slice::<Value>(line).ok()?;
    let version = value.get("j")?.as_u64()?;
    let event = match value.get("ev")?.as_str()? {
        "job" => JournalEvent::Job {
            run_id: text_of(&value, "run_id")?,
            source: text_of(&value, "source")?,
            destination: text_of(&value, "destination")?,
            options_hash: text_of(&value, "options_hash")?,
            timestamp: text_of(&value, "timestamp")?,
        },
        "checkpoint" => JournalEvent::Checkpoint(checkpoint_of(&value)?),
        "part_done" => JournalEvent::PartDone { relative_path: text_of(&value, "relative_path")? },
        "end" => JournalEvent::End { run_id: text_of(&value, "run_id")? },
        _ => return None,
    };
    let unsigned = unsigned_json(version, &event);
    Some(TypedRecord { event, crc: text_of(&value, "crc")?, unsigned })
}

/// Loads a journal file that is read in pieces.
fn load(file: &[u8]) -> Result<LoadedState, BigcpError> {
    let mut loader = JournalLoader::new();
    let mut record = BoundedRecord::new();
    let mut at = 0;
    loop {
        let end = (at + 100).min(file.len());
        let progress = read_bounded_record(&mut record, &file[at..end]).ok().unwrap();
        let complete = match progress {
            RecordProgress::More { taken } => {
                at += taken;
                false
            }
            RecordProgress::Complete { taken } => {
                at += taken;
                true
            }
            RecordProgress::EndOfFile { pending } => {
                if !pending {
                    return loader.finish();
                }
                true
            }
        };
        if complete {
            let typed = if record.oversized { None } else { typed_of(record_line(&record.retained)) };
            loader.accept(LoadedRecord {
                raw: record.retained.clone(),
                bytes: record.consumed,
                oversized: record.oversized,
                typed,
            })?;
            record = BoundedRecord::new();
        }
    }
}

/// Opens a journal file in memory and cuts it where it is to be cut.
fn open(file: &mut Vec<u8>, fresh: bool) -> Result<Journal, BigcpError> {
    let opened = Journal::open(Some(load(file)), fresh)?;
    if let Some(length) = opened.truncate_to {
        file.truncate(length as usize);
    }
    Ok(opened.journal)
}

fn line_for(event: &JournalEvent) -> Vec<u8> {
    encode_record(&unsigned_json(1, event))
}

fn append(file: &mut Vec<u8>, journal: &mut Journal, event: JournalEvent) {
    file.extend_from_slice(&line_for(&event));
    journal.append(event);
}

fn begin(file: &mut Vec<u8>, journal: &mut Journal, run_id: &str, destination: &str) {
    let job = journal.begin_job(
        run_id.to_owned(),
        "u16:source".to_owned(),
        destination.to_owned(),
        "resume-protocol-v1".to_owned(),
        "2026-07-29T00:00:00Z".to_owned(),
    );
    file.extend_from_slice(&line_for(&job));
    journal.start_job(job);
}

fn open_job_journal(file: &mut Vec<u8>) -> Journal {
    let mut journal = open(file, false).ok().unwrap();
    begin(file, &mut journal, "run", "u16:destination");
    journal
}

fn sample_checkpoint(relative_path: &str) -> Checkpoint {
    Checkpoint {
        relative_path: relative_path.to_owned(),
        stream: String::new(),
        temp_name: ".bigcp-test-000000000000.part".to_owned(),
        temp_identity: Some(CheckpointFileIdentity::from_file(FileIdentity {
            volume_serial: 1,
            file_id: [1; 16],
        })),
        source_identity: Some(CheckpointFileIdentity::from_file(FileIdentity {
            volume_serial: 1,
            file_id: [2; 16],
        })),
        source_size: 64,
        source_mtime: 7,
        watermark: 32,
        prefix_digest: "xxh3:00000000000000000000000000000000".to_owned(),
    }
}

#[test]
fn old_checkpoint_without_temp_identity_is_parseable_but_not_resumable() {
    let value = serde_json::from_str::<Value>(
        "{\"relative_path\":\"u16:00\",\"stream\":\"\",\
         \"temp_name\":\".bigcp-old-000000000000.part\",\"source_size\":8,\"source_mtime\":9,\
         \"watermark\":4,\"prefix_digest\":\"xxh3:00000000000000000000000000000000\"}",
    );
    assert!(value.is_ok());
    let checkpoint = value.ok().and_then(|value| checkpoint_of(&value));
    assert!(checkpoint.is_some_and(
        |value| value.temp_identity.is_none() && value.source_identity.is_none()
    ));
}

#[test]
fn checkpoint_identity_requires_both_volume_and_file_id() {
    let original = FileIdentity { volume_serial: 7, file_id: [3; 16] };
    let recorded = CheckpointFileIdentity::from_file(original);
    assert!(recorded.matches(original));
    assert!(!recorded.matches(FileIdentity { volume_serial: 8, ..original }));
    assert!(!recorded.matches(FileIdentity { file_id: [4; 16], ..original }));
}

#[test]
fn unsupported_journal_version_is_rejected_without_truncation() {
    let event = JournalEvent::End { run_id: "future".to_owned() };
    let mut file = encode_record(&unsigned_json(2, &event));
    let before = file.clone();
    assert!(matches!(open(&mut file, false), Err(BigcpError::Format(_))));
    assert_eq!(file, before);

    // A realistic future record does not round-trip through this build's
    // types, so the refusal must fire on the raw version, before the checksum
    // can misfile the record as generic corruption.
    let future = b"{\"j\":2,\"ev\":\"novel_record\",\"payload\":true,\"crc\":\"00000000\"}\n";
    let mut file = future.to_vec();
    assert!(open(&mut file, false).is_err());
    assert_eq!(file, future.to_vec());
}

#[test]
fn torn_tail_never_panics_or_trusts_following_records() {
    let mut file = Vec::new();
    let mut journal = open(&mut file, false).ok().unwrap();
    append(&mut file, &mut journal, JournalEvent::End { run_id: "one".to_owned() });
    let valid = file.len();
    file.extend_from_slice(b"{broken");
    let loaded = open(&mut file, false);
    assert!(loaded.is_ok_and(|value| value.had_torn_tail()));
    assert_eq!(file.len(), valid);
}

#[test]
fn every_byte_truncation_is_safe_to_load() {
    let mut file = Vec::new();
    let mut journal = open(&mut file, false).ok().unwrap();
    append(&mut file, &mut journal, JournalEvent::End { run_id: "complete".to_owned() });
    for offset in 0..file.len() {
        let mut candidate = file[..offset].to_vec();
        assert!(
            open(&mut candidate, false).is_ok(),
            "loader rejected truncation at byte {offset}"
        );
    }
}

#[test]
fn clean_end_compaction_keeps_job_header_and_live_checkpoints() {
    let mut file = Vec::new();
    let mut journal = open_job_journal(&mut file);
    let live = sample_checkpoint("u16:live");
    let retired = sample_checkpoint("u16:retired");
    append(&mut file, &mut journal, JournalEvent::Checkpoint(live));
    append(&mut file, &mut journal, JournalEvent::Checkpoint(retired));
    append(
        &mut file,
        &mut journal,
        JournalEvent::PartDone { relative_path: "u16:retired".to_owned() },
    );
    append(&mut file, &mut journal, JournalEvent::End { run_id: "run".to_owned() });
    let records = journal.compact();
    assert!(records.is_some());
    let mut compacted = Vec::new();
    for record in records.unwrap() {
        compacted.extend_from_slice(&line_for(&record));
    }
    let contents = String::from_utf8(compacted.clone()).unwrap();
    let lines: Vec<_> = contents.lines().collect();
    // Job header plus exactly the still-live checkpoint survive; the
    // retired checkpoint, its PartDone, and the End record are gone.
    assert_eq!(lines.len(), 2, "compacted journal: {lines:?}");
    assert!(lines[0].contains("\"ev\":\"job\""));
    assert!(lines[1].contains("u16:live"));
    let reloaded = open(&mut compacted, false);
    assert!(reloaded
        .ok()
        .is_some_and(|journal| journal.checkpoint("u16:live", "").is_some()));
}

#[test]
fn interior_bad_record_is_skipped_without_truncating_later_records() {
    let mut file = Vec::new();
    let mut journal = open_job_journal(&mut file);
    append(
        &mut file,
        &mut journal,
        JournalEvent::Checkpoint(sample_checkpoint("u16:kept")),
    );
    // A record of a newer build, or corruption, between two valid records
    // must be ignored and never used as a truncation point.
    let original = String::from_utf8(file).unwrap();
    let mut lines: Vec<String> = original.lines().map(str::to_owned).collect();
    assert_eq!(lines.len(), 2);
    lines.insert(1, "{\"j\":1,\"ev\":\"job\",\"crc\":\"deadbeef\"}".to_owned());
    let rewritten = lines.join("\n") + "\n";
    let mut file = rewritten.clone().into_bytes();
    let reloaded = open(&mut file, false).ok().unwrap();
    assert_eq!(reloaded.skipped_records(), 1);
    assert!(!reloaded.had_torn_tail());
    assert!(reloaded.checkpoint("u16:kept", "").is_some());
    assert_eq!(file, rewritten.into_bytes(), "interior skip must not rewrite the file");
}

#[test]
fn non_utf8_interior_record_preserves_later_valid_checkpoints() {
    let mut file = Vec::new();
    let mut journal = open_job_journal(&mut file);
    append(
        &mut file,
        &mut journal,
        JournalEvent::Checkpoint(sample_checkpoint("u16:kept")),
    );
    let split = file.iter().position(|byte| *byte == b'\n').unwrap() + 1;
    let mut rewritten = Vec::new();
    rewritten.extend_from_slice(&file[..split]);
    rewritten.extend_from_slice(&[0xff, b'\n']);
    rewritten.extend_from_slice(&file[split..]);
    let before = rewritten.clone();

    let reloaded = open(&mut rewritten, false).ok().unwrap();
    assert_eq!(reloaded.skipped_records(), 1);
    assert!(!reloaded.had_torn_tail());
    assert!(reloaded.checkpoint("u16:kept", "").is_some());
    assert_eq!(rewritten, before);
}

#[test]
fn oversized_interior_record_is_bounded_and_preserves_later_checkpoints() {
    let mut file = Vec::new();
    let mut journal = open_job_journal(&mut file);
    append(
        &mut file,
        &mut journal,
        JournalEvent::Checkpoint(sample_checkpoint("u16:later")),
    );
    let split = file.iter().position(|byte| *byte == b'\n').unwrap() + 1;
    let oversized = vec![b'x'; MAX_JOURNAL_RECORD_BYTES + 1];
    let mut rewritten = Vec::new();
    rewritten.extend_from_slice(&file[..split]);
    rewritten.extend_from_slice(&oversized);
    rewritten.push(b'\n');
    rewritten.extend_from_slice(&file[split..]);
    let before = rewritten.clone();

    let reloaded = open(&mut rewritten, false).ok().unwrap();
    assert_eq!(reloaded.skipped_records(), 1);
    assert!(!reloaded.had_torn_tail());
    assert!(reloaded.checkpoint("u16:later", "").is_some());
    assert!(rewritten == before);
}

#[test]
fn fresh_open_harvests_identity_bearing_checkpoints_only() {
    let mut file = Vec::new();
    let mut journal = open_job_journal(&mut file);
    let proven_key = path_key(&WidePath::from_text("proven.bin"));
    let unproven_key = path_key(&WidePath::from_text("unproven.bin"));
    let mut proven = sample_checkpoint(&proven_key);
    proven.temp_name = ".bigcp-fresh-00000000000a.part".to_owned();
    append(&mut file, &mut journal, JournalEvent::Checkpoint(proven));
    let mut unproven = sample_checkpoint(&unproven_key);
    unproven.temp_name = ".bigcp-fresh-00000000000b.part".to_owned();
    unproven.temp_identity = None;
    append(&mut file, &mut journal, JournalEvent::Checkpoint(unproven));

    let mut reopened = open(&mut file, true).ok().unwrap();
    // Nothing is resumable and the file itself was truncated.
    assert!(reopened.checkpoint(&proven_key, "").is_none());
    assert!(reopened.checkpoint(&unproven_key, "").is_none());
    assert_eq!(file.len(), 0);
    // Only the identity-bearing checkpoint is harvested as provable...
    let root = WidePath::from_text("");
    assert!(reopened
        .take_reclaimable_temp(".bigcp-fresh-00000000000b.part", &root)
        .is_none());
    let taken = reopened.take_reclaimable_temp(".bigcp-fresh-00000000000a.part", &root);
    assert!(taken.is_some_and(|temp| temp.relative_path == proven_key));
    // ...and taking removes: a second take finds nothing.
    assert!(reopened
        .take_reclaimable_temp(".bigcp-fresh-00000000000a.part", &root)
        .is_none());
}

#[test]
fn temporaries_are_found_by_their_names() {
    let mut file = Vec::new();
    let mut journal = open_job_journal(&mut file);
    assert!(!journal.has_temp_records());
    let key = path_key(&WidePath::from_text("large.bin"));
    let mut checkpoint = sample_checkpoint(&key);
    checkpoint.temp_name = ".bigcp-name-000000000001.part".to_owned();
    let identity = checkpoint.temp_identity.clone();
    append(&mut file, &mut journal, JournalEvent::Checkpoint(checkpoint));
    assert!(journal.has_temp_records());
    assert_eq!(
        journal.resume_temp_record(".bigcp-name-000000000001.part"),
        Some((key.as_str(), identity.as_ref()))
    );
    assert_eq!(journal.resume_temp_record(".bigcp-name-000000000002.part"), None);
}

#[test]
fn reclaimable_take_requires_the_recording_directory() {
    let mut file = Vec::new();
    let mut journal = open_job_journal(&mut file);
    let nested_key = path_key(&WidePath::from_text(r"nested\large.bin"));
    let mut nested = sample_checkpoint(&nested_key);
    nested.temp_name = ".bigcp-nested-00000000000c.part".to_owned();
    append(&mut file, &mut journal, JournalEvent::Checkpoint(nested));

    let mut reopened = open(&mut file, true).ok().unwrap();
    // A checkpoint speaks only for the directory holding its final
    // path: the wrong directory can neither claim nor consume it.
    assert!(reopened
        .take_reclaimable_temp(".bigcp-nested-00000000000c.part", &WidePath::from_text(""))
        .is_none());
    assert!(reopened
        .take_reclaimable_temp(
            ".bigcp-nested-00000000000c.part",
            &WidePath::from_text("nested")
        )
        .is_some());
}

#[test]
fn job_signature_change_moves_checkpoints_to_reclaimable() {
    let mut file = Vec::new();
    let mut journal = open_job_journal(&mut file);
    let key = path_key(&WidePath::from_text("large.bin"));
    let mut checkpoint = sample_checkpoint(&key);
    checkpoint.temp_name = ".bigcp-sig-000000000001.part".to_owned();
    append(&mut file, &mut journal, JournalEvent::Checkpoint(checkpoint));
    // A new job with a different destination makes the hint unreachable,
    // but the proof of creation must survive as a reclaimable record.
    begin(&mut file, &mut journal, "run2", "u16:elsewhere");
    assert!(journal.checkpoint(&key, "").is_none());
    let root = WidePath::from_text("");
    let taken = journal.take_reclaimable_temp(".bigcp-sig-000000000001.part", &root);
    assert!(taken.is_some_and(|temp| temp.relative_path == key));
    assert!(journal
        .take_reclaimable_temp(".bigcp-sig-000000000001.part", &root)
        .is_none());

    // The same harvest happens at load time when the signature change is
    // replayed from disk: an interrupted run must not lose the proof.
    let mut reloaded = open(&mut file, false).ok().unwrap();
    assert!(reloaded.checkpoint(&key, "").is_none());
    assert!(reloaded
        .take_reclaimable_temp(".bigcp-sig-000000000001.part", &root)
        .is_some());
}

#[test]
fn records_carry_the_checksum_of_their_content() {
    let event = JournalEvent::End { run_id: "one".to_owned() };
    let unsigned = unsigned_json(1, &event);
    let expected = format!("{:08x}", crc32c::crc32c(&unsigned));
    assert_eq!(crc_text(&unsigned), expected);
    assert_eq!(
        String::from_utf8(encode_record(&unsigned)).unwrap(),
        format!("{{\"j\":1,\"ev\":\"end\",\"run_id\":\"one\",\"crc\":\"{expected}\"}}\n")
    );
    let mut record = TypedRecord { event, crc: expected, unsigned };
    assert!(crc_matches(&record));
    record.crc = "00000000".to_owned();
    assert!(!crc_matches(&record));
}

#[test]
fn keys_read_back_as_the_path() {
    for units in [vec![], vec![0x61, 0x5c, 0x62], vec![0xd800, 0x20, 0xffff]] {
        let path = WidePath { units };
        assert_eq!(key_to_path(&path_key(&path)), Some(path.clone()));
        assert_eq!(stream_key(&path), path_key(&path));
    }
    assert_eq!(path_key(&WidePath::from_text("aA")), "u16:61004100");
    assert_eq!(utf16le_hex(&WidePath { units: vec![0x1234] }), "3412");
    for broken in ["", "61", "u16:6", "u16:61", "u16:6100z0", "U16:6100"] {
        assert_eq!(key_to_path(broken), None);
    }
}

#[test]
fn checkpoints_are_found_by_path_and_stream() {
    let mut list = Vec::new();
    let mut second = sample_checkpoint("u16:b");
    second.stream = "u16:ads".to_owned();
    store_checkpoint(&mut list, second.clone());
    store_checkpoint(&mut list, sample_checkpoint("u16:b"));
    store_checkpoint(&mut list, sample_checkpoint("u16:a"));
    let mut newer = sample_checkpoint("u16:b");
    newer.watermark = 48;
    store_checkpoint(&mut list, newer.clone());
    assert_eq!(list.len(), 3);
    assert_eq!(find_checkpoint(&list, "u16:b", ""), Some(&newer));
    assert_eq!(find_checkpoint(&list, "u16:b", "u16:ads"), Some(&second));
    assert_eq!(find_checkpoint(&list, "u16:c", ""), None);
    let kept = retire_path(list, "u16:b");
    assert_eq!(kept, vec![sample_checkpoint("u16:a")]);
}

#[test]
fn append_heals_an_unterminated_line_and_rolls_back_a_failed_write() {
    let failed = || IoError {
        code: Some(112),
        kind: IoErrorKind::Other,
        cloud: false,
        message: "disk full".to_owned(),
    };
    let step = continue_append(AppendStep::SeekEnd, AppendReply::Position(Ok(0)));
    assert_eq!(step, AppendStep::WriteRecord { before: 0 });
    let step = continue_append(AppendStep::SeekEnd, AppendReply::Position(Ok(9)));
    assert_eq!(step, AppendStep::ProbeTail { before: 9 });
    let step = continue_append(step, AppendReply::Tail(Ok(b'}')));
    assert_eq!(step, AppendStep::SeekBack { before: 9, terminated: false });
    let step = continue_append(step, AppendReply::Position(Ok(9)));
    assert_eq!(step, AppendStep::Heal { before: 9 });
    let step = continue_append(step, AppendReply::Done(Ok(())));
    let AppendStep::WriteRecord { before } = step else {
        panic!("the record was expected");
    };
    let step = continue_append(step, AppendReply::Done(Err(failed())));
    assert!(matches!(&step, AppendStep::Rollback { before: start, .. } if *start == before));
    let step = continue_append(step, AppendReply::Done(Ok(())));
    assert!(matches!(step, AppendStep::Failed { stage: AppendStage::Write, .. }));
}

#[test]
fn intervals_grow_with_the_file_and_lie_ahead() {
    let mib = 1024 * 1024;
    let small = checkpoint_interval(300 * mib);
    let large = checkpoint_interval(1 << 50);
    assert!(small > 0 && small <= large);
    let boundary = next_checkpoint_after(10, small, 300 * mib);
    assert!(boundary > 10);
    assert_eq!(next_checkpoint_after(300 * mib - 1, small, 300 * mib), 300 * mib);
}

#[test]
fn cursors_bound_transfers_at_the_next_checkpoint() {
    let identity = Some(FileIdentity { volume_serial: 1, file_id: [1; 16] });
    let total = 1 << 40;
    let mut cursor = CheckpointCursor::new(true, 0, total, identity);
    let first = cursor.bound(0, total);
    assert!(first < total);
    assert!(!cursor.is_due(first - 1));
    assert!(cursor.is_due(first));
    cursor.advance(first, CheckpointStatus::Written);
    assert!(!cursor.is_due(first));
    let plain = CheckpointCursor::new(false, 0, total, None);
    assert_eq!(plain.bound(0, total), total);
    assert!(!plain.is_due(first));
}

fn source_metadata() -> ObjectMetadata {
    ObjectMetadata {
        identity: FileIdentity { volume_serial: 5, file_id: [6; 16] },
        kind: ObjectKind::File,
        size: 100,
        allocation_size: 100,
        ea_size: 0,
        basic: BasicMetadata {
            creation_time: 1,
            last_access_time: 2,
            last_write_time: 77,
            attributes: 0,
        },
        reparse_tag: None,
    }
}

#[test]
fn checkpoints_record_the_digested_prefix() {
    let mut digest = StreamDigest::new();
    digest.update(b"prefix");
    let identity = FileIdentity { volume_serial: 5, file_id: [9; 16] };
    let relative = WidePath::from_text("big.bin");
    let plan = append_checkpoint(
        true,
        &relative,
        "",
        &WidePath::from_text(".bigcp-x.part"),
        Some(identity),
        &source_metadata(),
        100,
        6,
        &Some(digest),
    );
    let Ok(CheckpointPlan::Append(checkpoint)) = plan else {
        panic!("a checkpoint was expected");
    };
    assert_eq!(checkpoint.relative_path, path_key(&relative));
    assert_eq!(checkpoint.watermark, 6);
    assert_eq!(checkpoint.source_mtime, 77);
    assert_eq!(
        checkpoint.prefix_digest,
        format!("xxh3:{:032x}", xxhash_rust::xxh3::xxh3_128(b"prefix"))
    );
    assert!(checkpoint.temp_identity.unwrap().matches(identity));
}

#[test]
fn base_checkpoints_serve_large_named_streams() {
    let streams = [
        StreamInfo::unnamed(10),
        StreamInfo { name: WidePath::from_text(":ads:$DATA"), size: 1000 },
    ];
    assert!(needs_base_checkpoint(true, &streams, 1000, true, false));
    assert!(!needs_base_checkpoint(true, &streams, 1001, true, false));
    assert!(!needs_base_checkpoint(false, &streams, 1000, true, false));
    assert!(!needs_base_checkpoint(true, &streams, 1000, false, false));
    assert!(!needs_base_checkpoint(true, &streams, 1000, true, true));
}

#[test]
fn checkpoint_status_follows_what_was_written() {
    assert_eq!(checkpoint_status(true, true), CheckpointStatus::Written);
    assert_eq!(checkpoint_status(true, false), CheckpointStatus::Disabled);
    assert_eq!(checkpoint_status(false, true), CheckpointStatus::Disabled);
}
