use fiximg::batch::{build_items, make_item, BatchReport};
use fiximg::codec::{codec_step, collect_jpeg, run_other, run_png, CodecStep};
use fiximg::config::resolve_config;
use fiximg::kind::{classify, extension_of, FileType};
use fiximg::outcome::{outcome_of, ItemError, ItemRecord, ItemResult, PlaceStatus};
use fiximg::place::{output_filename, plan_item, PlacementAction};

fn tiny_png() -> Vec<u8> {
    vec![
        137, 80, 78, 71, 13, 10, 26, 10, 0, 0, 0, 13, 73, 72, 68, 82, 0, 0, 0, 1, 0, 0, 0, 1, 8,
        2, 0, 0, 0, 144, 119, 83, 222, 0, 0, 0, 12, 73, 68, 65, 84, 120, 156, 99, 248, 207, 192,
        0, 0, 3, 1, 1, 0, 201, 254, 146, 239, 0, 0, 0, 0, 73, 69, 78, 68, 174, 66, 96, 130,
    ]
}

#[test]
fn classify_png_extension() {
    assert_eq!(classify(&b"dir/a.png".to_vec()), FileType::Png);
    assert_eq!(classify(&b"a.png".to_vec()), FileType::Png);
}

#[test]
fn classify_jpeg_extensions() {
    assert_eq!(classify(&b"in/b.jpg".to_vec()), FileType::Jpeg);
    assert_eq!(classify(&b"in/b.jpeg".to_vec()), FileType::Jpeg);
}

#[test]
fn classify_other_extensions() {
    assert_eq!(classify(&b"in/c.txt".to_vec()), FileType::Other);
    assert_eq!(classify(&b"README".to_vec()), FileType::Other);
    assert_eq!(classify(&b"in/.hidden".to_vec()), FileType::Other);
    assert_eq!(classify(&b"archive.tar.gz".to_vec()), FileType::Other);
    assert_eq!(classify(&b"trailing.".to_vec()), FileType::Other);
}

#[test]
fn classify_is_case_sensitive() {
    assert_eq!(classify(&b"A.PNG".to_vec()), FileType::Other);
    assert_eq!(classify(&b"b.JPG".to_vec()), FileType::Other);
}

#[test]
fn classify_ignores_dots_in_directories() {
    assert_eq!(classify(&b"dir.png/file".to_vec()), FileType::Other);
    assert_eq!(classify(&b"dir.d/x.png".to_vec()), FileType::Png);
}

#[test]
fn extension_of_paths() {
    assert_eq!(extension_of(&b"a.png".to_vec()), Some(b"png".to_vec()));
    assert_eq!(extension_of(&b"dir/a.tar.gz".to_vec()), Some(b"gz".to_vec()));
    assert_eq!(extension_of(&b"dir/README".to_vec()), None);
    assert_eq!(extension_of(&b".hidden".to_vec()), None);
    assert_eq!(extension_of(&b"a.".to_vec()), Some(b"".to_vec()));
}

#[test]
fn address_matches_reference_digest() {
    let payload = b"hello world".to_vec();
    let addr = fiximg::digest::address_of(&payload);
    let expect = blake3::hash(b"hello world").to_hex();
    assert_eq!(addr, expect.as_str().as_bytes().to_vec());
}

#[test]
fn address_is_deterministic_and_hex() {
    let payload = b"some bytes".to_vec();
    let a1 = fiximg::digest::address_of(&payload);
    let a2 = fiximg::digest::address_of(&payload);
    assert_eq!(a1, a2);
    assert_eq!(a1.len(), 64);
    assert!(a1.iter().all(|b| (b'0'..=b'9').contains(b) || (b'a'..=b'f').contains(b)));
}

#[test]
fn address_of_empty_buffer() {
    let addr = fiximg::digest::address_of(&Vec::new());
    let expect = blake3::hash(b"").to_hex();
    assert_eq!(addr, expect.as_str().as_bytes().to_vec());
}

#[test]
fn other_payload_round_trips_unchanged() {
    let payload = b"not an image at all \x00\x01\x02".to_vec();
    let out = run_other(payload.clone());
    assert_eq!(out, payload);
}

#[test]
fn png_optimizer_accepts_valid_png() {
    let png = tiny_png();
    match run_png(&png) {
        Ok(out) => {
            let direct =
                oxipng::optimize_from_memory(&png, &oxipng::Options::default()).unwrap();
            assert_eq!(out, direct);
        }
        Err(e) => panic!("valid PNG rejected: {:?}", e),
    }
}

#[test]
fn truncated_animation_chunk_is_a_codec_error() {
    // PNG signature, then an fcTL chunk whose data is empty: the optimizer's
    // parser would read four data bytes that are not there, so the library
    // must turn the file away as a codec error before the call.
    let mut bad: Vec<u8> = vec![137, 80, 78, 71, 13, 10, 26, 10];
    bad.extend_from_slice(&[0, 0, 0, 0]);
    bad.extend_from_slice(b"fcTL");
    bad.extend_from_slice(&[0, 0, 0, 0]);
    match run_png(&bad) {
        Ok(_) => panic!("malformed animation chunk accepted"),
        Err(e) => assert!(matches!(e, ItemError::Codec(_))),
    }
}

#[test]
fn png_result_is_deterministic() {
    let png = tiny_png();
    let first = run_png(&png);
    let second = run_png(&png);
    assert_eq!(first, second);
}

#[test]
fn png_optimizer_rejects_corrupt_png() {
    let bad = b"this is not a png".to_vec();
    match run_png(&bad) {
        Ok(_) => panic!("corrupt PNG accepted"),
        Err(e) => assert!(matches!(e, ItemError::Codec(_))),
    }
}

#[test]
fn codec_step_dispatches_by_kind() {
    let png = tiny_png();
    match codec_step(FileType::Png, png.clone()) {
        CodecStep::Ready(Ok(out)) => {
            let direct =
                oxipng::optimize_from_memory(&png, &oxipng::Options::default()).unwrap();
            assert_eq!(out, direct);
        }
        other => panic!("unexpected codec step: {:?}", kind_of(&other)),
    }
    let text = b"plain text".to_vec();
    match codec_step(FileType::Other, text.clone()) {
        CodecStep::Ready(Ok(out)) => assert_eq!(out, text),
        other => panic!("unexpected codec step: {:?}", kind_of(&other)),
    }
    let jpeg = b"jpeg bytes".to_vec();
    match codec_step(FileType::Jpeg, jpeg.clone()) {
        CodecStep::External(bytes) => assert_eq!(bytes, jpeg),
        other => panic!("unexpected codec step: {:?}", kind_of(&other)),
    }
}

fn kind_of(step: &CodecStep) -> &'static str {
    match step {
        CodecStep::Ready(Ok(_)) => "Ready(Ok)",
        CodecStep::Ready(Err(_)) => "Ready(Err)",
        CodecStep::External(_) => "External",
    }
}

#[test]
fn collect_jpeg_takes_output_on_success() {
    let out = b"optimized jpeg".to_vec();
    match collect_jpeg(true, out.clone()) {
        Ok(v) => assert_eq!(v, out),
        Err(e) => panic!("successful tool output rejected: {:?}", e),
    }
}

#[test]
fn collect_jpeg_rejects_failed_exit() {
    match collect_jpeg(false, b"partial".to_vec()) {
        Ok(_) => panic!("failed exit accepted"),
        Err(e) => assert!(matches!(e, ItemError::Codec(_))),
    }
}

#[test]
fn collect_jpeg_rejects_empty_output() {
    match collect_jpeg(true, Vec::new()) {
        Ok(_) => panic!("empty output accepted"),
        Err(e) => assert!(matches!(e, ItemError::Codec(_))),
    }
}

#[test]
fn output_filename_is_digest_and_extension() {
    let payload = b"payload".to_vec();
    let name = output_filename(&payload, &b"in/c.txt".to_vec());
    let hex = blake3::hash(b"payload").to_hex();
    let mut expect = hex.as_str().as_bytes().to_vec();
    expect.push(b'.');
    expect.extend_from_slice(b"txt");
    assert_eq!(name, expect);
}

#[test]
fn output_filename_without_extension_ends_with_dot() {
    let payload = b"payload".to_vec();
    let name = output_filename(&payload, &b"in/README".to_vec());
    assert_eq!(name.last(), Some(&b'.'));
    assert_eq!(name.len(), 65);
}

#[test]
fn identical_payloads_map_to_identical_destinations() {
    let cfg = resolve_config(b"in".to_vec(), Some(b"out".to_vec()), false, String::new());
    let payload = b"same bytes".to_vec();
    let p1 = plan_item(&payload, &b"in/a.png".to_vec(), &cfg);
    let p2 = plan_item(&payload, &b"in/a_copy.png".to_vec(), &cfg);
    assert_eq!(p1.destination, p2.destination);
}

#[test]
fn copy_mode_plans_a_fresh_write() {
    let cfg = resolve_config(b"in".to_vec(), Some(b"out".to_vec()), false, String::new());
    let payload = b"bytes".to_vec();
    let plan = plan_item(&payload, &b"in/a.png".to_vec(), &cfg);
    assert_eq!(plan.action, PlacementAction::WriteNew);
    assert!(plan.destination.starts_with(b"out/"));
    assert!(plan.destination.ends_with(b".png"));
}

#[test]
fn rename_mode_plans_a_rename_into_the_input_directory() {
    let cfg = resolve_config(b"in".to_vec(), None, true, String::new());
    let payload = b"bytes".to_vec();
    let plan = plan_item(&payload, &b"in/a.png".to_vec(), &cfg);
    assert_eq!(plan.action, PlacementAction::RenameSource);
    assert!(plan.destination.starts_with(b"in/"));
    assert!(plan.destination.ends_with(b".png"));
}

#[test]
fn outcome_of_each_status() {
    let placed = outcome_of(ItemRecord {
        source_path: b"in/a.png".to_vec(),
        staged: Ok(PlaceStatus::Placed),
    });
    assert_eq!(placed.result, ItemResult::Success);

    let collided = outcome_of(ItemRecord {
        source_path: b"in/a_copy.png".to_vec(),
        staged: Ok(PlaceStatus::DestinationExists),
    });
    assert_eq!(collided.result, ItemResult::Failure(ItemError::Collision));

    let failed_write = outcome_of(ItemRecord {
        source_path: b"in/b.jpg".to_vec(),
        staged: Ok(PlaceStatus::PlaceFailed("disk full".to_string())),
    });
    assert_eq!(
        failed_write.result,
        ItemResult::Failure(ItemError::Io("disk full".to_string()))
    );

    let codec_failed = outcome_of(ItemRecord {
        source_path: b"in/bad.png".to_vec(),
        staged: Err(ItemError::Codec("broken header".to_string())),
    });
    assert_eq!(
        codec_failed.result,
        ItemResult::Failure(ItemError::Codec("broken header".to_string()))
    );
}

#[test]
fn batch_of_three_kinds_yields_three_successes() {
    let paths = vec![b"in/a.png".to_vec(), b"in/b.jpg".to_vec(), b"in/c.txt".to_vec()];
    let items = build_items(paths);
    assert_eq!(items.len(), 3);
    assert_eq!(items[0].file_type, FileType::Png);
    assert_eq!(items[1].file_type, FileType::Jpeg);
    assert_eq!(items[2].file_type, FileType::Other);

    let records = items
        .into_iter()
        .map(|it| ItemRecord { source_path: it.path, staged: Ok(PlaceStatus::Placed) })
        .collect::<Vec<_>>();
    let report = fiximg::batch::collect_outcomes(records);
    assert_eq!(report.outcomes.len(), 3);
    assert!(report.outcomes.iter().all(|o| o.result == ItemResult::Success));
}

#[test]
fn duplicate_payload_yields_one_success_and_one_collision() {
    let records = vec![
        ItemRecord { source_path: b"in/a.png".to_vec(), staged: Ok(PlaceStatus::Placed) },
        ItemRecord {
            source_path: b"in/a_copy.png".to_vec(),
            staged: Ok(PlaceStatus::DestinationExists),
        },
    ];
    let report = fiximg::batch::collect_outcomes(records);
    assert_eq!(report.outcomes.len(), 2);
    assert_eq!(report.outcomes[0].result, ItemResult::Success);
    assert_eq!(
        report.outcomes[1].result,
        ItemResult::Failure(ItemError::Collision)
    );
}

#[test]
fn one_codec_failure_leaves_the_other_items_untouched() {
    let records = vec![
        ItemRecord {
            source_path: b"in/bad.png".to_vec(),
            staged: Err(ItemError::Codec("not a PNG".to_string())),
        },
        ItemRecord { source_path: b"in/good.png".to_vec(), staged: Ok(PlaceStatus::Placed) },
        ItemRecord { source_path: b"in/c.txt".to_vec(), staged: Ok(PlaceStatus::Placed) },
    ];
    let report = fiximg::batch::collect_outcomes(records);
    assert_eq!(report.outcomes.len(), 3);
    assert!(matches!(
        report.outcomes[0].result,
        ItemResult::Failure(ItemError::Codec(_))
    ));
    assert_eq!(report.outcomes[1].result, ItemResult::Success);
    assert_eq!(report.outcomes[2].result, ItemResult::Success);
}

#[test]
fn make_item_keeps_the_path() {
    let it = make_item(b"in/a.jpeg".to_vec());
    assert_eq!(it.path, b"in/a.jpeg".to_vec());
    assert_eq!(it.file_type, FileType::Jpeg);
}

#[test]
fn report_records_in_order() {
    let mut report = BatchReport::new();
    report.record(outcome_of(ItemRecord {
        source_path: b"x".to_vec(),
        staged: Ok(PlaceStatus::Placed),
    }));
    report.record(outcome_of(ItemRecord {
        source_path: b"y".to_vec(),
        staged: Ok(PlaceStatus::DestinationExists),
    }));
    assert_eq!(report.outcomes.len(), 2);
    assert_eq!(report.outcomes[0].source_path, b"x".to_vec());
    assert_eq!(report.outcomes[1].source_path, b"y".to_vec());
}
