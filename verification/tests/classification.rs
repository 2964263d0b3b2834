use uploader::dispatch::{abandon, conclude, route, PrefixRead};
use uploader::event::WatchedPath;
use uploader::record::Severity;
use uploader::signature::{classify, FormatClassification};
use uploader::text::{push_decimal, render_signature};
use uploader::upload::{outcome_of, Reply, Strategy, UploadOutcome};

fn save(name: &str) -> WatchedPath {
    let file_name = name.rsplit('/').next().map(|n| n.to_string());
    WatchedPath { display: name.to_string(), file_name }
}

#[test]
fn zip_signature_is_an_archive() {
    assert_eq!(classify([0x50, 0x4b, 0x03, 0x04]), FormatClassification::Archive);
}

#[test]
fn text_signature_is_compressed_text() {
    assert_eq!(classify(*b"EU4t"), FormatClassification::CompressedText);
    assert_eq!(classify([0x45, 0x55, 0x34, 0x74]), FormatClassification::CompressedText);
}

#[test]
fn other_signatures_are_unrecognized_and_kept() {
    assert_eq!(
        classify([0x00, 0x11, 0x22, 0x33]),
        FormatClassification::Unrecognized([0x00, 0x11, 0x22, 0x33])
    );
    for prefix in [
        [0x50, 0x4b, 0x03, 0x05],
        [0x50, 0x4b, 0x05, 0x06],
        [0x04, 0x03, 0x4b, 0x50],
        *b"eu4t",
        *b"EU4T",
        *b"EU4b",
        [0, 0, 0, 0],
        [255, 255, 255, 255],
    ] {
        assert_eq!(classify(prefix), FormatClassification::Unrecognized(prefix));
    }
}

#[test]
fn every_single_byte_change_of_a_known_signature_is_unrecognized() {
    for known in [[0x50u8, 0x4b, 0x03, 0x04], *b"EU4t"] {
        for position in 0..4 {
            for value in 0..=255u8 {
                let mut prefix = known;
                if prefix[position] == value {
                    continue;
                }
                prefix[position] = value;
                assert_eq!(classify(prefix), FormatClassification::Unrecognized(prefix));
            }
        }
    }
}

#[test]
fn signature_bytes_are_rendered_in_decimal() {
    assert_eq!(render_signature([0x00, 0x11, 0x22, 0x33]), "[0, 17, 34, 51]");
    assert_eq!(render_signature([9, 10, 99, 100]), "[9, 10, 99, 100]");
    assert_eq!(render_signature([101, 110, 200, 255]), "[101, 110, 200, 255]");
    for b in 0..=255u8 {
        let mut text = String::from("x");
        push_decimal(&mut text, b);
        assert_eq!(text, format!("x{}", b));
    }
}

#[test]
fn archive_prefix_routes_to_the_archive_strategy() {
    let routed = route(&save("save1.eu4"), PrefixRead::Prefix([0x50, 0x4b, 0x03, 0x04]));
    assert_eq!(routed, Ok(Strategy::Archive));
}

#[test]
fn text_prefix_routes_to_the_compressed_text_strategy() {
    let routed = route(&save("save2.eu4"), PrefixRead::Prefix(*b"EU4t"));
    assert_eq!(routed, Ok(Strategy::CompressedText));
}

#[test]
fn unrecognized_prefix_is_not_uploaded_and_names_its_bytes() {
    let path = save("/saves/odd.eu4");
    let routed = route(&path, PrefixRead::Prefix([0x00, 0x11, 0x22, 0x33]));
    assert_eq!(
        routed,
        Err("unexpected file signature: [0, 17, 34, 51] - /saves/odd.eu4".to_string())
    );
    let report = abandon(routed.unwrap_err());
    assert_eq!(report.record.severity, Severity::Warn);
    assert!(report.record.message.contains("[0, 17, 34, 51]"));
    assert_eq!(
        report.outcome,
        UploadOutcome::Failure(
            "unexpected file signature: [0, 17, 34, 51] - /saves/odd.eu4".to_string()
        )
    );
}

#[test]
fn unreadable_files_are_not_uploaded() {
    let path = save("/saves/gone.eu4");
    assert_eq!(
        route(&path, PrefixRead::OpenFailed("No such file or directory".to_string())),
        Err("unable to open: /saves/gone.eu4: No such file or directory".to_string())
    );
    assert_eq!(
        route(&path, PrefixRead::ReadFailed("failed to fill whole buffer".to_string())),
        Err("unable to read: /saves/gone.eu4: failed to fill whole buffer".to_string())
    );
}

#[test]
fn success_statuses_are_the_two_hundreds() {
    for status in [200u16, 201, 204, 250, 299] {
        let reply = Reply { status, body: Ok("ignored".to_string()) };
        assert_eq!(outcome_of(reply), UploadOutcome::Success);
        let unread = Reply { status, body: Err("broken pipe".to_string()) };
        assert_eq!(outcome_of(unread), UploadOutcome::Success);
    }
}

#[test]
fn other_statuses_fail_with_the_body_as_reason() {
    for status in [0u16, 100, 199, 300, 301, 400, 401, 404, 500, 503, 65535] {
        let reply = Reply { status, body: Ok("quota exceeded".to_string()) };
        assert_eq!(outcome_of(reply), UploadOutcome::Failure("quota exceeded".to_string()));
    }
    let empty = Reply { status: 500, body: Ok(String::new()) };
    assert_eq!(outcome_of(empty), UploadOutcome::Failure(String::new()));
}

#[test]
fn an_unreadable_error_body_is_the_reason() {
    let reply = Reply { status: 502, body: Err("stream did not contain valid UTF-8".to_string()) };
    assert_eq!(
        outcome_of(reply),
        UploadOutcome::Failure(
            "unable to interpret error server response: stream did not contain valid UTF-8"
                .to_string()
        )
    );
}

#[test]
fn a_rejected_upload_is_reported_with_strategy_and_path() {
    let path = save("/saves/save1.eu4");
    let uploaded = outcome_of(Reply { status: 500, body: Ok("quota exceeded".to_string()) });
    assert_eq!(uploaded, UploadOutcome::Failure("quota exceeded".to_string()));
    let report = conclude(&path, Strategy::Archive, uploaded);
    assert_eq!(
        report.outcome,
        UploadOutcome::Failure(
            "unable to upload zip: /saves/save1.eu4: quota exceeded".to_string()
        )
    );
    assert_eq!(report.record.severity, Severity::Warn);
    assert_eq!(report.record.message, "unable to upload zip: /saves/save1.eu4: quota exceeded");

    let text = conclude(
        &path,
        Strategy::CompressedText,
        UploadOutcome::Failure("quota exceeded".to_string()),
    );
    assert_eq!(text.record.message, "unable to upload txt: /saves/save1.eu4: quota exceeded");
}

#[test]
fn a_finished_upload_is_reported_at_info_level() {
    let path = save("/saves/save1.eu4");
    for strategy in [Strategy::Archive, Strategy::CompressedText] {
        let report = conclude(&path, strategy, UploadOutcome::Success);
        assert_eq!(report.outcome, UploadOutcome::Success);
        assert_eq!(report.record.severity, Severity::Info);
        assert_eq!(report.record.message, "successfully uploaded /saves/save1.eu4");
    }
}
