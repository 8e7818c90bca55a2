use hermes_hub::attachment_security::AttachmentSecurityPersistenceConformanceV1;
use hermes_hub::json::{json_get, JsonValue};
use hermes_hub::preview_image::{
    AttachmentPreviewContentTypeV1, AttachmentPreviewImageLimitsV1, AttachmentPreviewImageRendererV1,
    AttachmentPreviewRenderRequestV1, AttachmentPreviewRendererErrorV1,
    AttachmentPreviewSourceFormatV1,
};
use hermes_hub::relationships::{
    graph_node_kind, graph_review_state, manual_contact_link_evidence,
    manual_persona_link_evidence, GraphNodeKind, GraphReviewState, OrganizationLinkRecord,
    RelationshipEntityKind, RelationshipEvidenceSourceKind, RelationshipReviewState,
};
use hermes_hub::reports::{
    max_timestamp, uses_event_log_replay, SignalReplayBounds, ZulipCommandExecutionReport,
};
use image::{DynamicImage, ImageFormat, Rgba, RgbaImage};
use std::io::Cursor;

fn limits() -> AttachmentPreviewImageLimitsV1 {
    AttachmentPreviewImageLimitsV1 { max_image_pixels: 40_000_000, max_image_bytes: 8 * 1024 * 1024 }
}

fn source_png() -> Vec<u8> {
    let image = DynamicImage::ImageRgba8(RgbaImage::from_pixel(2, 1, Rgba([1, 2, 3, 255])));
    let mut bytes = Cursor::new(Vec::new());
    image.write_to(&mut bytes, ImageFormat::Png).unwrap();
    bytes.into_inner()
}

#[test]
fn decodes_and_reencodes_to_a_fresh_png() {
    let source = source_png();
    let result = AttachmentPreviewImageRendererV1
        .render(
            AttachmentPreviewRenderRequestV1 {
                source_format: AttachmentPreviewSourceFormatV1::Png,
                source_bytes: &source,
            },
            &limits(),
        )
        .unwrap();
    assert!(result.bytes.starts_with(b"\x89PNG\r\n\x1a\n"));
    assert_eq!(result.content_type, AttachmentPreviewContentTypeV1::Png);
    assert!(!result.truncated);
}

#[test]
fn malformed_and_wrong_format_fail_closed() {
    assert_eq!(
        AttachmentPreviewImageRendererV1.render(
            AttachmentPreviewRenderRequestV1 {
                source_format: AttachmentPreviewSourceFormatV1::Png,
                source_bytes: b"\x89PNG\r\n\x1a\n",
            },
            &limits(),
        ),
        Err(AttachmentPreviewRendererErrorV1::InvalidContent)
    );
    assert_eq!(
        AttachmentPreviewImageRendererV1.render(
            AttachmentPreviewRenderRequestV1 {
                source_format: AttachmentPreviewSourceFormatV1::Pdf,
                source_bytes: b"%PDF-1.7",
            },
            &limits(),
        ),
        Err(AttachmentPreviewRendererErrorV1::Unsupported)
    );
}

#[test]
fn oversized_pictures_and_outputs_are_refused() {
    let source = source_png();
    let tiny_pixels = AttachmentPreviewImageLimitsV1 { max_image_pixels: 1, max_image_bytes: 1 << 20 };
    assert_eq!(
        AttachmentPreviewImageRendererV1.render(
            AttachmentPreviewRenderRequestV1 {
                source_format: AttachmentPreviewSourceFormatV1::Png,
                source_bytes: &source,
            },
            &tiny_pixels,
        ),
        Err(AttachmentPreviewRendererErrorV1::SourceTooLarge)
    );
    let tiny_output = AttachmentPreviewImageLimitsV1 { max_image_pixels: 100, max_image_bytes: 8 };
    assert_eq!(
        AttachmentPreviewImageRendererV1.render(
            AttachmentPreviewRenderRequestV1 {
                source_format: AttachmentPreviewSourceFormatV1::Png,
                source_bytes: &source,
            },
            &tiny_output,
        ),
        Err(AttachmentPreviewRendererErrorV1::OutputTooLarge)
    );
}

#[test]
fn graph_vocabulary() {
    assert_eq!(graph_node_kind(RelationshipEntityKind::Communication), GraphNodeKind::Message);
    assert_eq!(graph_node_kind(RelationshipEntityKind::Knowledge), GraphNodeKind::Knowledge);
    assert_eq!(
        graph_review_state(RelationshipReviewState::UserRejected),
        GraphReviewState::UserRejected
    );
}

fn link(source: &str) -> OrganizationLinkRecord {
    OrganizationLinkRecord {
        id: "link-1".to_owned(),
        organization_id: "org-1".to_owned(),
        member_id: "person-1".to_owned(),
        source: source.to_owned(),
    }
}

#[test]
fn manual_link_evidence_prefers_named_observation() {
    let observed = manual_contact_link_evidence(&link("observation:obs-7"));
    assert_eq!(observed.source_kind, RelationshipEvidenceSourceKind::Observation);
    assert_eq!(observed.source_id, "obs-7");
    assert_eq!(
        observed.excerpt,
        "Persona is linked to organization through compatibility organization contact data."
    );
    assert_eq!(
        json_get(&observed.metadata, "person_id"),
        Some(&JsonValue::String("person-1".to_owned()))
    );
    let manual = manual_persona_link_evidence(&link("manual"));
    assert_eq!(manual.source_kind, RelationshipEvidenceSourceKind::Organization);
    assert_eq!(manual.source_id, "org-1");
    assert_eq!(
        json_get(&manual.metadata, "compatibility_table"),
        Some(&JsonValue::String("organization_persona_links".to_owned()))
    );
    assert_eq!(
        json_get(&manual.metadata, "persona_id"),
        Some(&JsonValue::String("person-1".to_owned()))
    );
}

#[test]
fn zulip_report_accumulates_accounts() {
    let mut report = ZulipCommandExecutionReport::default();
    report.record_account(Some(ZulipCommandExecutionReport {
        accounts_scanned: 9,
        accounts_failed: 9,
        claimed: 3,
        completed: 2,
        retrying: 1,
        dead_lettered: 0,
    }));
    report.record_account(None);
    assert_eq!(
        report,
        ZulipCommandExecutionReport {
            accounts_scanned: 2,
            accounts_failed: 1,
            claimed: 3,
            completed: 2,
            retrying: 1,
            dead_lettered: 0,
        }
    );
}

#[test]
fn replay_bounds_and_timestamps() {
    let none = SignalReplayBounds { from_position: None, to_position: None, from_time: None, to_time: None };
    assert!(!uses_event_log_replay(&none));
    assert!(uses_event_log_replay(&SignalReplayBounds { to_time: Some(5), ..none }));
    assert_eq!(max_timestamp(3, 9), 9);
    assert_eq!(max_timestamp(9, 9), 9);
}

#[test]
fn conformance_connection_input_checks() {
    assert!(AttachmentSecurityPersistenceConformanceV1::connection_input_is_valid(
        "localhost", 5432, "user", " ", "db"
    ));
    assert!(!AttachmentSecurityPersistenceConformanceV1::connection_input_is_valid(
        " ", 5432, "user", "pw", "db"
    ));
    assert!(!AttachmentSecurityPersistenceConformanceV1::connection_input_is_valid(
        "localhost", 0, "user", "pw", "db"
    ));
    assert!(!AttachmentSecurityPersistenceConformanceV1::connection_input_is_valid(
        "localhost", 5432, "user", "", "db"
    ));
}

#[test]
fn zulip_commands_are_tallied_by_outcome() {
    let mut report = ZulipCommandExecutionReport::for_claimed(4);
    report.record_completed();
    report.record_failure(Some("dead_letter"));
    report.record_failure(Some("retry_scheduled"));
    report.record_failure(None);
    assert_eq!(
        report,
        ZulipCommandExecutionReport {
            accounts_scanned: 0,
            accounts_failed: 0,
            claimed: 4,
            completed: 1,
            retrying: 1,
            dead_lettered: 1,
        }
    );
}
