use screenshot_native::capture::MonitorCaptureBounds;
use screenshot_native::dxgi_output::{
    rank_dxgi_outputs_for_selection, select_dxgi_output_for_selection, DxgiDesktopCoordinates,
    DxgiOutputCandidate, DXGI_OUTPUT_RANKING_POLICY, DXGI_OUTPUT_RANKING_POLICY_VERSION,
};
use screenshot_native::dxgi_capture::DxgiCaptureError;
use screenshot_native::dxgi_output_bridge_plan::plan_dxgi_selected_output_bridge;
use screenshot_native::dxgi_session::choose_dxgi_output;
use screenshot_native::capture::RgbaFrame;
use screenshot_native::d3d11_frame::D3d11TextureFrameFormat;
use screenshot_native::dxgi_output_bridge_smoke::{
    combine_errors, dxgi_bridge_dry_run_capture_failed, dxgi_bridge_dry_run_plan,
    dxgi_bridge_dry_run_plan_failed, finish_dxgi_selected_output_bridge_dry_run,
    run_dxgi_selected_output_bridge_dry_run, DxgiBridgeDryRunOutput,
    DxgiSelectedOutputBridgeDryRunStage,
};
use screenshot_native::output::{ImageBounds, SelectionRect};
use screenshot_native::selected_image_bridge::{
    build_selected_png_contract, dry_run_selected_output_bridge_contracts,
};

fn candidate(
    adapter_index: u32,
    output_index: u32,
    bounds: MonitorCaptureBounds,
) -> DxgiOutputCandidate {
    DxgiOutputCandidate::new(adapter_index, output_index, bounds)
}

#[test]
fn dxgi_desktop_coordinates_convert_to_desktop_bounds() {
    assert_eq!(
        DxgiDesktopCoordinates::new(-1920, 0, 0, 1080).bounds(),
        Some(MonitorCaptureBounds::new(-1920, 0, 1920, 1080))
    );
    assert_eq!(DxgiDesktopCoordinates::new(10, 10, 10, 20).bounds(), None);
    assert_eq!(DxgiDesktopCoordinates::new(10, 10, 20, 10).bounds(), None);
    assert_eq!(
        DxgiDesktopCoordinates::new(i32::MIN, 0, i32::MAX, 10).bounds(),
        None
    );
}

#[test]
fn ranks_output_by_largest_intersection_area() {
    let outputs = [
        candidate(0, 0, MonitorCaptureBounds::new(-1920, 0, 1920, 1080)),
        candidate(0, 1, MonitorCaptureBounds::new(0, 0, 1920, 1080)),
    ];

    let selected = select_dxgi_output_for_selection(
        MonitorCaptureBounds::new(-50, 100, 200, 120),
        &outputs,
    )
    .expect("ranked output");

    assert_eq!(selected.candidate.output_index, 1);
    assert_eq!(selected.intersection_area, 150 * 120);
    assert!(selected.contains_selection_center);
}

#[test]
fn ranks_negative_origin_output_when_selection_is_inside_it() {
    let outputs = [
        candidate(0, 0, MonitorCaptureBounds::new(-1920, 0, 1920, 1080)),
        candidate(0, 1, MonitorCaptureBounds::new(0, 0, 1920, 1080)),
    ];

    let selected = select_dxgi_output_for_selection(
        MonitorCaptureBounds::new(-1910, 20, 300, 200),
        &outputs,
    )
    .expect("ranked output");

    assert_eq!(selected.candidate.output_index, 0);
    assert_eq!(selected.intersection_area, 300 * 200);
    assert!(selected.contains_selection_center);
}

#[test]
fn breaks_equal_seam_intersection_by_selection_center() {
    let outputs = [
        candidate(0, 0, MonitorCaptureBounds::new(-1920, 0, 1920, 1080)),
        candidate(0, 1, MonitorCaptureBounds::new(0, 0, 1920, 1080)),
    ];

    let selected =
        select_dxgi_output_for_selection(MonitorCaptureBounds::new(-10, 0, 20, 100), &outputs)
            .expect("ranked output");

    assert_eq!(selected.candidate.output_index, 1);
    assert_eq!(selected.intersection_area, 10 * 100);
    assert!(selected.contains_selection_center);
}

#[test]
fn breaks_identical_output_ties_by_stable_adapter_output_order() {
    let outputs = [
        candidate(0, 1, MonitorCaptureBounds::new(0, 0, 1920, 1080)),
        candidate(0, 0, MonitorCaptureBounds::new(0, 0, 1920, 1080)),
    ];

    let selected = select_dxgi_output_for_selection(
        MonitorCaptureBounds::new(100, 100, 20, 100),
        &outputs,
    )
    .expect("ranked output");

    assert_eq!(selected.candidate.output_index, 0);
    assert_eq!(selected.intersection_area, 20 * 100);
}

#[test]
fn rejects_non_intersecting_outputs() {
    let outputs = [candidate(
        0,
        0,
        MonitorCaptureBounds::new(1920, 0, 1920, 1080),
    )];

    assert_eq!(
        select_dxgi_output_for_selection(
            MonitorCaptureBounds::new(-100, 100, 50, 50),
            &outputs
        ),
        None
    );
}

#[test]
fn ranking_evidence_lists_all_candidates_without_handles() {
    let outputs = [
        candidate(0, 0, MonitorCaptureBounds::new(-1920, 0, 1920, 1080)),
        candidate(0, 1, MonitorCaptureBounds::new(0, 0, 1920, 1080)),
        candidate(1, 0, MonitorCaptureBounds::new(1920, 0, 1920, 1080)),
    ];

    let evidence = rank_dxgi_outputs_for_selection(
        MonitorCaptureBounds::new(-50, 100, 200, 120),
        &outputs,
    );

    assert_eq!(evidence.policy_version, DXGI_OUTPUT_RANKING_POLICY_VERSION);
    assert_eq!(evidence.policy, DXGI_OUTPUT_RANKING_POLICY);
    assert_eq!(evidence.selection_center, Some((50, 160)));
    assert_eq!(evidence.candidate_count, 3);
    assert_eq!(evidence.selected_rank, Some(1));
    assert_eq!(evidence.selected_output, Some(outputs[1]));
    assert!(!evidence.persistent_handle_exposed);
    assert_eq!(evidence.ranked_outputs.len(), 3);
    assert_eq!(evidence.ranked_outputs[0].rank, 1);
    assert_eq!(evidence.ranked_outputs[0].candidate, outputs[1]);
    assert_eq!(evidence.ranked_outputs[0].intersection_area, 150 * 120);
    assert_eq!(
        evidence.ranked_outputs[0].intersection_bounds,
        Some(MonitorCaptureBounds::new(0, 100, 150, 120))
    );
    assert!(evidence.ranked_outputs[0].selectable);
    assert!(evidence.ranked_outputs[0].selected);
    assert_eq!(
        evidence.ranked_outputs[2].rejection_reason,
        Some("no-intersection")
    );
}

#[test]
fn ranking_evidence_keeps_invalid_selection_auditable() {
    let outputs = [candidate(0, 0, MonitorCaptureBounds::new(0, 0, 1920, 1080))];

    let evidence =
        rank_dxgi_outputs_for_selection(MonitorCaptureBounds::new(0, 0, 0, 120), &outputs);

    assert_eq!(evidence.selected_rank, None);
    assert_eq!(evidence.selected_output, None);
    assert_eq!(evidence.selection_center, None);
    assert_eq!(evidence.ranked_outputs.len(), 1);
    assert!(!evidence.ranked_outputs[0].selectable);
    assert_eq!(
        evidence.ranked_outputs[0].rejection_reason,
        Some("invalid-selection")
    );
}

#[test]
fn ranking_evidence_preserves_area_before_center_policy() {
    let outputs = [
        candidate(0, 0, MonitorCaptureBounds::new(0, 0, 49, 100)),
        candidate(0, 1, MonitorCaptureBounds::new(50, 0, 10, 100)),
    ];

    let evidence =
        rank_dxgi_outputs_for_selection(MonitorCaptureBounds::new(0, 0, 100, 100), &outputs);

    assert_eq!(evidence.selected_output, Some(outputs[0]));
    assert_eq!(evidence.ranked_outputs[0].intersection_area, 49 * 100);
    assert!(!evidence.ranked_outputs[0].contains_selection_center);
    assert_eq!(evidence.ranked_outputs[1].intersection_area, 10 * 100);
    assert!(evidence.ranked_outputs[1].contains_selection_center);
}

#[test]
fn ranked_output_plan_maps_negative_origin_to_output_local_crop() {
    let plan = plan_dxgi_selected_output_bridge(
        MonitorCaptureBounds::new(-1700, 120, 320, 200),
        MonitorCaptureBounds::new(-1920, 0, 1920, 1080),
        ImageBounds::new(1920, 1080),
    )
    .expect("ranked output crop");

    assert_eq!(plan.crop.x, 220);
    assert_eq!(plan.crop.y, 120);
    assert_eq!(plan.crop.width, 320);
    assert_eq!(plan.crop.height, 200);
    assert_eq!(plan.selection.x, 220);
    assert_eq!(plan.selection.y, 120);
    assert_eq!(plan.selection.width, 320);
    assert_eq!(plan.selection.height, 200);
    assert!(plan.selected_output_ready_planning_only());
}

#[test]
fn selected_output_bridge_dry_run_rejects_empty_bounds() {
    let report = run_dxgi_selected_output_bridge_dry_run(MonitorCaptureBounds::new(0, 0, 0, 1));
    assert!(report.attempted);
    assert!(!report.ok);
    assert!(report.error.is_some());
}

#[test]
fn selected_output_bridge_stage_labels_are_stable() {
    assert_eq!(
        DxgiSelectedOutputBridgeDryRunStage::BridgeValidated.as_str(),
        "bridge-validated"
    );
    assert_eq!(
        DxgiSelectedOutputBridgeDryRunStage::Stopped.as_str(),
        "stopped"
    );
}

#[test]
fn combined_errors_join_with_separator() {
    assert_eq!(
        combine_errors(
            Some("a".to_string()),
            Some("b".to_string()),
            Some("c".to_string())
        ),
        Some("a; release failed: b; stop failed: c".to_string())
    );
    assert_eq!(
        combine_errors(None, Some("b".to_string()), None),
        Some("release failed: b".to_string())
    );
    assert_eq!(combine_errors(None, None, None), None);
}

fn known_output(bounds: MonitorCaptureBounds) -> DxgiBridgeDryRunOutput {
    DxgiBridgeDryRunOutput {
        output_bounds: Some(bounds),
        output_identity: Some((0, 2)),
        output_ranking: None,
        desktop_pulse: None,
    }
}

#[test]
fn bridge_dry_run_failures_keep_output_facts() {
    let bounds = MonitorCaptureBounds::new(0, 0, 2, 1);
    let report = dxgi_bridge_dry_run_capture_failed(
        bounds,
        4,
        known_output(bounds),
        "acquire timed out".to_string(),
        Some("busy".to_string()),
    );
    assert_eq!(report.stage, DxgiSelectedOutputBridgeDryRunStage::Started);
    assert_eq!(report.output_index, Some(2));
    assert!(!report.stopped);
    assert_eq!(report.error.as_deref(), Some("acquire timed out; stop failed: busy"));

    let plan_failed = dxgi_bridge_dry_run_plan_failed(
        bounds,
        4,
        known_output(bounds),
        "no coordinates".to_string(),
        Some("lost".to_string()),
        None,
    );
    assert_eq!(plan_failed.stage, DxgiSelectedOutputBridgeDryRunStage::TextureAcquired);
    assert!(!plan_failed.released_frame);
    assert!(plan_failed.stopped);
    assert_eq!(plan_failed.error.as_deref(), Some("no coordinates; release failed: lost"));
    assert_eq!(
        dxgi_bridge_dry_run_plan(bounds, None, ImageBounds::new(2, 1)).unwrap_err(),
        "DXGI output DesktopCoordinates are unavailable"
    );
}

#[test]
fn bridge_dry_run_finish_validates_every_action() {
    let bounds = MonitorCaptureBounds::new(0, 0, 2, 1);
    let plan = dxgi_bridge_dry_run_plan(bounds, Some(bounds), ImageBounds::new(2, 1)).expect("plan");
    let frame =
        RgbaFrame::new(2, 1, vec![255, 0, 0, 255, 0, 255, 0, 255]).expect("valid test frame");
    let image = build_selected_png_contract(&frame, SelectionRect::new(0, 0, 2, 1)).expect("png");
    let bridge = dry_run_selected_output_bridge_contracts(&image).expect("dry run");
    let report = finish_dxgi_selected_output_bridge_dry_run(
        bounds,
        11,
        42,
        D3d11TextureFrameFormat::Bgra8Unorm,
        known_output(bounds),
        plan.clone(),
        Ok((image, bridge)),
        None,
        None,
    );
    assert!(report.ok);
    assert_eq!(report.stage, DxgiSelectedOutputBridgeDryRunStage::Stopped);
    assert_eq!(report.format.as_deref(), Some("Bgra8Unorm"));
    assert!(report.bridge_validated && report.selected_only && report.png_signature_valid);
    assert_eq!(report.action_diagnostics.len(), 4);

    let unreleased = finish_dxgi_selected_output_bridge_dry_run(
        bounds,
        11,
        42,
        D3d11TextureFrameFormat::Rgba8Unorm,
        known_output(bounds),
        plan,
        Err("readback failed".to_string()),
        Some("lost".to_string()),
        Some("gone".to_string()),
    );
    assert!(!unreleased.ok);
    assert_eq!(unreleased.stage, DxgiSelectedOutputBridgeDryRunStage::SelectedReadback);
    assert!(unreleased.action_diagnostics.is_empty());
    assert_eq!(
        unreleased.error.as_deref(),
        Some("readback failed; release failed: lost; stop failed: gone")
    );
}

#[test]
fn duplication_opens_the_ranked_or_first_output() {
    let outputs = [
        candidate(0, 0, MonitorCaptureBounds::new(-1920, 0, 1920, 1080)),
        candidate(0, 1, MonitorCaptureBounds::new(0, 0, 1920, 1080)),
    ];
    let (first, evidence) = choose_dxgi_output(None, &outputs).expect("first output");
    assert_eq!(first, outputs[0]);
    assert!(evidence.is_none());
    let (chosen, evidence) =
        choose_dxgi_output(Some(MonitorCaptureBounds::new(10, 10, 100, 100)), &outputs)
            .expect("ranked output");
    assert_eq!(chosen, outputs[1]);
    assert_eq!(evidence.expect("ranking").selected_rank, Some(1));
    assert_eq!(
        choose_dxgi_output(Some(MonitorCaptureBounds::new(5000, 0, 10, 10)), &outputs),
        Err(DxgiCaptureError::adapter_unavailable(
            "requested selection does not intersect any DXGI output DesktopCoordinates"
                .to_string()
        ))
    );
    assert_eq!(
        choose_dxgi_output(None, &[]),
        Err(DxgiCaptureError::adapter_unavailable(
            "DXGI output enumeration returned no outputs with valid DesktopCoordinates"
                .to_string()
        ))
    );
}
