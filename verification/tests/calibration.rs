use curcat::calibration::{
    preset_applied_message, preset_error_message, preset_layout, CalibrationPresetKind, PresetError,
    PresetLayout,
    pick_mode_label, CalTarget, CalibrationQuadrant, CartesianEndpointId, CalSnapEndpoint, DragTarget,
    Icon, PickMode, SnapCriteriaHits, SnapCriterion,
};

#[test]
fn pick_modes_and_drags_reach_the_same_targets() {
    assert_eq!(CalTarget::from_pick_mode(PickMode::X1), Some(CalTarget::X1));
    assert_eq!(CalTarget::from_drag(DragTarget::CalX1), Some(CalTarget::X1));
    assert_eq!(CalTarget::from_pick_mode(PickMode::Origin), Some(CalTarget::Origin));
    assert_eq!(CalTarget::from_drag(DragTarget::PolarOrigin), Some(CalTarget::Origin));
    assert_eq!(CalTarget::from_pick_mode(PickMode::CurveColor), None);
    assert_eq!(CalTarget::from_drag(DragTarget::CalXLine), None);
    assert_eq!(CalTarget::Origin.value_field(), None);
    assert!(CalTarget::A2.value_field().is_some());
    assert_eq!(CalTarget::R1.label(), "R1");
    assert_eq!(pick_mode_label(PickMode::X2), Some("Picking X2"));
    assert_eq!(pick_mode_label(PickMode::Idle), None);
}

#[test]
fn snap_hits_record_each_rule() {
    let mut hits = SnapCriteriaHits::default();
    assert!(!hits.has_other_than(SnapCriterion::End));
    hits.mark(SnapCriterion::End);
    assert!(!hits.has_other_than(SnapCriterion::End));
    assert!(hits.has_other_than(SnapCriterion::Extension));
    hits.mark(SnapCriterion::Intersection);
    hits.mark(SnapCriterion::Intersection);
    assert!(hits.has_other_than(SnapCriterion::End));
    assert_eq!(SnapCriteriaHits::bit(SnapCriterion::VerticalHorizontal), 8);
}

#[test]
fn quadrants_place_axes() {
    let all = CalibrationQuadrant::all();
    assert_eq!(all.len(), 4);
    let bottoms = all.iter().filter(|q| q.axis_on_bottom()).count();
    let lefts = all.iter().filter(|q| q.axis_on_left()).count();
    assert_eq!(bottoms, 2);
    assert_eq!(lefts, 2);
}

#[test]
fn endpoints_and_icons() {
    assert_eq!(CartesianEndpointId::Y2.to_snap_endpoint(), CalSnapEndpoint::Y2);
    assert_eq!(Icon::Menu.asset_file(), "menu-2.svg");
    assert_eq!(Icon::Clear.asset_file(), Icon::DeletePoint.asset_file());
    assert_eq!(Icon::SaveProject.asset_file(), "device-floppy.svg");
}

#[test]
fn presets_place_axes_on_image_corners() {
    let first = preset_layout(CalibrationPresetKind::Pixels, CalibrationQuadrant::I, Some([800, 600])).unwrap();
    assert_eq!(
        first,
        PresetLayout { origin: [0, 600], x_end: [800, 600], y_end: [0, 0], x_value: 800, y_value: 600 }
    );
    let third = preset_layout(CalibrationPresetKind::Unit, CalibrationQuadrant::III, Some([800, 600])).unwrap();
    assert_eq!(
        third,
        PresetLayout { origin: [800, 0], x_end: [0, 0], y_end: [800, 600], x_value: -1, y_value: -1 }
    );
    assert_eq!(
        preset_layout(CalibrationPresetKind::Unit, CalibrationQuadrant::II, None),
        Err(PresetError::NoImage)
    );
    assert_eq!(
        preset_layout(CalibrationPresetKind::Unit, CalibrationQuadrant::II, Some([0, 5])),
        Err(PresetError::EmptyImage)
    );
    assert_eq!(
        preset_error_message(curcat::i18n::UiLanguage::En, PresetError::NoImage),
        "Load an image before applying calibration presets."
    );
    assert_eq!(
        preset_applied_message(curcat::i18n::UiLanguage::En, CalibrationPresetKind::Pixels, CalibrationQuadrant::IV),
        "Applied calibration preset: quadrant IV (Pixels)"
    );
}
