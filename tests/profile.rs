use std::cell::Cell;

use xr_input_core::profile::{
    translate_component, translate_path, GripOffset, Hand, InteractionProfile, MainAxisType,
    PathTranslation, Property, StringToPath,
};
use xr_input_core::vive_tracker::ViveTracker;

struct CountingResolver {
    calls: Cell<u64>,
}

impl StringToPath for CountingResolver {
    fn leak_string_to_path(&self, _path: &'static str) -> openxr::Path {
        self.calls.set(self.calls.get() + 1);
        openxr::Path::from_raw(self.calls.get())
    }
}

fn strings(v: &[&str]) -> Vec<String> {
    v.iter().map(|s| s.to_string()).collect()
}

#[test]
fn vive_tracker_properties() {
    let p = ViveTracker.properties();
    assert_eq!(p.model, "Vive Tracker Handheld Object");
    assert_eq!(p.openvr_controller_type, "vive_tracker_handheld_object");
    assert_eq!(p.render_model_name.get(Hand::Left), "vive_tracker");
    assert_eq!(p.render_model_name.get(Hand::Right), "vive_tracker");
    assert_eq!(p.main_axis, MainAxisType::Thumbstick);
}

#[test]
fn vive_tracker_profile_path() {
    assert_eq!(ViveTracker.profile_path(), "/interaction_profiles/htc/vive_tracker_htcx");
}

#[test]
fn vive_tracker_has_no_bindings() {
    let stp = CountingResolver { calls: Cell::new(0) };
    let b = ViveTracker.legacy_bindings(&stp);
    for slot in [
        &b.grip_pose, &b.aim_pose, &b.trigger, &b.trigger_click, &b.app_menu, &b.a, &b.squeeze,
        &b.squeeze_click, &b.main_xy, &b.main_xy_click, &b.main_xy_touch,
    ] {
        assert!(slot.is_empty());
    }
    let s = ViveTracker.skeletal_input_bindings(&stp);
    for slot in [&s.thumb_touch, &s.index_touch, &s.index_curl, &s.rest_curl] {
        assert!(slot.is_empty());
    }
    assert_eq!(stp.calls.get(), 0);
}

#[test]
fn vive_tracker_referenced_paths_are_legal() {
    let legal = ViveTracker.legal_paths();
    for t in ViveTracker.translate_map() {
        assert!(legal.iter().any(|p| p == t.from));
        assert!(legal.iter().any(|p| p == t.to));
    }
    assert!(legal.is_empty());
    assert!(ViveTracker.translate_map().is_empty());
}

#[test]
fn grip_offset_is_deterministic() {
    for hand in [Hand::Left, Hand::Right] {
        let a = ViveTracker.offset_grip_pose(hand);
        let b = ViveTracker.offset_grip_pose(hand);
        assert_eq!(a, b);
        assert_eq!(a, GripOffset::Identity);
    }
}

#[test]
fn empty_translation_map_is_identity() {
    let rules = ViveTracker.translate_map();
    let path = strings(&["user", "hand", "left", "input", "trigger", "value"]);
    assert_eq!(translate_path(&rules, Hand::Left, &path), path);
    assert_eq!(translate_path(&rules, Hand::Right, &Vec::new()), Vec::<String>::new());
}

#[test]
fn translation_rewrites_matching_components() {
    let rules = vec![PathTranslation { from: "trackpad", to: "thumbstick", hand: None }];
    let path = strings(&["user", "hand", "right", "input", "trackpad", "x"]);
    assert_eq!(
        translate_path(&rules, Hand::Right, &path),
        strings(&["user", "hand", "right", "input", "thumbstick", "x"])
    );
}

#[test]
fn translation_respects_hand_restriction() {
    let rules = vec![PathTranslation { from: "a", to: "x", hand: Some(Hand::Left) }];
    let a = "a".to_string();
    assert_eq!(translate_component(&rules, Hand::Left, &a), "x");
    assert_eq!(translate_component(&rules, Hand::Right, &a), "a");
}

#[test]
fn translation_first_applicable_rule_wins() {
    let rules = vec![
        PathTranslation { from: "b", to: "y", hand: Some(Hand::Right) },
        PathTranslation { from: "b", to: "z", hand: None },
        PathTranslation { from: "b", to: "w", hand: None },
    ];
    let b = "b".to_string();
    assert_eq!(translate_component(&rules, Hand::Right, &b), "y");
    assert_eq!(translate_component(&rules, Hand::Left, &b), "z");
    assert_eq!(translate_component(&rules, Hand::Left, &"c".to_string()), "c");
}

#[test]
fn per_hand_property() {
    let p = Property::PerHand { left: "l", right: "r" };
    assert_eq!(p.get(Hand::Left), "l");
    assert_eq!(p.get(Hand::Right), "r");
}
