//! The handheld Vive Tracker: a tracked object with no buttons.
use vstd::prelude::*;

use crate::profile::{
    GripOffset, Hand, InteractionProfile, LegacyBindings, MainAxisType, PathTranslation,
    ProfileProperties, Property, SkeletalInputBindings, StringToPath, path_lengths,
    referenced_paths_are_legal,
};

verus! {

pub struct ViveTracker;

impl InteractionProfile for ViveTracker {
    open spec fn spec_properties(&self) -> ProfileProperties {
        ProfileProperties {
            model: "Vive Tracker Handheld Object",
            openvr_controller_type: "vive_tracker_handheld_object",
            render_model_name: Property::BothHands("vive_tracker"),
            main_axis: MainAxisType::Thumbstick,
        }
    }

    open spec fn spec_profile_path(&self) -> Seq<char> {
        "/interaction_profiles/htc/vive_tracker_htcx"@
    }

    open spec fn spec_translations(&self) -> Seq<PathTranslation> {
        Seq::empty()
    }

    open spec fn spec_legacy_paths(&self) -> Seq<Seq<Seq<char>>> {
        Seq::new(11, |i: int| Seq::empty())
    }

    open spec fn spec_skeletal_paths(&self) -> Seq<Seq<Seq<char>>> {
        Seq::new(4, |i: int| Seq::empty())
    }

    open spec fn spec_legal_paths(&self) -> Seq<Seq<char>> {
        Seq::empty()
    }

    open spec fn spec_grip_offset(&self, hand: Hand) -> GripOffset {
        GripOffset::Identity
    }

    fn properties(&self) -> (r: ProfileProperties) {
        ProfileProperties {
            model: "Vive Tracker Handheld Object",
            openvr_controller_type: "vive_tracker_handheld_object",
            render_model_name: Property::BothHands("vive_tracker"),
            main_axis: MainAxisType::Thumbstick,
        }
    }

    fn profile_path(&self) -> (r: &'static str) {
        "/interaction_profiles/htc/vive_tracker_htcx"
    }

    fn translate_map(&self) -> (r: Vec<PathTranslation>) {
        Vec::new()
    }

    fn legacy_bindings<R: StringToPath>(&self, _stp: &R) -> (r: LegacyBindings) {
        let r = LegacyBindings {
            grip_pose: Vec::new(),
            aim_pose: Vec::new(),
            trigger: Vec::new(),
            trigger_click: Vec::new(),
            app_menu: Vec::new(),
            a: Vec::new(),
            squeeze: Vec::new(),
            squeeze_click: Vec::new(),
            main_xy: Vec::new(),
            main_xy_click: Vec::new(),
            main_xy_touch: Vec::new(),
        };
        assert(r.slot_lengths() =~= path_lengths(self.spec_legacy_paths()));
        r
    }

    fn skeletal_input_bindings<R: StringToPath>(&self, _stp: &R) -> (r: SkeletalInputBindings) {
        let r = SkeletalInputBindings {
            thumb_touch: Vec::new(),
            index_touch: Vec::new(),
            index_curl: Vec::new(),
            rest_curl: Vec::new(),
        };
        assert(r.slot_lengths() =~= path_lengths(self.spec_skeletal_paths()));
        r
    }

    fn legal_paths(&self) -> (r: Vec<String>) {
        let r: Vec<String> = Vec::new();
        assert(r@.map_values(|p: String| p@) =~= self.spec_legal_paths());
        r
    }

    fn offset_grip_pose(&self, _hand: Hand) -> (r: GripOffset) {
        GripOffset::Identity
    }
}

/// Every path the Vive Tracker profile refers to is one of its legal paths.
pub proof fn lemma_vive_tracker_paths_are_legal(p: &ViveTracker)
    ensures
        referenced_paths_are_legal(p),
{
}

} // verus!
