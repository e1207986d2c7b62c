//! The interface every hardware profile implements, and the data it hands out.
use vstd::prelude::*;

verus! {

#[verifier::external_type_specification]
#[verifier::external_body]
pub struct ExPath(openxr::Path);

/// One of the two hands a controller can be held in.
#[derive(Clone, Copy, Debug, PartialEq, Eq, Structural)]
pub enum Hand {
    Left,
    Right,
}

/// The kind of the profile's primary two-dimensional input.
#[derive(Clone, Copy, Debug, PartialEq, Eq, Structural)]
pub enum MainAxisType {
    Thumbstick,
    Trackpad,
}

/// A value that is either shared by both hands or given per hand.
#[derive(Clone, Copy, Debug)]
pub enum Property {
    BothHands(&'static str),
    PerHand { left: &'static str, right: &'static str },
}

impl Property {
    pub open spec fn spec_get(self, hand: Hand) -> Seq<char> {
        match self {
            Property::BothHands(v) => v@,
            Property::PerHand { left, right } => if hand == Hand::Left {
                left@
            } else {
                right@
            },
        }
    }

    /// The value for the given hand.
    pub fn get(&self, hand: Hand) -> (r: &'static str)
        ensures
            r@ == self.spec_get(hand),
    {
        match self {
            Property::BothHands(v) => v,
            Property::PerHand { left, right } => match hand {
                Hand::Left => left,
                Hand::Right => right,
            },
        }
    }
}

/// Static metadata of a hardware profile.
#[derive(Clone, Copy, Debug)]
pub struct ProfileProperties {
    /// Display model name.
    pub model: &'static str,
    /// Controller type string as the legacy API reports it.
    pub openvr_controller_type: &'static str,
    /// Name of the render model, possibly per hand.
    pub render_model_name: Property,
    pub main_axis: MainAxisType,
}


/// Rewrites one path component into another before any path lookup, for one
/// hand or for both.
#[derive(Clone, Copy, Debug)]
pub struct PathTranslation {
    pub from: &'static str,
    pub to: &'static str,
    pub hand: Option<Hand>,
}

pub open spec fn translation_applies(t: PathTranslation, hand: Hand, component: Seq<char>) -> bool {
    &&& t.from@ == component
    &&& (t.hand is None || t.hand == Some(hand))
}

/// The component after translation: the target of the first rule, from
/// index `i` on, that applies to it, or the component itself when none does.
pub open spec fn translated_component(
    rules: Seq<PathTranslation>,
    hand: Hand,
    component: Seq<char>,
    i: int,
) -> Seq<char>
    decreases rules.len() - i,
{
    if i < 0 || i >= rules.len() {
        component
    } else if translation_applies(rules[i], hand, component) {
        rules[i].to@
    } else {
        translated_component(rules, hand, component, i + 1)
    }
}

/// A path, given as its components, with every component translated.
pub open spec fn translated_path(
    rules: Seq<PathTranslation>,
    hand: Hand,
    components: Seq<Seq<char>>,
) -> Seq<Seq<char>> {
    components.map_values(|c: Seq<char>| translated_component(rules, hand, c, 0))
}

/// Translates one path component by the first rule that applies to it.
pub fn translate_component(rules: &Vec<PathTranslation>, hand: Hand, component: &String) -> (r:
    String)
    ensures
        r@ == translated_component(rules@, hand, component@, 0),
{
    let mut i: usize = 0;
    while i < rules.len()
        invariant
            i <= rules@.len(),
            translated_component(rules@, hand, component@, 0) == translated_component(
                rules@,
                hand,
                component@,
                i as int,
            ),
        decreases rules@.len() - i,
    {
        let t = rules[i];
        let for_hand = match t.hand {
            None => true,
            Some(h) => h == hand,
        };
        let from = t.from.to_owned();
        if for_hand && from == *component {
            return t.to.to_owned();
        }
        i += 1;
    }
    component.clone()
}

/// Translates every component of a path.
pub fn translate_path(rules: &Vec<PathTranslation>, hand: Hand, components: &Vec<String>) -> (r:
    Vec<String>)
    ensures
        r@.map_values(|c: String| c@) == translated_path(rules@, hand, components@.map_values(|c: String| c@)),
{
    let mut out: Vec<String> = Vec::new();
    let mut i: usize = 0;
    while i < components.len()
        invariant
            i <= components@.len(),
            out@.len() == i,
            forall|j: int|
                0 <= j < i ==> #[trigger] out@[j]@ == translated_component(
                    rules@,
                    hand,
                    components@[j]@,
                    0,
                ),
        decreases components@.len() - i,
    {
        let c = translate_component(rules, hand, &components[i]);
        out.push(c);
        i += 1;
    }
    assert(out@.map_values(|c: String| c@) =~= translated_path(
        rules@,
        hand,
        components@.map_values(|c: String| c@),
    ));
    out
}

/// Translating with no rules leaves every path as it is.
pub proof fn lemma_no_translations_is_identity(hand: Hand, components: Seq<Seq<char>>)
    ensures
        translated_path(Seq::empty(), hand, components) == components,
{
    assert(translated_path(Seq::empty(), hand, components) =~= components);
}


/// Resolves a literal component path into the runtime's path handle.
pub trait StringToPath {
    fn leak_string_to_path(&self, path: &'static str) -> openxr::Path;
}

/// Candidate action paths for each legacy input; the first entry of a
/// sequence is the preferred one, and an empty sequence means that the
/// profile has no such input.
pub struct LegacyBindings {
    pub grip_pose: Vec<openxr::Path>,
    pub aim_pose: Vec<openxr::Path>,
    pub trigger: Vec<openxr::Path>,
    pub trigger_click: Vec<openxr::Path>,
    pub app_menu: Vec<openxr::Path>,
    pub a: Vec<openxr::Path>,
    pub squeeze: Vec<openxr::Path>,
    pub squeeze_click: Vec<openxr::Path>,
    pub main_xy: Vec<openxr::Path>,
    pub main_xy_click: Vec<openxr::Path>,
    pub main_xy_touch: Vec<openxr::Path>,
}

impl LegacyBindings {
    /// The number of candidates for each input, in field order.
    pub open spec fn slot_lengths(&self) -> Seq<nat> {
        seq![
            self.grip_pose@.len(),
            self.aim_pose@.len(),
            self.trigger@.len(),
            self.trigger_click@.len(),
            self.app_menu@.len(),
            self.a@.len(),
            self.squeeze@.len(),
            self.squeeze_click@.len(),
            self.main_xy@.len(),
            self.main_xy_click@.len(),
            self.main_xy_touch@.len(),
        ]
    }
}

/// Action paths that drive the synthetic hand skeleton.
pub struct SkeletalInputBindings {
    pub thumb_touch: Vec<openxr::Path>,
    pub index_touch: Vec<openxr::Path>,
    pub index_curl: Vec<openxr::Path>,
    pub rest_curl: Vec<openxr::Path>,
}

impl SkeletalInputBindings {
    /// The number of paths for each input, in field order.
    pub open spec fn slot_lengths(&self) -> Seq<nat> {
        seq![
            self.thumb_touch@.len(),
            self.index_touch@.len(),
            self.index_curl@.len(),
            self.rest_curl@.len(),
        ]
    }
}

/// The correction applied to the runtime's grip pose so that it matches the
/// pose convention of the legacy API.
#[derive(Clone, Copy, Debug, PartialEq, Eq, Structural)]
pub enum GripOffset {
    /// The runtime's grip pose is used as it is.
    Identity,
}

/// How many paths each slot holds.
pub open spec fn path_lengths(paths: Seq<Seq<Seq<char>>>) -> Seq<nat> {
    paths.map_values(|s: Seq<Seq<char>>| s.len())
}

/// What one hardware model contributes to input handling. None of its
/// operations can fail: a missing counterpart is an empty entry.
pub trait InteractionProfile {
    spec fn spec_properties(&self) -> ProfileProperties;

    spec fn spec_profile_path(&self) -> Seq<char>;

    spec fn spec_translations(&self) -> Seq<PathTranslation>;

    /// The component paths resolved for each legacy input, in the field order
    /// of `LegacyBindings`.
    spec fn spec_legacy_paths(&self) -> Seq<Seq<Seq<char>>>;

    /// The component paths resolved for each skeletal input, in the field
    /// order of `SkeletalInputBindings`.
    spec fn spec_skeletal_paths(&self) -> Seq<Seq<Seq<char>>>;

    spec fn spec_legal_paths(&self) -> Seq<Seq<char>>;

    spec fn spec_grip_offset(&self, hand: Hand) -> GripOffset;

    fn properties(&self) -> (r: ProfileProperties)
        ensures
            r == self.spec_properties(),
    ;

    fn profile_path(&self) -> (r: &'static str)
        ensures
            r@ == self.spec_profile_path(),
    ;

    fn translate_map(&self) -> (r: Vec<PathTranslation>)
        ensures
            r@ == self.spec_translations(),
    ;

    fn legacy_bindings<R: StringToPath>(&self, stp: &R) -> (r: LegacyBindings)
        ensures
            self.spec_legacy_paths().len() == 11,
            r.slot_lengths() == path_lengths(self.spec_legacy_paths()),
    ;

    fn skeletal_input_bindings<R: StringToPath>(&self, stp: &R) -> (r: SkeletalInputBindings)
        ensures
            self.spec_skeletal_paths().len() == 4,
            r.slot_lengths() == path_lengths(self.spec_skeletal_paths()),
    ;

    fn legal_paths(&self) -> (r: Vec<String>)
        ensures
            r@.map_values(|p: String| p@) == self.spec_legal_paths(),
    ;

    fn offset_grip_pose(&self, hand: Hand) -> (r: GripOffset)
        ensures
            r == self.spec_grip_offset(hand),
    ;
}

/// Every path that a profile refers to, in its bindings or its translations,
/// is one of its legal paths.
pub open spec fn referenced_paths_are_legal<P: InteractionProfile>(p: &P) -> bool {
    let legal = p.spec_legal_paths();
    &&& forall|i: int, j: int|
        0 <= i < p.spec_legacy_paths().len() && 0 <= j < p.spec_legacy_paths()[i].len()
            ==> legal.contains(#[trigger] p.spec_legacy_paths()[i][j])
    &&& forall|i: int, j: int|
        0 <= i < p.spec_skeletal_paths().len() && 0 <= j < p.spec_skeletal_paths()[i].len()
            ==> legal.contains(#[trigger] p.spec_skeletal_paths()[i][j])
    &&& forall|i: int|
        0 <= i < p.spec_translations().len() ==> legal.contains(
            (#[trigger] p.spec_translations()[i]).from@,
        ) && legal.contains(p.spec_translations()[i].to@)
}

/// The grip correction depends on the hand alone: asking twice for the same
/// hand gives the same correction.
pub proof fn lemma_grip_offset_deterministic<P: InteractionProfile>(
    p: &P,
    hand: Hand,
    a: GripOffset,
    b: GripOffset,
)
    requires
        a == p.spec_grip_offset(hand),
        b == p.spec_grip_offset(hand),
    ensures
        a == b,
{
}

} // verus!
