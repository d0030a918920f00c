//! Descriptors of the on-screen help: which inputs do something in the current state.

use crate::input::Key;
use vstd::prelude::*;

verus! {

#[derive(Clone, Copy, Debug, PartialEq, Eq, Hash, Structural)]
pub enum MouseMotion {
    Lmb,
    Rmb,
    Mmb,
    LmbDrag,
    RmbDrag,
    MmbDrag,
}

#[derive(Clone, Copy, Debug, PartialEq, Eq, Hash, Structural)]
pub enum MouseCursorIcon {
    Default,
    Crosshair,
    Move,
    Text,
}

/// One affordance: a mouse gesture or a key combination, and what it does.
#[derive(Debug, PartialEq, Eq)]
pub struct HintInfo {
    pub keys: Vec<Key>,
    pub mouse: Option<MouseMotion>,
    pub label: &'static str,
    /// Whether the hint continues the one before it with a plus sign.
    pub plus: bool,
}

pub struct HintInfoView {
    pub keys: Seq<Key>,
    pub mouse: Option<MouseMotion>,
    pub label: Seq<char>,
    pub plus: bool,
}

impl View for HintInfo {
    type V = HintInfoView;

    open spec fn view(&self) -> HintInfoView {
        HintInfoView { keys: self.keys@, mouse: self.mouse, label: self.label@, plus: self.plus }
    }
}

/// Affordances that are shown together.
#[derive(Debug, PartialEq, Eq)]
pub struct HintGroup(pub Vec<HintInfo>);

impl View for HintGroup {
    type V = Seq<HintInfoView>;

    open spec fn view(&self) -> Seq<HintInfoView> {
        Seq::new(self.0@.len(), |i: int| self.0@[i]@)
    }
}

/// Everything the help bar shows.
#[derive(Debug, PartialEq, Eq)]
pub struct HintData(pub Vec<HintGroup>);

impl View for HintData {
    type V = Seq<Seq<HintInfoView>>;

    open spec fn view(&self) -> Seq<Seq<HintInfoView>> {
        Seq::new(self.0@.len(), |i: int| self.0@[i]@)
    }
}

/// The view of a hint for a key combination.
pub open spec fn keys_hint(keys: Seq<Key>, label: &str) -> HintInfoView {
    HintInfoView { keys, mouse: None, label: label@, plus: false }
}

/// The view of a hint for a mouse gesture.
pub open spec fn mouse_hint(motion: MouseMotion, label: &str) -> HintInfoView {
    HintInfoView { keys: Seq::empty(), mouse: Some(motion), label: label@, plus: false }
}

/// The view of a hint for the four arrow keys.
pub open spec fn arrow_keys_hint(label: &str) -> HintInfoView {
    keys_hint(seq![Key::ArrowUp, Key::ArrowRight, Key::ArrowDown, Key::ArrowLeft], label)
}

/// The same hint, joined to its predecessor by a plus sign.
pub open spec fn with_plus(hint: HintInfoView) -> HintInfoView {
    HintInfoView { plus: true, ..hint }
}

impl HintInfo {
    pub fn keys(keys: Vec<Key>, label: &'static str) -> (hint: HintInfo)
        ensures
            hint@ == keys_hint(keys@, label),
    {
        HintInfo { keys, mouse: None, label, plus: false }
    }

    pub fn mouse(motion: MouseMotion, label: &'static str) -> (hint: HintInfo)
        ensures
            hint@ == mouse_hint(motion, label),
    {
        HintInfo { keys: Vec::new(), mouse: Some(motion), label, plus: false }
    }

    pub fn arrow_keys(label: &'static str) -> (hint: HintInfo)
        ensures
            hint@ == arrow_keys_hint(label),
    {
        let mut keys: Vec<Key> = Vec::new();
        keys.push(Key::ArrowUp);
        keys.push(Key::ArrowRight);
        keys.push(Key::ArrowDown);
        keys.push(Key::ArrowLeft);
        assert(keys@ == seq![Key::ArrowUp, Key::ArrowRight, Key::ArrowDown, Key::ArrowLeft]);
        HintInfo { keys, mouse: None, label, plus: false }
    }

    pub fn prepend_plus(self) -> (hint: HintInfo)
        ensures
            hint@ == with_plus(self@),
    {
        HintInfo { keys: self.keys, mouse: self.mouse, label: self.label, plus: true }
    }
}

impl HintGroup {
    pub fn new() -> (group: HintGroup)
        ensures
            group@ == Seq::<HintInfoView>::empty(),
    {
        let group = HintGroup(Vec::new());
        assert(group@ =~= Seq::<HintInfoView>::empty());
        group
    }

    /// The group with one more hint at its end.
    pub fn with(self, hint: HintInfo) -> (group: HintGroup)
        ensures
            group@ == self@.push(hint@),
    {
        let mut hints = self.0;
        hints.push(hint);
        let group = HintGroup(hints);
        assert(group@ =~= self@.push(hint@));
        group
    }
}

impl HintData {
    pub fn new() -> (data: HintData)
        ensures
            data@ == Seq::<Seq<HintInfoView>>::empty(),
    {
        let data = HintData(Vec::new());
        assert(data@ =~= Seq::<Seq<HintInfoView>>::empty());
        data
    }

    /// The data with one more group at its end.
    pub fn with(self, group: HintGroup) -> (data: HintData)
        ensures
            data@ == self@.push(group@),
    {
        let mut groups = self.0;
        groups.push(group);
        let data = HintData(groups);
        assert(data@ =~= self@.push(group@));
        data
    }
}

} // verus!
