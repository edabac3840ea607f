//! Pointer-button tracking of a scene view: which buttons are held, on which
//! object each press started, and what a release does to the selection.
//!
//! The view runs the event loop: it reads the object under the pointer from
//! the picking pass and hands each press and release to a `PointerTracker`,
//! which updates the scene's selection.
use vstd::prelude::*;
use crate::ids::ColorId;
use crate::selection::{after_deselect, after_select_only, after_toggle, SceneObject, SceneObjects};

verus! {

/// A pointer (mouse) button.
#[derive(Clone, Copy, Debug, PartialEq, Eq, Hash, Structural)]
pub enum PointerButton {
    Primary,
    Secondary,
    Middle,
    Extra1,
    Extra2,
}

/// Which releases count as clicks.
#[derive(Clone, Copy, Debug, PartialEq, Eq, Structural)]
pub enum ClickPolicy {
    /// Only the primary button clicks and changes the selection; presses
    /// outside the view are ignored; a release forgets only its own button.
    PrimaryButton,
    /// Any button clicks; a release forgets every held button.
    AnyButton,
}

/// A held button: which one, the object under the pointer when it was
/// pressed, and whether shift was held then.
#[derive(Clone, Copy, Debug, PartialEq, Eq, Structural)]
pub struct ButtonDown {
    pub button: PointerButton,
    pub start_object: Option<ColorId>,
    pub shift: bool,
}

/// `downs` without the entries of `button`.
pub open spec fn without_button(downs: Seq<ButtonDown>, button: PointerButton) -> Seq<ButtonDown>
    decreases downs.len(),
{
    if downs.len() == 0 {
        Seq::empty()
    } else {
        let rest = without_button(downs.drop_last(), button);
        if downs.last().button == button {
            rest
        } else {
            rest.push(downs.last())
        }
    }
}

/// Whether the press `d` can end in a click on `object` under `policy`.
pub open spec fn press_matches(d: ButtonDown, policy: ClickPolicy, object: ColorId) -> bool {
    &&& d.start_object == Some(object)
    &&& policy == ClickPolicy::PrimaryButton ==> d.button == PointerButton::Primary
}

/// The first held press that can end in a click on `object`.
pub open spec fn first_matching(downs: Seq<ButtonDown>, policy: ClickPolicy, object: ColorId) -> Option<
    ButtonDown,
>
    decreases downs.len(),
{
    if downs.len() == 0 {
        None
    } else if press_matches(downs[0], policy, object) {
        Some(downs[0])
    } else {
        first_matching(downs.drop_first(), policy, object)
    }
}

/// What a release does to the selection.
pub enum SelectionChange {
    /// Nothing.
    Keep,
    /// A click that toggles an object, with whether it is exclusive (see
    /// `SceneObjects::toggle_select_object`): a shift-click under either
    /// policy, and a plain click under the any-button policy.
    Toggle(ColorId, bool),
    /// A plain click under the primary-button policy: the object becomes
    /// the only selected one.
    SelectOnly(ColorId),
    /// A release over empty space without shift: deselect everything.
    DeselectAll,
}

/// The selection change of releasing `button` over `object` (shift held or
/// not), given the held presses.
pub open spec fn release_change(
    downs: Seq<ButtonDown>,
    policy: ClickPolicy,
    button: PointerButton,
    object: Option<ColorId>,
    shift: bool,
) -> SelectionChange {
    if policy == ClickPolicy::PrimaryButton && button != PointerButton::Primary {
        SelectionChange::Keep
    } else {
        match object {
            Some(id) => match first_matching(downs, policy, id) {
                Some(d) => if policy == ClickPolicy::PrimaryButton && !(d.shift && shift) {
                    SelectionChange::SelectOnly(id)
                } else {
                    SelectionChange::Toggle(id, !(d.shift && shift))
                },
                None => SelectionChange::Keep,
            },
            None => if shift {
                SelectionChange::Keep
            } else {
                SelectionChange::DeselectAll
            },
        }
    }
}

/// The held presses after releasing `button`.
pub open spec fn downs_after_release(
    downs: Seq<ButtonDown>,
    policy: ClickPolicy,
    button: PointerButton,
) -> Seq<ButtonDown> {
    match policy {
        ClickPolicy::PrimaryButton => without_button(downs, button),
        ClickPolicy::AnyButton => Seq::empty(),
    }
}

/// No button is held twice.
pub open spec fn one_entry_per_button(downs: Seq<ButtonDown>) -> bool {
    forall|i: int, j: int| 0 <= i < j < downs.len() ==> downs[i].button != downs[j].button
}

proof fn lemma_without_button(downs: Seq<ButtonDown>, button: PointerButton)
    ensures
        without_button(downs, button).len() <= downs.len(),
        forall|i: int|
            0 <= i < without_button(downs, button).len() ==> (#[trigger] without_button(
                downs,
                button,
            )[i]).button != button,
        forall|i: int|
            0 <= i < without_button(downs, button).len() ==> downs.contains(
                #[trigger] without_button(downs, button)[i],
            ),
        one_entry_per_button(downs) ==> one_entry_per_button(without_button(downs, button)),
    decreases downs.len(),
{
    if downs.len() > 0 {
        let rest = downs.drop_last();
        lemma_without_button(rest, button);
        let w = without_button(downs, button);
        assert forall|i: int| 0 <= i < w.len() implies downs.contains(#[trigger] w[i]) by {
            if i < without_button(rest, button).len() {
                let x = w[i];
                assert(rest.contains(x));
                let k = choose|k: int| 0 <= k < rest.len() && rest[k] == x;
                assert(downs[k] == x);
            } else {
                assert(downs[downs.len() - 1] == w[i]);
            }
        }
        if one_entry_per_button(downs) {
            assert(one_entry_per_button(rest)) by {
                assert forall|i: int, j: int| 0 <= i < j < rest.len() implies rest[i].button
                    != rest[j].button by {
                    assert(rest[i] == downs[i] && rest[j] == downs[j]);
                }
            }
            let r = without_button(rest, button);
            assert forall|i: int, j: int| 0 <= i < j < w.len() implies w[i].button
                != w[j].button by {
                if j == r.len() && downs.last().button != button {
                    let x = w[i];
                    assert(rest.contains(x));
                    let k = choose|k: int| 0 <= k < rest.len() && rest[k] == x;
                    assert(downs[k] == x);
                    assert(downs[downs.len() - 1] == downs.last());
                }
            }
        }
    }
}

/// Tracks the held pointer buttons of a scene view and the object clicked in
/// the current frame.
#[derive(Debug)]
pub struct PointerTracker {
    pub policy: ClickPolicy,
    pub downs: Vec<ButtonDown>,
    pub clicked: Option<ColorId>,
}

impl PointerTracker {
    /// A tracker with no button held and nothing clicked.
    pub fn new(policy: ClickPolicy) -> (r: Self)
        ensures
            r.policy == policy,
            r.downs@.len() == 0,
            r.clicked is None,
    {
        PointerTracker { policy, downs: Vec::new(), clicked: None }
    }

    /// Starts a frame: nothing has been clicked in it yet.
    pub fn begin_frame(&mut self)
        ensures
            final(self).clicked is None,
            final(self).downs@ == old(self).downs@,
            final(self).policy == old(self).policy,
    {
        self.clicked = None;
    }

    /// The position of the first held entry of `button`, if it is held.
    pub fn find_button(&self, button: PointerButton) -> (r: Option<usize>)
        ensures
            r matches Some(i) ==> i < self.downs@.len() && self.downs@[i as int].button == button
                && forall|k: int| 0 <= k < i ==> self.downs@[k].button != button,
            r is None ==> forall|i: int| 0 <= i < self.downs@.len() ==> self.downs@[i].button != button,
    {
        let mut i: usize = 0;
        while i < self.downs.len()
            invariant
                i <= self.downs@.len(),
                forall|k: int| 0 <= k < i ==> self.downs@[k].button != button,
            decreases self.downs@.len() - i,
        {
            if self.downs[i].button == button {
                return Some(i);
            }
            i = i + 1;
        }
        None
    }

    /// The held middle button (used for panning), if any.
    pub fn middle_drag(&self) -> (r: Option<&ButtonDown>)
        ensures
            r matches Some(d) ==> d.button == PointerButton::Middle && exists|i: int|
                0 <= i < self.downs@.len() && self.downs@[i] == *d && forall|k: int|
                    0 <= k < i ==> (#[trigger] self.downs@[k]).button != PointerButton::Middle,
            r is None ==> forall|i: int|
                0 <= i < self.downs@.len() ==> self.downs@[i].button != PointerButton::Middle,
    {
        match self.find_button(PointerButton::Middle) {
            Some(i) => Some(&self.downs[i]),
            None => None,
        }
    }

    /// The held secondary button (used for rotating), if any.
    pub fn secondary_drag(&self) -> (r: Option<&ButtonDown>)
        ensures
            r matches Some(d) ==> d.button == PointerButton::Secondary && exists|i: int|
                0 <= i < self.downs@.len() && self.downs@[i] == *d && forall|k: int|
                    0 <= k < i ==> (#[trigger] self.downs@[k]).button != PointerButton::Secondary,
            r is None ==> forall|i: int|
                0 <= i < self.downs@.len() ==> self.downs@[i].button != PointerButton::Secondary,
    {
        match self.find_button(PointerButton::Secondary) {
            Some(i) => Some(&self.downs[i]),
            None => None,
        }
    }

    /// Forgets the held entries of `button`.
    fn forget_button(&mut self, button: PointerButton)
        ensures
            final(self).downs@ == without_button(old(self).downs@, button),
            final(self).policy == old(self).policy,
            final(self).clicked == old(self).clicked,
    {
        let mut kept: Vec<ButtonDown> = Vec::new();
        let mut i: usize = 0;
        while i < self.downs.len()
            invariant
                i <= self.downs@.len(),
                kept@ == without_button(self.downs@.take(i as int), button),
            decreases self.downs@.len() - i,
        {
            let d = self.downs[i];
            proof {
                assert(self.downs@.take(i as int + 1).drop_last() =~= self.downs@.take(i as int));
            }
            if d.button != button {
                kept.push(d);
            }
            i = i + 1;
        }
        assert(self.downs@.take(i as int) =~= self.downs@);
        self.downs = kept;
    }

    /// A press of `button` over `object`, with shift held or not. Under the
    /// primary-button policy a press outside the view (`in_view` false) is
    /// ignored.
    pub fn on_press(
        &mut self,
        button: PointerButton,
        object: Option<ColorId>,
        shift: bool,
        in_view: bool,
    )
        ensures
            final(self).policy == old(self).policy,
            final(self).clicked == old(self).clicked,
            (old(self).policy == ClickPolicy::AnyButton || in_view) ==> final(self).downs@
                == without_button(old(self).downs@, button).push(
                ButtonDown { button, start_object: object, shift },
            ),
            !(old(self).policy == ClickPolicy::AnyButton || in_view) ==> final(self).downs@
                == old(self).downs@,
    {
        if self.policy == ClickPolicy::AnyButton || in_view {
            self.forget_button(button);
            self.downs.push(ButtonDown { button, start_object: object, shift });
        }
    }

    /// The first held press that can end in a click on `object`.
    fn first_matching_press(&self, object: ColorId) -> (r: Option<ButtonDown>)
        ensures
            r == first_matching(self.downs@, self.policy, object),
    {
        let mut i: usize = 0;
        assert(self.downs@.skip(0) =~= self.downs@);
        while i < self.downs.len()
            invariant
                i <= self.downs@.len(),
                first_matching(self.downs@, self.policy, object) == first_matching(
                    self.downs@.skip(i as int),
                    self.policy,
                    object,
                ),
            decreases self.downs@.len() - i,
        {
            let d = self.downs[i];
            proof {
                assert(self.downs@.skip(i as int)[0] == d);
                assert(self.downs@.skip(i as int).drop_first() =~= self.downs@.skip(i as int + 1));
            }
            let primary_ok = match self.policy {
                ClickPolicy::PrimaryButton => d.button == PointerButton::Primary,
                ClickPolicy::AnyButton => true,
            };
            let same_object = match d.start_object {
                Some(x) => x == object,
                None => false,
            };
            if same_object && primary_ok {
                return Some(d);
            }
            i = i + 1;
        }
        None
    }

    /// A release of `button` over `object`, with shift held or not: applies
    /// the selection change to `scene`, records a click on an existing
    /// object, and forgets the released button (under the any-button policy,
    /// every button).
    pub fn on_release(
        &mut self,
        scene: &mut SceneObjects,
        button: PointerButton,
        object: Option<ColorId>,
        shift: bool,
    ) -> (change: SelectionChange)
        ensures
            change == release_change(old(self).downs@, old(self).policy, button, object, shift),
            final(self).policy == old(self).policy,
            final(self).downs@ == downs_after_release(old(self).downs@, old(self).policy, button),
            final(scene).objects@.len() == old(scene).objects@.len(),
            forall|i: int|
                0 <= i < old(scene).objects@.len() ==> final(scene).objects@[i] == match change {
                    SelectionChange::Keep => old(scene).objects@[i],
                    SelectionChange::Toggle(id, exclusive) => after_toggle(
                        old(scene).objects@[i],
                        Some(id),
                        exclusive,
                    ),
                    SelectionChange::SelectOnly(id) => after_select_only(
                        old(scene).objects@[i],
                        Some(id),
                    ),
                    SelectionChange::DeselectAll => after_deselect(old(scene).objects@[i]),
                },
            final(self).clicked == match change {
                SelectionChange::Toggle(id, _) => if exists|i: int|
                    0 <= i < old(scene).objects@.len() && old(scene).objects@[i].id == id {
                    Some(id)
                } else {
                    old(self).clicked
                },
                SelectionChange::SelectOnly(id) => if exists|i: int|
                    0 <= i < old(scene).objects@.len() && old(scene).objects@[i].id == id {
                    Some(id)
                } else {
                    old(self).clicked
                },
                _ => old(self).clicked,
            },
    {
        let mut change = SelectionChange::Keep;
        let counts = match self.policy {
            ClickPolicy::PrimaryButton => button == PointerButton::Primary,
            ClickPolicy::AnyButton => true,
        };
        if counts {
            match object {
                Some(id) => {
                    match self.first_matching_press(id) {
                        Some(d) => {
                            let shift_select = d.shift && shift;
                            let select_only = !shift_select && match self.policy {
                                ClickPolicy::PrimaryButton => true,
                                ClickPolicy::AnyButton => false,
                            };
                            let ghost before = scene.objects@;
                            if select_only {
                                scene.select_only(Some(id));
                            } else {
                                scene.toggle_select_object(Some(id), !shift_select);
                            }
                            proof {
                                assert forall|i: int| 0 <= i < before.len() implies #[trigger] scene.objects@[i].id
                                    == before[i].id by {
                                    if select_only {
                                        assert(scene.objects@[i] == after_select_only(before[i], Some(id)));
                                    } else {
                                        assert(scene.objects@[i] == after_toggle(
                                            before[i],
                                            Some(id),
                                            !shift_select,
                                        ));
                                    }
                                }
                                if exists|i: int| 0 <= i < before.len() && before[i].id == id {
                                    let k = choose|i: int| 0 <= i < before.len() && before[i].id == id;
                                    assert(scene.objects@[k].id == id);
                                }
                            }
                            if scene.contains(Some(id)) {
                                self.clicked = Some(id);
                            }
                            if select_only {
                                change = SelectionChange::SelectOnly(id);
                            } else {
                                change = SelectionChange::Toggle(id, !shift_select);
                            }
                        },
                        None => {},
                    }
                },
                None => {
                    if !shift {
                        scene.deselect_all_objects();
                        change = SelectionChange::DeselectAll;
                    }
                },
            }
        }
        match self.policy {
            ClickPolicy::PrimaryButton => self.forget_button(button),
            ClickPolicy::AnyButton => self.downs = Vec::new(),
        }
        change
    }
}

/// Each button is held at most once: a press replaces the earlier entry of
/// its button, and a release removes it.
pub proof fn law_one_entry_per_button(
    downs: Seq<ButtonDown>,
    policy: ClickPolicy,
    button: PointerButton,
    object: Option<ColorId>,
    shift: bool,
)
    requires
        one_entry_per_button(downs),
    ensures
        one_entry_per_button(
            without_button(downs, button).push(ButtonDown { button, start_object: object, shift }),
        ),
        one_entry_per_button(downs_after_release(downs, policy, button)),
        forall|i: int|
            0 <= i < downs_after_release(downs, policy, button).len() ==> (#[trigger] downs_after_release(
                downs,
                policy,
                button,
            )[i]).button != button,
{
    lemma_without_button(downs, button);
    let w = without_button(downs, button);
    let pushed = w.push(ButtonDown { button, start_object: object, shift });
    assert forall|i: int, j: int| 0 <= i < j < pushed.len() implies pushed[i].button
        != pushed[j].button by {
        if j == w.len() {
            assert(w[i].button != button);
        } else {
            assert(pushed[i] == w[i] && pushed[j] == w[j]);
        }
    }
}

/// A click only happens on the object the press started on: a release that
/// toggles an object needs an earlier press of a counting button over that
/// same object.
pub proof fn law_click_needs_press_on_same_object(
    downs: Seq<ButtonDown>,
    policy: ClickPolicy,
    button: PointerButton,
    object: Option<ColorId>,
    shift: bool,
)
    ensures
        release_change(downs, policy, button, object, shift) matches SelectionChange::Toggle(
            id,
            _,
        ) ==> object == Some(id) && exists|i: int|
            0 <= i < downs.len() && press_matches(#[trigger] downs[i], policy, id),
        release_change(downs, policy, button, object, shift) matches SelectionChange::SelectOnly(
            id,
        ) ==> object == Some(id) && exists|i: int|
            0 <= i < downs.len() && press_matches(#[trigger] downs[i], policy, id),
{
    if let SelectionChange::Toggle(id, _) = release_change(downs, policy, button, object, shift) {
        lemma_first_matching(downs, policy, id);
    }
    if let SelectionChange::SelectOnly(id) = release_change(downs, policy, button, object, shift) {
        lemma_first_matching(downs, policy, id);
    }
}

proof fn lemma_first_matching(downs: Seq<ButtonDown>, policy: ClickPolicy, object: ColorId)
    ensures
        first_matching(downs, policy, object) matches Some(d) ==> exists|i: int|
            0 <= i < downs.len() && downs[i] == d && press_matches(#[trigger] downs[i], policy, object),
    decreases downs.len(),
{
    if downs.len() > 0 && !press_matches(downs[0], policy, object) {
        lemma_first_matching(downs.drop_first(), policy, object);
        if let Some(d) = first_matching(downs, policy, object) {
            let i = choose|i: int|
                0 <= i < downs.drop_first().len() && downs.drop_first()[i] == d && press_matches(
                    #[trigger] downs.drop_first()[i],
                    policy,
                    object,
                );
            assert(downs[i + 1] == d);
        }
    }
}

/// A shift-click (shift held at press and release) is a non-exclusive
/// toggle: it adds an unselected object to the selection and removes a
/// selected one, leaving the others. A plain click is exclusive: under the
/// primary-button policy it selects only the clicked object, under the
/// any-button policy it is an exclusive toggle.
pub proof fn law_shift_click_adds(
    downs: Seq<ButtonDown>,
    policy: ClickPolicy,
    button: PointerButton,
    id: ColorId,
)
    requires
        first_matching(downs, policy, id) matches Some(d) && d.shift,
        policy == ClickPolicy::PrimaryButton ==> button == PointerButton::Primary,
    ensures
        release_change(downs, policy, button, Some(id), true) == SelectionChange::Toggle(id, false),
        policy == ClickPolicy::PrimaryButton ==> release_change(downs, policy, button, Some(id), false)
            == SelectionChange::SelectOnly(id),
        policy == ClickPolicy::AnyButton ==> release_change(downs, policy, button, Some(id), false)
            == SelectionChange::Toggle(id, true),
{
}

/// In the part view (primary-button policy) a plain click (shift up at
/// release) on an object that a primary press started on selects that
/// object and deselects everything else: afterwards an object is selected
/// exactly when it is the clicked one and selectable, whether or not it was
/// selected before.
pub proof fn law_plain_click_selects_only_target(
    downs: Seq<ButtonDown>,
    id: ColorId,
    o: SceneObject,
)
    requires
        first_matching(downs, ClickPolicy::PrimaryButton, id) is Some,
    ensures
        release_change(downs, ClickPolicy::PrimaryButton, PointerButton::Primary, Some(id), false)
            == SelectionChange::SelectOnly(id),
        after_select_only(o, Some(id)).selected <==> (o.id == id && o.selectable),
{
}

/// In the part view (primary-button policy) only the primary button acts
/// on the selection: releasing any other button (after rotating or panning
/// the view, say) changes nothing, over an object or over empty space. A
/// release of a counting button over empty space deselects everything
/// unless shift is held, and then changes nothing.
pub proof fn law_release_effects(
    downs: Seq<ButtonDown>,
    policy: ClickPolicy,
    button: PointerButton,
    object: Option<ColorId>,
    shift: bool,
)
    ensures
        policy == ClickPolicy::PrimaryButton && button != PointerButton::Primary ==> release_change(
            downs,
            policy,
            button,
            object,
            shift,
        ) == SelectionChange::Keep,
        (policy == ClickPolicy::AnyButton || button == PointerButton::Primary) && object is None
            ==> release_change(downs, policy, button, object, shift) == if shift {
            SelectionChange::Keep
        } else {
            SelectionChange::DeselectAll
        },
        release_change(downs, policy, button, object, shift) == SelectionChange::DeselectAll
            ==> object is None && !shift,
{
}

} // verus!
