//! Hover and selection state of the objects of a scene, addressed by the
//! colour identifiers the picking pass reports.
use vstd::prelude::*;
use crate::ids::ColorId;
use crate::text::str_eq;

verus! {

/// What the selection logic knows of a scene object: its identifier, its
/// name, and its interaction flags.
#[derive(Debug)]
pub struct SceneObject {
    pub id: ColorId,
    pub name: String,
    pub selectable: bool,
    pub selected: bool,
    pub hovered: bool,
    pub hoverable: bool,
    pub clickable: bool,
}

/// The identifier and name of a scene object, handed to whoever reacts to a
/// click.
#[derive(Debug)]
pub struct SceneObjectProps {
    pub id: ColorId,
    pub name: String,
}

impl SceneObjectProps {
    pub fn new(id: ColorId, name: String) -> (r: Self)
        ensures
            r.id == id,
            r.name@ == name@,
    {
        SceneObjectProps { id, name }
    }
}

impl SceneObject {
    /// A new object: neither selectable, hoverable nor clickable, and in no
    /// interaction state.
    pub fn new(id: ColorId, name: String) -> (r: Self)
        ensures
            r.id == id,
            r.name@ == name@,
            !r.selectable && !r.selected && !r.hovered && !r.hoverable && !r.clickable,
    {
        SceneObject {
            id,
            name,
            selectable: false,
            selected: false,
            hovered: false,
            hoverable: false,
            clickable: false,
        }
    }

    /// The object's identifier and a copy of its name.
    pub fn props(&self) -> (r: SceneObjectProps)
        ensures
            r.id == self.id,
            r.name@ == self.name@,
    {
        SceneObjectProps::new(self.id, self.name.clone())
    }

    /// The object's name.
    pub fn name(&self) -> (r: &str)
        ensures
            r@ == self.name@,
    {
        self.name.as_str()
    }
}

/// `id` is present and names the object with identifier `object`.
pub open spec fn names(id: Option<ColorId>, object: ColorId) -> bool {
    id matches Some(x) && x == object
}

/// The object after the pointer moved onto `id`: it is hovered exactly when
/// `id` names it and it is hoverable.
pub open spec fn after_hover(o: SceneObject, id: Option<ColorId>) -> SceneObject {
    SceneObject { hovered: names(id, o.id) && o.hoverable, ..o }
}

/// The object after a toggle on `id`: the selectable object that `id` names
/// flips its selection (so a toggle on a selected object deselects it);
/// every other object is deselected when the toggle is exclusive and kept
/// as it is otherwise.
pub open spec fn after_toggle(o: SceneObject, id: Option<ColorId>, exclusive: bool) -> SceneObject {
    if names(id, o.id) && o.selectable {
        SceneObject { selected: !o.selected, ..o }
    } else if exclusive {
        SceneObject { selected: false, ..o }
    } else {
        o
    }
}

/// The object after a click that selects only `id`: it is selected exactly
/// when `id` names it and it is selectable.
pub open spec fn after_select_only(o: SceneObject, id: Option<ColorId>) -> SceneObject {
    SceneObject { selected: names(id, o.id) && o.selectable, ..o }
}

/// The object after everything was deselected.
pub open spec fn after_deselect(o: SceneObject) -> SceneObject {
    SceneObject { selected: false, ..o }
}

/// The position of the first object with identifier `id`.
pub open spec fn first_with_id(objects: Seq<SceneObject>, id: ColorId) -> Option<int> {
    if exists|i: int| 0 <= i < objects.len() && objects[i].id == id {
        Some(
            choose|i: int|
                0 <= i < objects.len() && objects[i].id == id && forall|k: int|
                    0 <= k < i ==> objects[k].id != id,
        )
    } else {
        None
    }
}

/// The object after the gizmo set-up: every object but the one named
/// "Space" turns the camera, so it is clickable and hoverable; none is
/// selectable.
pub open spec fn after_camera_controls(o: SceneObject) -> SceneObject {
    let is_camera_control = o.name@ != "Space"@;
    SceneObject {
        clickable: is_camera_control,
        hoverable: is_camera_control,
        selectable: false,
        ..o
    }
}

/// The objects of a scene.
#[derive(Debug)]
pub struct SceneObjects {
    pub objects: Vec<SceneObject>,
}

impl SceneObjects {
    pub fn new(objects: Vec<SceneObject>) -> (r: Self)
        ensures
            r.objects@ == objects@,
    {
        SceneObjects { objects }
    }

    /// Marks as hovered the hoverable object(s) that `id` names, and every
    /// other object as not hovered.
    pub fn hover_object(&mut self, id: Option<ColorId>)
        ensures
            final(self).objects@.len() == old(self).objects@.len(),
            forall|i: int|
                0 <= i < old(self).objects@.len() ==> final(self).objects@[i] == after_hover(
                    old(self).objects@[i],
                    id,
                ),
    {
        let n = self.objects.len();
        let mut i: usize = 0;
        while i < n
            invariant
                n == old(self).objects@.len(),
                self.objects@.len() == n,
                i <= n,
                forall|k: int| 0 <= k < i ==> self.objects@[k] == after_hover(old(self).objects@[k], id),
                forall|k: int| i <= k < n ==> self.objects@[k] == old(self).objects@[k],
            decreases n - i,
        {
            let hit = match id {
                Some(x) => x == self.objects[i].id && self.objects[i].hoverable,
                None => false,
            };
            self.objects[i].hovered = hit;
            i = i + 1;
        }
    }

    /// Toggles the selection of the selectable object(s) `id` names; when
    /// `exclusive`, every other object is deselected.
    pub fn toggle_select_object(&mut self, id: Option<ColorId>, exclusive: bool)
        ensures
            final(self).objects@.len() == old(self).objects@.len(),
            forall|i: int|
                0 <= i < old(self).objects@.len() ==> final(self).objects@[i] == after_toggle(
                    old(self).objects@[i],
                    id,
                    exclusive,
                ),
    {
        let n = self.objects.len();
        let mut i: usize = 0;
        while i < n
            invariant
                n == old(self).objects@.len(),
                self.objects@.len() == n,
                i <= n,
                forall|k: int|
                    0 <= k < i ==> self.objects@[k] == after_toggle(
                        old(self).objects@[k],
                        id,
                        exclusive,
                    ),
                forall|k: int| i <= k < n ==> self.objects@[k] == old(self).objects@[k],
            decreases n - i,
        {
            let hit = match id {
                Some(x) => x == self.objects[i].id,
                None => false,
            };
            if hit && self.objects[i].selectable {
                let flipped = !self.objects[i].selected;
                self.objects[i].selected = flipped;
            } else if exclusive {
                self.objects[i].selected = false;
            }
            i = i + 1;
        }
    }

    /// Selects the selectable object(s) `id` names and deselects every other
    /// object.
    pub fn select_only(&mut self, id: Option<ColorId>)
        ensures
            final(self).objects@.len() == old(self).objects@.len(),
            forall|i: int|
                0 <= i < old(self).objects@.len() ==> final(self).objects@[i] == after_select_only(
                    old(self).objects@[i],
                    id,
                ),
    {
        let n = self.objects.len();
        let mut i: usize = 0;
        while i < n
            invariant
                n == old(self).objects@.len(),
                self.objects@.len() == n,
                i <= n,
                forall|k: int|
                    0 <= k < i ==> self.objects@[k] == after_select_only(old(self).objects@[k], id),
                forall|k: int| i <= k < n ==> self.objects@[k] == old(self).objects@[k],
            decreases n - i,
        {
            let hit = match id {
                Some(x) => x == self.objects[i].id && self.objects[i].selectable,
                None => false,
            };
            self.objects[i].selected = hit;
            i = i + 1;
        }
    }

    /// Deselects every object.
    pub fn deselect_all_objects(&mut self)
        ensures
            final(self).objects@.len() == old(self).objects@.len(),
            forall|i: int|
                0 <= i < old(self).objects@.len() ==> final(self).objects@[i] == after_deselect(
                    old(self).objects@[i],
                ),
    {
        let n = self.objects.len();
        let mut i: usize = 0;
        while i < n
            invariant
                n == old(self).objects@.len(),
                self.objects@.len() == n,
                i <= n,
                forall|k: int| 0 <= k < i ==> self.objects@[k] == after_deselect(old(self).objects@[k]),
                forall|k: int| i <= k < n ==> self.objects@[k] == old(self).objects@[k],
            decreases n - i,
        {
            self.objects[i].selected = false;
            i = i + 1;
        }
    }

    /// The position of the first object with identifier `id`.
    pub fn position_of(&self, id: ColorId) -> (r: Option<usize>)
        ensures
            r matches Some(i) ==> i < self.objects@.len() && self.objects@[i as int].id == id
                && first_with_id(self.objects@, id) == Some(i as int),
            r is None ==> first_with_id(self.objects@, id) is None,
    {
        let n = self.objects.len();
        let mut i: usize = 0;
        while i < n
            invariant
                n == self.objects@.len(),
                i <= n,
                forall|k: int| 0 <= k < i ==> self.objects@[k].id != id,
            decreases n - i,
        {
            if self.objects[i].id == id {
                assert(first_with_id(self.objects@, id) == Some(i as int)) by {
                    let c = choose|j: int|
                        0 <= j < self.objects@.len() && self.objects@[j].id == id && forall|k: int|
                            0 <= k < j ==> self.objects@[k].id != id;
                    assert(0 <= i < self.objects@.len() && self.objects@[i as int].id == id);
                    if c < i {
                    } else if c > i {
                        assert(self.objects@[i as int].id != id);
                    }
                }
                return Some(i);
            }
            i = i + 1;
        }
        None
    }

    /// The first object with identifier `id`.
    pub fn find_by_id(&self, id: ColorId) -> (r: Option<&SceneObject>)
        ensures
            r matches Some(o) ==> (first_with_id(self.objects@, id) matches Some(i) && *o
                == self.objects@[i]),
            r is None ==> first_with_id(self.objects@, id) is None,
    {
        match self.position_of(id) {
            Some(i) => Some(&self.objects[i]),
            None => None,
        }
    }

    /// The first object that `id` names; `None` when `id` is `None`.
    pub fn get_object(&self, id: Option<ColorId>) -> (r: Option<&SceneObject>)
        ensures
            id is None ==> r is None,
            id matches Some(x) ==> (r matches Some(o) ==> (first_with_id(self.objects@, x) matches Some(
                i,
            ) && *o == self.objects@[i])),
            id matches Some(x) ==> (r is None ==> first_with_id(self.objects@, x) is None),
    {
        match id {
            Some(x) => self.find_by_id(x),
            None => None,
        }
    }

    /// The first object that `id` names, for changing it.
    pub fn get_object_mut(&mut self, id: Option<ColorId>) -> (r: Option<&mut SceneObject>)
        ensures
            id is None ==> r is None && final(self).objects@ == old(self).objects@,
            id matches Some(x) ==> match first_with_id(old(self).objects@, x) {
                None => r is None && final(self).objects@ == old(self).objects@,
                Some(i) => r matches Some(o) && *o == old(self).objects@[i]
                    && final(self).objects@ == old(self).objects@.update(i, *final(o)),
            },
    {
        match id {
            Some(x) => match self.position_of(x) {
                Some(i) => Some(&mut self.objects[i]),
                None => None,
            },
            None => None,
        }
    }

    /// Whether any object has identifier `id`.
    pub fn contains(&self, id: Option<ColorId>) -> (r: bool)
        ensures
            r == (id matches Some(x) && exists|i: int|
                0 <= i < self.objects@.len() && self.objects@[i].id == x),
    {
        match id {
            Some(x) => {
                let p = self.position_of(x);
                proof {
                    if p is None && exists|i: int|
                        0 <= i < self.objects@.len() && self.objects@[i].id == x {
                        assert(first_with_id(self.objects@, x) is Some);
                    }
                }
                p.is_some()
            },
            None => false,
        }
    }

    /// Sets up the objects of the camera gizmo: all but "Space" are camera
    /// controls (clickable and hoverable), and none is selectable.
    pub fn set_camera_controls(&mut self)
        ensures
            final(self).objects@.len() == old(self).objects@.len(),
            forall|i: int|
                0 <= i < old(self).objects@.len() ==> final(self).objects@[i]
                    == after_camera_controls(old(self).objects@[i]),
    {
        let n = self.objects.len();
        let mut i: usize = 0;
        while i < n
            invariant
                n == old(self).objects@.len(),
                self.objects@.len() == n,
                i <= n,
                forall|k: int|
                    0 <= k < i ==> self.objects@[k] == after_camera_controls(old(self).objects@[k]),
                forall|k: int| i <= k < n ==> self.objects@[k] == old(self).objects@[k],
            decreases n - i,
        {
            let is_camera_control = !str_eq(self.objects[i].name.as_str(), "Space");
            self.objects[i].clickable = is_camera_control;
            self.objects[i].hoverable = is_camera_control;
            self.objects[i].selectable = false;
            i = i + 1;
        }
    }
}

/// The emissive highlight an object is drawn with.
#[derive(Clone, Copy, Debug, PartialEq, Eq, Structural)]
pub enum Highlight {
    /// Drawn as it is.
    Plain,
    /// Drawn in the hover colour.
    Hover,
    /// Drawn in the selection colour.
    Select,
}

/// The highlight of an object that is `hovered` and/or `selected`: selection
/// wins over hovering.
pub open spec fn spec_highlight(hovered: bool, selected: bool) -> Highlight {
    if selected {
        Highlight::Select
    } else if hovered {
        Highlight::Hover
    } else {
        Highlight::Plain
    }
}

/// The highlight an object is drawn with (the palette's emissive override).
pub fn highlight(hovered: bool, selected: bool) -> (r: Highlight)
    ensures
        r == spec_highlight(hovered, selected),
{
    let mut h = Highlight::Plain;
    if hovered {
        h = Highlight::Hover;
    }
    if selected {
        h = Highlight::Select;
    }
    h
}

/// A non-exclusive click on the same object twice leaves its selection as
/// it was.
pub proof fn law_toggle_twice_restores(o: SceneObject, id: Option<ColorId>)
    ensures
        after_toggle(after_toggle(o, id, false), id, false) == o,
{
}

/// After an exclusive toggle, only the toggled object can be selected, and
/// only if it is selectable; a toggled selectable object flips its
/// selection, so a selected one ends deselected.
pub proof fn law_exclusive_click(o: SceneObject, id: Option<ColorId>)
    ensures
        after_toggle(o, id, true).selected ==> names(id, o.id) && o.selectable,
        names(id, o.id) && o.selectable ==> after_toggle(o, id, true).selected == !o.selected,
{
}

/// Selecting only one object leaves exactly that object selected, if it is
/// selectable, whatever was selected before; doing it again changes
/// nothing.
pub proof fn law_select_only(o: SceneObject, id: Option<ColorId>)
    ensures
        after_select_only(o, id).selected <==> (names(id, o.id) && o.selectable),
        after_select_only(after_select_only(o, id), id) == after_select_only(o, id),
        after_select_only(o, id).id == o.id && after_select_only(o, id).name == o.name,
{
}

/// A click with shift held (not exclusive) leaves every object it does not
/// name as it was.
pub proof fn law_shift_click_keeps_others(o: SceneObject, id: Option<ColorId>)
    requires
        !(names(id, o.id) && o.selectable),
    ensures
        after_toggle(o, id, false) == o,
{
}

/// After hovering, an object is hovered exactly when the pointer is over it
/// and it is hoverable; hovering the same place again changes nothing.
pub proof fn law_hover(o: SceneObject, id: Option<ColorId>)
    ensures
        after_hover(o, id).hovered <==> (names(id, o.id) && o.hoverable),
        after_hover(after_hover(o, id), id) == after_hover(o, id),
{
}

/// Nothing is selected after deselecting everything, and none of the
/// interactions changes an object's identifier or name.
pub proof fn law_interactions_keep_identity(o: SceneObject, id: Option<ColorId>, exclusive: bool)
    ensures
        !after_deselect(o).selected,
        after_hover(o, id).id == o.id && after_hover(o, id).name == o.name,
        after_toggle(o, id, exclusive).id == o.id && after_toggle(o, id, exclusive).name == o.name,
        after_deselect(o).id == o.id && after_deselect(o).name == o.name,
{
}

/// A selected object is drawn in the selection colour, whether hovered or
/// not; an object that is hovered but not selected in the hover colour.
pub proof fn law_selection_wins_over_hover(hovered: bool)
    ensures
        spec_highlight(hovered, true) == Highlight::Select,
        spec_highlight(true, false) == Highlight::Hover,
        spec_highlight(false, false) == Highlight::Plain,
{
}

} // verus!
