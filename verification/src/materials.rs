//! The material set of a geometry: materials are kept once each, split into
//! an opaque and a translucent list, and addressed by `MaterialId`.
use vstd::prelude::*;

verus! {

/// Which of the two material lists a material lives in.
#[derive(Clone, Copy, Debug, PartialEq, Eq, Structural)]
pub enum MaterialKind {
    Opaque,
    Translucent,
}

/// A material's list and its position in that list.
#[derive(Clone, Copy, Debug, PartialEq, Eq, Structural)]
pub struct MaterialId(pub MaterialKind, pub u32);

impl MaterialId {
    /// Position of the material in its list.
    pub fn index(&self) -> (r: u32)
        ensures
            r == self.1,
    {
        self.1
    }

    /// Whether the material lives in the opaque list.
    pub fn is_opaque(&self) -> (r: bool)
        ensures
            r == (self.0 == MaterialKind::Opaque),
    {
        self.0 == MaterialKind::Opaque
    }

    /// Whether the material lives in the translucent list.
    pub fn is_translucent(&self) -> (r: bool)
        ensures
            r == (self.0 == MaterialKind::Translucent),
    {
        self.0 == MaterialKind::Translucent
    }
}

/// What identifies a material: its colour channels (red, green, blue, alpha)
/// and its roughness, each coded as the bit pattern of a single-precision
/// floating-point number (both zeros share the code 0). Two materials are the
/// same material exactly when their keys are equal and no channel is
/// not-a-number, which equals nothing, not even itself.
pub type MaterialKey = (u32, u32, u32, u32, u32);

/// The code is the bit pattern of a not-a-number value (all exponent bits
/// set, some mantissa bit set).
pub open spec fn is_nan_code(c: u32) -> bool {
    (c & 0x7f80_0000u32) == 0x7f80_0000u32 && (c & 0x007f_ffffu32) != 0u32
}

/// A material with this key can equal a stored one: none of its channels is
/// not-a-number.
pub open spec fn matchable(key: MaterialKey) -> bool {
    !is_nan_code(key.0) && !is_nan_code(key.1) && !is_nan_code(key.2) && !is_nan_code(key.3)
        && !is_nan_code(key.4)
}

/// Whether a code is not a not-a-number pattern.
fn code_matchable(c: u32) -> (r: bool)
    ensures
        r == !is_nan_code(c),
{
    !((c & 0x7f80_0000u32) == 0x7f80_0000u32 && (c & 0x007f_ffffu32) != 0u32)
}

/// Whether a material with this key can equal a stored one.
fn key_matchable(key: &MaterialKey) -> (r: bool)
    ensures
        r == matchable(*key),
{
    code_matchable(key.0) && code_matchable(key.1) && code_matchable(key.2) && code_matchable(
        key.3,
    ) && code_matchable(key.4)
}

/// The material equal to `key` is stored in `list`.
pub open spec fn stored(list: Seq<MaterialKey>, key: MaterialKey) -> bool {
    matchable(key) && list.contains(key)
}

/// The abstract content of a material set: the two lists, in insertion order.
pub ghost struct MaterialSetView {
    pub opaque: Seq<MaterialKey>,
    pub translucent: Seq<MaterialKey>,
}

impl MaterialSetView {
    /// The list that holds materials of `kind`.
    pub open spec fn list(self, kind: MaterialKind) -> Seq<MaterialKey> {
        match kind {
            MaterialKind::Opaque => self.opaque,
            MaterialKind::Translucent => self.translucent,
        }
    }

    /// The same view with the list of `kind` replaced by `list`.
    pub open spec fn with_list(self, kind: MaterialKind, list: Seq<MaterialKey>) -> Self {
        match kind {
            MaterialKind::Opaque => MaterialSetView { opaque: list, translucent: self.translucent },
            MaterialKind::Translucent => MaterialSetView { opaque: self.opaque, translucent: list },
        }
    }

    /// Neither list holds a material twice, and every position fits a `u32`.
    pub open spec fn wf(self) -> bool {
        &&& no_duplicates(self.opaque)
        &&& no_duplicates(self.translucent)
        &&& self.opaque.len() <= u32::MAX as nat + 1
        &&& self.translucent.len() <= u32::MAX as nat + 1
    }

    /// The effect of inserting `key` as a material of `kind`: the set after
    /// the insertion and the identifier handed back. An equal material
    /// already stored is reused; otherwise the material is appended.
    pub open spec fn inserted(self, kind: MaterialKind, key: MaterialKey) -> (Self, MaterialId) {
        let list = self.list(kind);
        if stored(list, key) {
            (self, MaterialId(kind, first_index_of(list, key) as u32))
        } else {
            (self.with_list(kind, list.push(key)), MaterialId(kind, list.len() as u32))
        }
    }
}

/// No material occurs twice in `s`: two equal keys are not-a-number
/// materials, which equal nothing.
pub open spec fn no_duplicates(s: Seq<MaterialKey>) -> bool {
    forall|i: int, j: int| 0 <= i < j < s.len() && s[i] == s[j] ==> !matchable(s[i])
}

/// The position of the first occurrence of `key` in `s` (or `s.len()` when
/// it does not occur).
pub open spec fn first_index_of(s: Seq<MaterialKey>, key: MaterialKey) -> int
    decreases s.len(),
{
    if s.len() == 0 {
        0
    } else if s[0] == key {
        0
    } else {
        1 + first_index_of(s.drop_first(), key)
    }
}

proof fn lemma_first_index_of(s: Seq<MaterialKey>, key: MaterialKey)
    ensures
        0 <= first_index_of(s, key) <= s.len(),
        s.contains(key) ==> first_index_of(s, key) < s.len() && s[first_index_of(s, key)] == key,
        forall|i: int| 0 <= i < first_index_of(s, key) ==> s[i] != key,
    decreases s.len(),
{
    if s.len() > 0 && s[0] != key {
        lemma_first_index_of(s.drop_first(), key);
        if s.contains(key) {
            let k = choose|k: int| 0 <= k < s.len() && s[k] == key;
            assert(s.drop_first()[k - 1] == key);
        }
        assert forall|i: int| 0 <= i < first_index_of(s, key) implies s[i] != key by {
            if i > 0 {
                assert(s[i] == s.drop_first()[i - 1]);
            }
        }
    }
}

/// Inserting a material keeps the set free of duplicates, and the
/// identifier handed back names the inserted material.
pub proof fn law_insert_names_material(s: MaterialSetView, kind: MaterialKind, key: MaterialKey)
    requires
        s.wf(),
        s.list(kind).len() < u32::MAX as nat + 1 || stored(s.list(kind), key),
    ensures
        s.inserted(kind, key).0.wf(),
        s.inserted(kind, key).1.0 == kind,
        (s.inserted(kind, key).1.1 as int) < s.inserted(kind, key).0.list(kind).len(),
        s.inserted(kind, key).0.list(kind)[s.inserted(kind, key).1.1 as int] == key,
{
    lemma_first_index_of(s.list(kind), key);
    let (t, id) = s.inserted(kind, key);
    if !stored(s.list(kind), key) {
        assert(t.list(kind) == s.list(kind).push(key));
        assert forall|a: int, b: int|
            0 <= a < b < t.list(kind).len() && t.list(kind)[a] == t.list(kind)[b] implies !matchable(
            t.list(kind)[a],
        ) by {
            if b == s.list(kind).len() {
                if matchable(key) {
                    assert(s.list(kind)[a] == key);
                    assert(s.list(kind).contains(key));
                }
            }
        }
    }
}

/// A material not stored yet is appended: it gets the next position of its
/// list, every stored material keeps its place, and the other list is left
/// as it was.
pub proof fn law_insert_new_material_appends(s: MaterialSetView, kind: MaterialKind, key: MaterialKey)
    requires
        !stored(s.list(kind), key),
    ensures
        s.inserted(kind, key).0.list(kind) == s.list(kind).push(key),
        s.inserted(kind, key).1 == MaterialId(kind, s.list(kind).len() as u32),
        forall|other: MaterialKind|
            other != kind ==> s.inserted(kind, key).0.list(other) == s.list(other),
{
}

/// A material with a not-a-number channel equals no stored material, so
/// each insertion of it appends a new entry with a new identifier.
pub proof fn law_nan_material_always_new(s: MaterialSetView, kind: MaterialKind, key: MaterialKey)
    requires
        !matchable(key),
    ensures
        s.inserted(kind, key).0.list(kind) == s.list(kind).push(key),
        s.inserted(kind, key).1 == MaterialId(kind, s.list(kind).len() as u32),
{
}

/// Inserting the same material a second time changes nothing and hands back
/// the same identifier as the first insertion.
pub proof fn law_insert_twice_is_insert_once(
    s: MaterialSetView,
    kind: MaterialKind,
    key: MaterialKey,
)
    requires
        matchable(key),
    ensures
        s.inserted(kind, key).0.inserted(kind, key) == s.inserted(kind, key),
{
    lemma_first_index_of(s.list(kind), key);
    let (t, id) = s.inserted(kind, key);
    if !s.list(kind).contains(key) {
        let l = s.list(kind).push(key);
        assert(t.list(kind) == l);
        assert(l[s.list(kind).len() as int] == key);
        assert(l.contains(key));
        lemma_first_index_of(l, key);
        assert(first_index_of(l, key) == s.list(kind).len()) by {
            if first_index_of(l, key) < s.list(kind).len() {
                assert(s.list(kind)[first_index_of(l, key)] == key);
            }
        }
    }
}

/// Inserting a material never moves or drops a stored one, and leaves the
/// other list as it was: every identifier handed out earlier still names the
/// same material.
pub proof fn law_insert_keeps_stored(s: MaterialSetView, kind: MaterialKind, key: MaterialKey)
    requires
        s.wf(),
    ensures
        s.list(kind).len() <= s.inserted(kind, key).0.list(kind).len(),
        forall|i: int|
            0 <= i < s.list(kind).len() ==> s.inserted(kind, key).0.list(kind)[i] == s.list(
                kind,
            )[i],
        forall|other: MaterialKind|
            other != kind ==> s.inserted(kind, key).0.list(other) == s.list(other),
{
}

/// Two different materials of the same kind get different identifiers.
pub proof fn law_distinct_materials_distinct_ids(
    s: MaterialSetView,
    kind: MaterialKind,
    a: MaterialKey,
    b: MaterialKey,
)
    requires
        s.wf(),
        s.list(kind).len() + 1 < u32::MAX as nat + 1,
        a != b,
    ensures
        s.inserted(kind, a).1 != s.inserted(kind, a).0.inserted(kind, b).1,
{
    law_insert_names_material(s, kind, a);
    let t = s.inserted(kind, a).0;
    law_insert_keeps_stored(s, kind, a);
    assert(t.list(kind).len() <= s.list(kind).len() + 1);
    law_insert_names_material(t, kind, b);
    law_insert_keeps_stored(t, kind, b);
}

/// A set with no materials.
pub open spec fn empty_set_view() -> MaterialSetView {
    MaterialSetView { opaque: Seq::empty(), translucent: Seq::empty() }
}

/// The set after inserting the materials of `ops` into `s`, in order.
pub open spec fn after_inserts(s: MaterialSetView, ops: Seq<(MaterialKind, MaterialKey)>) -> MaterialSetView
    decreases ops.len(),
{
    if ops.len() == 0 {
        s
    } else {
        after_inserts(s, ops.drop_last()).inserted(ops.last().0, ops.last().1).0
    }
}

/// The identifier that the `i`-th insertion of `ops` handed back.
pub open spec fn id_of_insert(s: MaterialSetView, ops: Seq<(MaterialKind, MaterialKey)>, i: int) -> MaterialId {
    after_inserts(s, ops.take(i)).inserted(ops[i].0, ops[i].1).1
}

/// The keys inserted as materials of `kind`, in order.
pub open spec fn keys_of_kind(ops: Seq<(MaterialKind, MaterialKey)>, kind: MaterialKind) -> Seq<MaterialKey>
    decreases ops.len(),
{
    if ops.len() == 0 {
        Seq::empty()
    } else if ops.last().0 == kind {
        keys_of_kind(ops.drop_last(), kind).push(ops.last().1)
    } else {
        keys_of_kind(ops.drop_last(), kind)
    }
}

/// The materials of `keys` once each, in the order of their first insertion
/// (a not-a-number material at each of its insertions).
pub open spec fn stored_in_order(keys: Seq<MaterialKey>) -> Seq<MaterialKey>
    decreases keys.len(),
{
    if keys.len() == 0 {
        Seq::empty()
    } else {
        let d = stored_in_order(keys.drop_last());
        if stored(d, keys.last()) {
            d
        } else {
            d.push(keys.last())
        }
    }
}

proof fn lemma_after_inserts_len(ops: Seq<(MaterialKind, MaterialKey)>, kind: MaterialKind)
    ensures
        after_inserts(empty_set_view(), ops).list(kind).len() <= ops.len(),
    decreases ops.len(),
{
    if ops.len() > 0 {
        lemma_after_inserts_len(ops.drop_last(), kind);
    }
}

/// What is uploaded after a history of insertions into an empty set: each
/// list holds its materials once each, in the order of their first
/// insertion, and every identifier an insertion handed back still names, in
/// the final list, the material that was inserted.
pub proof fn law_upload_order(ops: Seq<(MaterialKind, MaterialKey)>, kind: MaterialKind)
    requires
        ops.len() <= u32::MAX,
    ensures
        after_inserts(empty_set_view(), ops).wf(),
        after_inserts(empty_set_view(), ops).list(kind) == stored_in_order(keys_of_kind(ops, kind)),
        forall|i: int|
            0 <= i < ops.len() ==> {
                let id = #[trigger] id_of_insert(empty_set_view(), ops, i);
                &&& id.0 == ops[i].0
                &&& (id.1 as int) < after_inserts(empty_set_view(), ops).list(id.0).len()
                &&& after_inserts(empty_set_view(), ops).list(id.0)[id.1 as int] == ops[i].1
            },
    decreases ops.len(),
{
    if ops.len() > 0 {
        let pre = ops.drop_last();
        let (k, key) = ops.last();
        law_upload_order(pre, kind);
        law_upload_order(pre, k);
        let a = after_inserts(empty_set_view(), pre);
        lemma_after_inserts_len(pre, k);
        law_insert_names_material(a, k, key);
        law_insert_keeps_stored(a, k, key);
        assert(after_inserts(empty_set_view(), ops) == a.inserted(k, key).0);
        if k == kind {
            let kk = keys_of_kind(pre, kind);
            assert(keys_of_kind(ops, kind) == kk.push(key));
            assert(kk.push(key).drop_last() =~= kk);
            assert(stored_in_order(kk.push(key)) == if stored(stored_in_order(kk), key) {
                stored_in_order(kk)
            } else {
                stored_in_order(kk).push(key)
            });
        } else {
            assert(keys_of_kind(ops, kind) == keys_of_kind(pre, kind));
            assert(a.inserted(k, key).0.list(kind) == a.list(kind));
        }
        assert forall|i: int| 0 <= i < ops.len() implies {
            let id = #[trigger] id_of_insert(empty_set_view(), ops, i);
            &&& id.0 == ops[i].0
            &&& (id.1 as int) < after_inserts(empty_set_view(), ops).list(id.0).len()
            &&& after_inserts(empty_set_view(), ops).list(id.0)[id.1 as int] == ops[i].1
        } by {
            if i < pre.len() {
                assert(ops.take(i) =~= pre.take(i));
                assert(ops[i] == pre[i]);
                assert(id_of_insert(empty_set_view(), ops, i) == id_of_insert(empty_set_view(), pre, i));
            } else {
                assert(ops.take(i) =~= pre);
            }
        }
    }
}

/// The materials of a geometry, each stored once.
#[derive(Debug)]
pub struct MaterialSet {
    opaque: Vec<MaterialKey>,
    translucent: Vec<MaterialKey>,
}

impl View for MaterialSet {
    type V = MaterialSetView;

    closed spec fn view(&self) -> MaterialSetView {
        MaterialSetView { opaque: self.opaque@, translucent: self.translucent@ }
    }
}

impl MaterialSet {
    /// An empty set.
    pub fn new() -> (r: Self)
        ensures
            r@.opaque == Seq::<MaterialKey>::empty(),
            r@.translucent == Seq::<MaterialKey>::empty(),
            r@.wf(),
    {
        MaterialSet { opaque: Vec::new(), translucent: Vec::new() }
    }

    /// Inserts a material unless an equal one is already stored, and returns
    /// the identifier under which it is stored. A material with a
    /// not-a-number channel equals nothing and is always appended.
    pub fn insert(&mut self, kind: MaterialKind, key: MaterialKey) -> (id: MaterialId)
        requires
            old(self)@.wf(),
            old(self)@.list(kind).len() < u32::MAX as nat + 1 || stored(old(self)@.list(kind), key),
        ensures
            (final(self)@, id) == old(self)@.inserted(kind, key),
            final(self)@.wf(),
            id.0 == kind,
            (id.1 as int) < final(self)@.list(kind).len(),
            final(self)@.list(kind)[id.1 as int] == key,
    {
        let ghost before = self@;
        proof {
            lemma_first_index_of(before.list(kind), key);
            law_insert_names_material(before, kind, key);
        }
        let list = match kind {
            MaterialKind::Opaque => &mut self.opaque,
            MaterialKind::Translucent => &mut self.translucent,
        };
        let found = if key_matchable(&key) {
            position_of(list, &key)
        } else {
            None
        };
        match found {
            Some(i) => {
                assert(before.list(kind).contains(key)) by {
                    assert(before.list(kind)[i as int] == key);
                }
                MaterialId(kind, i as u32)
            },
            None => {
                let n = list.len();
                list.push(key);
                proof {
                    assert(self@ =~= before.with_list(kind, before.list(kind).push(key)));
                }
                MaterialId(kind, n as u32)
            },
        }
    }

    /// How many materials one list holds.
    pub fn count(&self, kind: MaterialKind) -> (r: usize)
        ensures
            r == self@.list(kind).len(),
    {
        match kind {
            MaterialKind::Opaque => self.opaque.len(),
            MaterialKind::Translucent => self.translucent.len(),
        }
    }

    /// The keys of one list for uploading, or `None` when that list is empty.
    pub fn keys_for_upload(&self, kind: MaterialKind) -> (r: Option<Vec<MaterialKey>>)
        ensures
            self@.list(kind).len() == 0 ==> r is None,
            self@.list(kind).len() > 0 ==> (r matches Some(v) && v@ == self@.list(kind)),
    {
        let list = match kind {
            MaterialKind::Opaque => &self.opaque,
            MaterialKind::Translucent => &self.translucent,
        };
        if list.len() == 0 {
            None
        } else {
            Some(copy_keys(list))
        }
    }
}

/// A fresh vector with the same keys.
fn copy_keys(list: &Vec<MaterialKey>) -> (r: Vec<MaterialKey>)
    ensures
        r@ == list@,
{
    let mut out: Vec<MaterialKey> = Vec::new();
    let mut i: usize = 0;
    while i < list.len()
        invariant
            i <= list@.len(),
            out@ == list@.take(i as int),
        decreases list@.len() - i,
    {
        out.push(list[i]);
        i = i + 1;
        assert(out@ =~= list@.take(i as int));
    }
    assert(list@.take(i as int) =~= list@);
    out
}

/// The first position at which `key` occurs in `list`.
fn position_of(list: &Vec<MaterialKey>, key: &MaterialKey) -> (r: Option<usize>)
    ensures
        r matches Some(i) ==> i < list@.len() && list@[i as int] == *key && i == first_index_of(
            list@,
            *key,
        ),
        r is None ==> !list@.contains(*key),
{
    proof {
        lemma_first_index_of(list@, *key);
    }
    let mut i: usize = 0;
    while i < list.len()
        invariant
            i <= list@.len(),
            forall|k: int| 0 <= k < i ==> list@[k] != *key,
        decreases list@.len() - i,
    {
        let item = list[i];
        if item.0 == key.0 && item.1 == key.1 && item.2 == key.2 && item.3 == key.3 && item.4
            == key.4 {
            assert(item == *key);
            proof {
                lemma_first_index_of(list@, *key);
            }
            assert(first_index_of(list@, *key) == i as int) by {
                if first_index_of(list@, *key) < i as int {
                    assert(list@[first_index_of(list@, *key)] != *key);
                }
            }
            return Some(i);
        }
        i = i + 1;
    }
    None
}

} // verus!
