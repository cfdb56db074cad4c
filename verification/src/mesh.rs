//! The mesh scene data model: nodes that are geometry, groups, or both,
//! joined by edges that carry an optional translation, plus the
//! geometry-free descriptor form used to persist a node's topology.

use vstd::prelude::*;

use crate::kv::{kv_get, kv_map, kv_set};
use crate::transform::{identity_spec, lemma_compose_commutative, vadd, PolyVector};

verus! {

/// What a mesh node is: a pure container, a geometry leaf, or a node
/// that carries both geometry and children.
#[derive(Debug, Clone, Copy, PartialEq, Eq, Structural)]
pub enum MeshType {
    Group,
    Geometry,
    GeoGroup,
}

/// An opaque geometry payload. The model never looks inside it; the one
/// operation it supports is returning a copy repositioned by a
/// translation, tracked here in `offset`.
#[derive(Debug, Clone, Copy, PartialEq, Eq, Structural)]
pub struct MeshDef {
    /// Identifies the payload itself; repositioning never changes it.
    pub tag: u64,
    /// Where the payload sits, relative to the frame it is expressed in.
    pub offset: PolyVector,
}

/// The payload `d` repositioned by the translation `t`.
pub open spec fn transformed_spec(d: MeshDef, t: PolyVector) -> MeshDef {
    MeshDef { tag: d.tag, offset: vadd(d.offset, t) }
}

impl View for MeshDef {
    type V = MeshDef;

    open spec fn view(&self) -> MeshDef {
        *self
    }
}

impl MeshDef {
    /// A copy of this payload repositioned by the translation `t`.
    pub fn transformed(&self, t: &PolyVector) -> (r: MeshDef)
        ensures
            r == transformed_spec(*self, *t),
    {
        MeshDef { tag: self.tag, offset: self.offset.compose(t) }
    }

    /// A copy of this payload repositioned by the translation an edge
    /// carries (zero if the edge carries none).
    pub fn transformed_by(&self, ptr: &TransPolyMeshPtr) -> (r: MeshDef)
        ensures
            r == transformed_spec(*self, edge_or_zero(ptr@)),
    {
        let t = ptr.get_translation();
        self.transformed(&t)
    }
}

/// Arbitrary string-to-string metadata attached to a mesh node.
#[derive(Debug)]
pub struct MetaMap {
    pub entries: Vec<(String, String)>,
}

impl View for MetaMap {
    type V = Map<Seq<char>, Seq<char>>;

    open spec fn view(&self) -> Map<Seq<char>, Seq<char>> {
        kv_map(self.entries@)
    }
}

impl MetaMap {
    /// An empty metadata map.
    pub fn new() -> (r: MetaMap)
        ensures
            r@ == Map::<Seq<char>, Seq<char>>::empty(),
    {
        MetaMap { entries: Vec::new() }
    }

    /// Bind `key` to `value`, shadowing any earlier binding.
    pub fn insert(&mut self, key: String, value: String)
        ensures
            final(self)@ == old(self)@.insert(key@, value@),
    {
        kv_set(&mut self.entries, key, value);
    }

    /// Look `key` up; the result is exactly the map entry, when there is
    /// one.
    pub fn get<'a>(&'a self, key: &str) -> (r: Option<&'a String>)
        ensures
            match r {
                Some(v) => self@.contains_key(key@) && v@ == self@[key@],
                None => !self@.contains_key(key@),
            },
    {
        kv_get(&self.entries, key)
    }
}

impl Clone for MetaMap {
    /// A clone carries exactly the entries of the original.
    fn clone(&self) -> (r: Self)
        ensures
            r@ == self@,
            r.entries@ == self.entries@,
    {
        let mut entries: Vec<(String, String)> = Vec::new();
        let mut i: usize = 0;
        while i < self.entries.len()
            invariant
                i <= self.entries.len(),
                entries@ =~= self.entries@.take(i as int),
            decreases self.entries.len() - i,
        {
            entries.push((self.entries[i].0.clone(), self.entries[i].1.clone()));
            i = i + 1;
        }
        proof {
            assert(entries@ =~= self.entries@);
        }
        MetaMap { entries }
    }
}

/// An edge of the tree: an exclusively owned child node together with
/// the path that locates it and an optional edge-local translation.
/// `None` is read as the zero translation, never as "unknown".
#[derive(Debug)]
pub struct TransPolyMeshPtr {
    /// File path to the referenced mesh.
    pub path: String,
    /// The referenced mesh, owned by this edge alone.
    pub mesh: Box<PolyMesh>,
    /// Optional translation of the child relative to its parent.
    pub translation: Option<PolyVector>,
}

/// A mesh node: its type tag, optional geometry payload, metadata, and
/// the ordered edges to its children.
#[derive(Debug)]
pub struct PolyMesh {
    /// The type of this mesh.
    pub mesh_type: MeshType,
    /// Possible geometry for this mesh.
    pub geometry: Option<MeshDef>,
    /// Arbitrary metadata.
    pub metadata: MetaMap,
    /// All children of this mesh.
    pub children: Vec<TransPolyMeshPtr>,
}

/// The mathematical form of a mesh node.
pub ghost struct MeshView {
    pub kind: MeshType,
    pub geometry: Option<MeshDef>,
    pub metadata: Map<Seq<char>, Seq<char>>,
    pub children: Seq<EdgeView>,
}

/// The mathematical form of a child edge.
pub ghost struct EdgeView {
    pub path: Seq<char>,
    pub mesh: MeshView,
    pub translation: Option<PolyVector>,
}

/// The view of a mesh node.
pub open spec fn mesh_view(m: PolyMesh) -> MeshView
    decreases m,
{
    MeshView {
        kind: m.mesh_type,
        geometry: m.geometry,
        metadata: kv_map(m.metadata.entries@),
        children: edges_view(m.children@),
    }
}

/// The views of a sequence of child edges, in order.
pub open spec fn edges_view(s: Seq<TransPolyMeshPtr>) -> Seq<EdgeView>
    decreases s,
{
    if s.len() == 0 {
        Seq::empty()
    } else {
        seq![edge_view(s[0])] + edges_view(s.drop_first())
    }
}

/// The view of a child edge.
pub open spec fn edge_view(e: TransPolyMeshPtr) -> EdgeView
    decreases e,
{
    EdgeView { path: e.path@, mesh: mesh_view(*e.mesh), translation: e.translation }
}

impl View for PolyMesh {
    type V = MeshView;

    open spec fn view(&self) -> MeshView {
        mesh_view(*self)
    }
}

impl View for TransPolyMeshPtr {
    type V = EdgeView;

    open spec fn view(&self) -> EdgeView {
        edge_view(*self)
    }
}

/// `edges_view` maps the sequence elementwise.
pub proof fn lemma_edges_view_index(s: Seq<TransPolyMeshPtr>, i: int)
    requires
        0 <= i < s.len(),
    ensures
        edges_view(s).len() == s.len(),
        edges_view(s)[i] == edge_view(s[i]),
    decreases s.len(),
{
    lemma_edges_view_len(s);
    if i > 0 {
        lemma_edges_view_index(s.drop_first(), i - 1);
    }
}

/// `edges_view` preserves length.
pub proof fn lemma_edges_view_len(s: Seq<TransPolyMeshPtr>)
    ensures
        edges_view(s).len() == s.len(),
    decreases s.len(),
{
    if s.len() > 0 {
        lemma_edges_view_len(s.drop_first());
    }
}

/// Appending an edge appends its view.
pub proof fn lemma_edges_view_push(s: Seq<TransPolyMeshPtr>, e: TransPolyMeshPtr)
    ensures
        edges_view(s.push(e)) == edges_view(s).push(edge_view(e)),
    decreases s.len(),
{
    if s.len() == 0 {
        assert(s.push(e)[0] == e);
        assert(s.push(e).drop_first() =~= Seq::<TransPolyMeshPtr>::empty());
        assert(edges_view(s.push(e).drop_first()) =~= Seq::<EdgeView>::empty());
        assert(edges_view(s.push(e)) == seq![edge_view(e)] + Seq::<EdgeView>::empty());
        assert(edges_view(s) =~= Seq::<EdgeView>::empty());
        assert(edges_view(s.push(e)) =~= edges_view(s).push(edge_view(e)));
    } else {
        lemma_edges_view_push(s.drop_first(), e);
        assert(s.push(e).drop_first() =~= s.drop_first().push(e));
        assert(s.push(e)[0] == s[0]);
        assert(edges_view(s.push(e)) == seq![edge_view(s[0])] + edges_view(s.drop_first().push(e)));
        assert(edges_view(s.push(e)) == seq![edge_view(s[0])] + edges_view(s.drop_first()).push(
            edge_view(e),
        ));
        assert(edges_view(s.push(e)) =~= edges_view(s).push(edge_view(e)));
    }
}

/// An optional translation read as a translation: `None` is zero.
pub open spec fn opt_or_zero(t: Option<PolyVector>) -> PolyVector {
    match t {
        Some(v) => v,
        None => identity_spec(),
    }
}

/// The translation an edge contributes: its own, or zero if unset.
pub open spec fn edge_or_zero(e: EdgeView) -> PolyVector {
    opt_or_zero(e.translation)
}

/// The edge produced by composing `e` with an ancestor edge: the path
/// and mesh of `e`, and the sum of the two translations.
pub open spec fn composed_edge_view(e: EdgeView, anc: EdgeView) -> EdgeView {
    EdgeView { path: e.path, mesh: e.mesh, translation: Some(vadd(edge_or_zero(e), edge_or_zero(anc))) }
}

/// A deep copy of a mesh node, equal to the original in view.
pub fn clone_mesh(m: &PolyMesh) -> (r: PolyMesh)
    ensures
        r@ == m@,
    decreases *m,
{
    let mut children: Vec<TransPolyMeshPtr> = Vec::new();
    let mut i: usize = 0;
    while i < m.children.len()
        invariant
            i <= m.children.len(),
            children@.len() == i as int,
            forall|j: int| 0 <= j < i ==> edge_view(children@[j]) == edge_view(m.children@[j]),
        decreases m.children.len() - i,
    {
        let c = clone_edge(&m.children[i]);
        children.push(c);
        i = i + 1;
    }
    proof {
        assert forall|j: int| 0 <= j < m.children@.len() implies edges_view(children@)[j]
            == edges_view(m.children@)[j] by {
            lemma_edges_view_index(children@, j);
            lemma_edges_view_index(m.children@, j);
        }
        lemma_edges_view_len(children@);
        lemma_edges_view_len(m.children@);
        assert(edges_view(children@) =~= edges_view(m.children@));
    }
    PolyMesh {
        mesh_type: m.mesh_type,
        geometry: m.geometry,
        metadata: m.metadata.clone(),
        children,
    }
}

/// A deep copy of a child edge, equal to the original in view.
pub fn clone_edge(e: &TransPolyMeshPtr) -> (r: TransPolyMeshPtr)
    ensures
        r@ == e@,
    decreases *e,
{
    TransPolyMeshPtr {
        path: e.path.clone(),
        mesh: Box::new(clone_mesh(&*e.mesh)),
        translation: e.translation,
    }
}

impl Clone for PolyMesh {
    /// A clone is equal to the original in view.
    fn clone(&self) -> (r: Self)
        ensures
            r@ == self@,
    {
        clone_mesh(self)
    }
}

impl Clone for TransPolyMeshPtr {
    /// A clone is equal to the original in view.
    fn clone(&self) -> (r: Self)
        ensures
            r@ == self@,
    {
        clone_edge(self)
    }
}

impl TransPolyMeshPtr {
    /// The edge's translation, or zero if it carries none.
    pub fn get_translation(&self) -> (r: PolyVector)
        ensures
            r == edge_or_zero(self@),
    {
        match self.translation {
            Some(x) => x,
            None => PolyVector::zero(),
        }
    }

    /// Compose this edge with an ancestor edge when one is given;
    /// otherwise return an equal copy of this edge unchanged.
    pub fn new_from_transform_optional(&self, other: Option<&TransPolyMeshPtr>) -> (r: Self)
        ensures
            r@ == match other {
                Some(o) => composed_edge_view(self@, o@),
                None => self@,
            },
    {
        match other {
            Some(val) => self.new_from_transform(val),
            None => self.clone(),
        }
    }

    /// A new edge with this edge's path and mesh, whose translation is
    /// the sum of this edge's translation and the ancestor's.
    pub fn new_from_transform(&self, other: &TransPolyMeshPtr) -> (r: Self)
        ensures
            r@ == composed_edge_view(self@, other@),
    {
        // Get both translations
        let this_translation = self.get_translation();
        let other_translation = other.get_translation();

        TransPolyMeshPtr {
            path: self.path.clone(),
            mesh: Box::new(clone_mesh(&*self.mesh)),
            translation: Some(this_translation.compose(&other_translation)),
        }
    }
}

/// Edge composition is order-independent in its translation — the sum
/// commutes — but the path and mesh always come from the child edge,
/// never from the ancestor.
pub proof fn lemma_edge_compose_order_independent(a: EdgeView, b: EdgeView)
    ensures
        composed_edge_view(a, b).translation == composed_edge_view(b, a).translation,
        composed_edge_view(a, b).path == a.path,
        composed_edge_view(a, b).mesh == a.mesh,
{
    lemma_compose_commutative(edge_or_zero(a), edge_or_zero(b));
}

/// The schema version written into every descriptor this library
/// produces.
pub const LATEST_POLY_META_VERSION: u32 = 1;

/// A child reference inside a descriptor: the child's path and its
/// optional edge translation, with the `None`/zero distinction kept.
#[derive(Debug)]
pub struct PolyChildReference {
    pub path: String,
    pub translation: Option<PolyVector>,
}

/// The mathematical form of a child reference.
pub ghost struct ChildRefView {
    pub path: Seq<char>,
    pub translation: Option<PolyVector>,
}

impl View for PolyChildReference {
    type V = ChildRefView;

    open spec fn view(&self) -> ChildRefView {
        ChildRefView { path: self.path@, translation: self.translation }
    }
}

/// The serializable, geometry-free summary of a mesh node: version tag,
/// type, metadata, and child references.
#[derive(Debug)]
pub struct PolyMeta {
    pub version: u32,
    pub mesh_type: MeshType,
    pub metadata: MetaMap,
    pub children: Vec<PolyChildReference>,
}

/// The mathematical form of a descriptor.
pub ghost struct MetaView {
    pub version: u32,
    pub kind: MeshType,
    pub metadata: Map<Seq<char>, Seq<char>>,
    pub children: Seq<ChildRefView>,
}

impl View for PolyMeta {
    type V = MetaView;

    open spec fn view(&self) -> MetaView {
        MetaView {
            version: self.version,
            kind: self.mesh_type,
            metadata: self.metadata@,
            children: self.children@.map_values(|c: PolyChildReference| c@),
        }
    }
}

impl PolyChildReference {
    /// The reference's translation, or zero if it carries none.
    pub fn translation_or_zero(&self) -> (r: PolyVector)
        ensures
            r == opt_or_zero(self@.translation),
    {
        match self.translation {
            Some(x) => x,
            None => PolyVector::zero(),
        }
    }
}

impl Clone for PolyChildReference {
    /// A clone is equal to the original in view.
    fn clone(&self) -> (r: Self)
        ensures
            r@ == self@,
    {
        PolyChildReference { path: self.path.clone(), translation: self.translation }
    }
}

impl Clone for PolyMeta {
    /// A clone is equal to the original in view.
    fn clone(&self) -> (r: Self)
        ensures
            r@ == self@,
    {
        let mut children: Vec<PolyChildReference> = Vec::new();
        let mut i: usize = 0;
        while i < self.children.len()
            invariant
                i <= self.children.len(),
                children@.len() == i as int,
                forall|j: int| 0 <= j < i ==> children@[j]@ == self.children@[j]@,
            decreases self.children.len() - i,
        {
            children.push(self.children[i].clone());
            i = i + 1;
        }
        let r = PolyMeta {
            version: self.version,
            mesh_type: self.mesh_type,
            metadata: self.metadata.clone(),
            children,
        };
        proof {
            assert(r@.children =~= self@.children);
        }
        r
    }
}

/// Whether a node carries renderable geometry: its kind says so, or a
/// payload is present. A plain `Group` with no payload has none.
pub open spec fn spec_contains_geometry(v: MeshView) -> bool {
    v.kind == MeshType::Geometry || v.kind == MeshType::GeoGroup || v.geometry is Some
}

/// The display name of a node: its `"name"` metadata, or `"Unnamed"`.
pub open spec fn spec_get_name(v: MeshView) -> Seq<char> {
    if v.metadata.contains_key("name"@) {
        v.metadata["name"@]
    } else {
        "Unnamed"@
    }
}

/// Whether a node requests the runtime-culling feature: its
/// `"_beta_runtime_culling"` metadata equals `"on"`.
pub open spec fn spec_uses_runtime_culling(v: MeshView) -> bool {
    v.metadata.contains_key("_beta_runtime_culling"@) && v.metadata["_beta_runtime_culling"@]
        == "on"@
}

/// The descriptor a node projects to: the latest version tag, the
/// node's kind and metadata, and one reference per child, carrying the
/// child's path and its stored optional translation verbatim.
pub open spec fn spec_to_poly_meta(v: MeshView) -> MetaView {
    MetaView {
        version: LATEST_POLY_META_VERSION,
        kind: v.kind,
        metadata: v.metadata,
        children: v.children.map_values(
            |e: EdgeView| ChildRefView { path: e.path, translation: e.translation },
        ),
    }
}

impl PolyMesh {
    /// Create a new mesh node with no metadata and no children.
    pub fn new(mesh_type: MeshType, geometry: Option<MeshDef>) -> (r: Self)
        ensures
            r@ == (MeshView {
                kind: mesh_type,
                geometry,
                metadata: Map::<Seq<char>, Seq<char>>::empty(),
                children: Seq::<EdgeView>::empty(),
            }),
    {
        PolyMesh { mesh_type, geometry, metadata: MetaMap::new(), children: Vec::new() }
    }

    /// Add arbitrary data to the mesh.
    pub fn add_metadata(&mut self, key: String, value: String)
        ensures
            final(self)@ == (MeshView {
                metadata: old(self)@.metadata.insert(key@, value@),
                ..old(self)@
            }),
    {
        self.metadata.insert(key, value);
    }

    /// Add a child to the mesh, after all present children: insertion
    /// order is the enumeration order flattening uses.
    pub fn add_child(&mut self, child: TransPolyMeshPtr)
        ensures
            final(self)@ == (MeshView {
                children: old(self)@.children.push(child@),
                ..old(self)@
            }),
    {
        let ghost before = self.children@;
        let ghost c = child@;
        self.children.push(child);
        proof {
            lemma_edges_view_push(before, self.children@.last());
            assert(self.children@ =~= before.push(self.children@.last()));
        }
    }

    /// Try to get arbitrary metadata; fails exactly when the key is
    /// absent.
    pub fn try_get_meta_field<'a>(&'a self, key: &str) -> (r: Result<&'a String, ()>)
        ensures
            match r {
                Ok(v) => self@.metadata.contains_key(key@) && v@ == self@.metadata[key@],
                Err(_) => !self@.metadata.contains_key(key@),
            },
    {
        match self.metadata.get(key) {
            Some(v) => Ok(v),
            None => Err(()),
        }
    }

    /// Fetch the mesh name from metadata, defaulting to `"Unnamed"`.
    pub fn get_name(&self) -> (r: String)
        ensures
            r@ == spec_get_name(self@),
    {
        match self.try_get_meta_field("name") {
            Ok(name) => name.clone(),
            Err(_) => "Unnamed".to_owned(),
        }
    }

    /// Set the mesh name.
    pub fn set_name(&mut self, name: String)
        ensures
            final(self)@ == (MeshView {
                metadata: old(self)@.metadata.insert("name"@, name@),
                ..old(self)@
            }),
    {
        self.add_metadata("name".to_owned(), name);
    }

    /// Get if this mesh is requesting the beta runtime-culling feature.
    pub fn uses_runtime_culling(&self) -> (r: bool)
        ensures
            r == spec_uses_runtime_culling(self@),
    {
        match self.try_get_meta_field("_beta_runtime_culling") {
            Ok(result) => *result == "on".to_owned(),
            Err(_) => false,
        }
    }

    /// Request the beta runtime-culling feature for this mesh.
    pub fn enable_runtime_culling(&mut self)
        ensures
            final(self)@ == (MeshView {
                metadata: old(self)@.metadata.insert("_beta_runtime_culling"@, "on"@),
                ..old(self)@
            }),
    {
        self.add_metadata("_beta_runtime_culling".to_owned(), "on".to_owned());
    }

    /// Check if the mesh contains geometry, by its kind or by a payload
    /// being present.
    pub fn contains_geometry(&self) -> (r: bool)
        ensures
            r == spec_contains_geometry(self@),
    {
        self.mesh_type == MeshType::Geometry || self.mesh_type == MeshType::GeoGroup
            || self.geometry.is_some()
    }

    /// Converts this mesh into a descriptor that summarizes it: its
    /// kind, a copy of its metadata, and one path-plus-translation
    /// reference per child, in order.
    pub fn to_poly_meta(&self) -> (r: PolyMeta)
        ensures
            r@ == spec_to_poly_meta(self@),
    {
        // Collect children
        let mut children: Vec<PolyChildReference> = Vec::new();
        let mut i: usize = 0;
        while i < self.children.len()
            invariant
                i <= self.children.len(),
                children@.len() == i as int,
                forall|j: int| 0 <= j < i ==> children@[j]@ == (ChildRefView {
                    path: edge_view(self.children@[j]).path,
                    translation: edge_view(self.children@[j]).translation,
                }),
            decreases self.children.len() - i,
        {
            let child = &self.children[i];
            children.push(
                PolyChildReference { path: child.path.clone(), translation: child.translation },
            );
            i = i + 1;
        }
        let r = PolyMeta {
            version: LATEST_POLY_META_VERSION,
            mesh_type: self.mesh_type,
            metadata: self.metadata.clone(),
            children,
        };
        proof {
            assert forall|j: int| 0 <= j < self.children@.len() implies r@.children[j]
                == spec_to_poly_meta(self@).children[j] by {
                lemma_edges_view_index(self.children@, j);
            }
            lemma_edges_view_len(self.children@);
            assert(r@.children =~= spec_to_poly_meta(self@).children);
        }
        r
    }
}

/// A node with no `"name"` metadata is named `"Unnamed"`; once a name
/// is stored, that name is returned.
pub proof fn lemma_defaulted_name(v: MeshView, name: Seq<char>)
    ensures
        !v.metadata.contains_key("name"@) ==> spec_get_name(v) == "Unnamed"@,
        spec_get_name(MeshView { metadata: v.metadata.insert("name"@, name), ..v }) == name,
{
}

} // verus!
