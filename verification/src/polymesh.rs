//! Building a flat mesh list from a descriptor store: starting at a root
//! locator, load the root's descriptor and recursively materialize every
//! leaf mesh reachable from it, composing per-edge translations at load
//! time so each leaf's geometry arrives absolutely positioned.

use vstd::prelude::*;
use vstd::string::StringExecFns;

use crate::kv::{kv_get, kv_map, kv_set};
use crate::mesh::{
    mesh_view, ChildRefView, MeshDef, MeshType, MeshView, MetaView, PolyMesh, PolyMeta,
    opt_or_zero, transformed_spec,
};
use crate::transform::{identity_spec, vadd, PolyVector};

verus! {

/// Descriptor trees deeper than this fail to build: recursion depth
/// equals tree depth, and an explicit bound keeps the walk from
/// following a descriptor cycle forever.
pub const MAX_TREE_DEPTH: u64 = 64;

/// The external storage the builder reads from: descriptors and
/// geometry payloads, each addressed by a path-like locator.
#[derive(Debug)]
pub struct PolyStore {
    pub metas: Vec<(String, PolyMeta)>,
    pub geos: Vec<(String, MeshDef)>,
}

/// The mathematical form of the store: two maps from locator to
/// descriptor and to geometry payload.
pub ghost struct StoreView {
    pub metas: Map<Seq<char>, MetaView>,
    pub geos: Map<Seq<char>, MeshDef>,
}

impl View for PolyStore {
    type V = StoreView;

    open spec fn view(&self) -> StoreView {
        StoreView { metas: kv_map(self.metas@), geos: kv_map(self.geos@) }
    }
}

impl PolyStore {
    /// An empty store.
    pub fn new() -> (r: PolyStore)
        ensures
            r@.metas == Map::<Seq<char>, MetaView>::empty(),
            r@.geos == Map::<Seq<char>, MeshDef>::empty(),
    {
        PolyStore { metas: Vec::new(), geos: Vec::new() }
    }

    /// Store a descriptor under a locator, shadowing any earlier one.
    pub fn add_meta(&mut self, path: String, meta: PolyMeta)
        ensures
            final(self)@.metas == old(self)@.metas.insert(path@, meta@),
            final(self)@.geos == old(self)@.geos,
    {
        kv_set(&mut self.metas, path, meta);
    }

    /// Store a geometry payload under a locator, shadowing any earlier
    /// one.
    pub fn add_geo(&mut self, path: String, geo: MeshDef)
        ensures
            final(self)@.geos == old(self)@.geos.insert(path@, geo),
            final(self)@.metas == old(self)@.metas,
    {
        kv_set(&mut self.geos, path, geo);
    }
}

/// Errors the builder can report. Any load failure anywhere in the
/// recursion aborts the whole build; nothing partial is returned.
#[derive(Debug, Clone, Copy, PartialEq, Eq, Structural)]
pub enum PolyError {
    /// A descriptor was missing at the locator the tree named.
    DescriptorLoadError,
    /// A geometry payload was missing at the locator the tree named.
    GeometryLoadError,
    /// The descriptor tree was deeper than `MAX_TREE_DEPTH`.
    DepthLimitExceeded,
}

/// The single leaf mesh built for a non-group descriptor: the
/// descriptor's kind and metadata, and the loaded payload repositioned
/// by the accumulated translation.
pub open spec fn leaf_view(meta: MetaView, geo: MeshDef, t: PolyVector) -> MeshView {
    MeshView {
        kind: meta.kind,
        geometry: Some(transformed_spec(geo, t)),
        metadata: meta.metadata,
        children: Seq::<crate::mesh::EdgeView>::empty(),
    }
}

/// The leaf meshes collected below the descriptor at `path`, each
/// positioned by `t` plus the translations of the edges leading to it;
/// or the first load error met, in traversal order.
pub open spec fn collect_spec(
    store: StoreView,
    path: Seq<char>,
    meta: MetaView,
    t: PolyVector,
    fuel: nat,
) -> Result<Seq<MeshView>, PolyError>
    decreases fuel, meta.children.len() + 1,
{
    if meta.kind != MeshType::Group {
        if store.geos.contains_key(path) {
            Ok(seq![leaf_view(meta, store.geos[path], t)])
        } else {
            Err(PolyError::GeometryLoadError)
        }
    } else {
        collect_children_spec(store, path, meta.children, t, fuel)
    }
}

/// The leaf meshes collected for a suffix of a group's child
/// references, concatenated in declaration order.
pub open spec fn collect_children_spec(
    store: StoreView,
    path: Seq<char>,
    children: Seq<ChildRefView>,
    t: PolyVector,
    fuel: nat,
) -> Result<Seq<MeshView>, PolyError>
    decreases fuel, children.len(),
{
    if children.len() == 0 {
        Ok(Seq::empty())
    } else {
        let c = children[0];
        let child_path = path + c.path;
        if !store.metas.contains_key(child_path) {
            Err(PolyError::DescriptorLoadError)
        } else if fuel == 0 {
            Err(PolyError::DepthLimitExceeded)
        } else {
            match collect_spec(
                store,
                child_path,
                store.metas[child_path],
                vadd(t, opt_or_zero(c.translation)),
                (fuel - 1) as nat,
            ) {
                Err(e) => Err(e),
                Ok(first) => match collect_children_spec(
                    store,
                    path,
                    children.drop_first(),
                    t,
                    fuel,
                ) {
                    Err(e) => Err(e),
                    Ok(rest) => Ok(first + rest),
                },
            }
        }
    }
}

/// What building from `root_path` yields: the root descriptor together
/// with every leaf mesh below it, or the first load error met.
pub open spec fn build_spec(store: StoreView, root_path: Seq<char>) -> Result<
    (MetaView, Seq<MeshView>),
    PolyError,
> {
    if !store.metas.contains_key(root_path) {
        Err(PolyError::DescriptorLoadError)
    } else {
        match collect_spec(
            store,
            root_path,
            store.metas[root_path],
            identity_spec(),
            MAX_TREE_DEPTH as nat,
        ) {
            Err(e) => Err(e),
            Ok(list) => Ok((store.metas[root_path], list)),
        }
    }
}

/// The views of a sequence of mesh nodes, in order.
pub open spec fn meshes_view(s: Seq<PolyMesh>) -> Seq<MeshView> {
    s.map_values(|m: PolyMesh| mesh_view(m))
}

/// Unfold `collect_children_spec` at position `i` of the remaining
/// suffix.
proof fn lemma_collect_children_skip(
    store: StoreView,
    path: Seq<char>,
    children: Seq<ChildRefView>,
    t: PolyVector,
    fuel: nat,
    i: int,
)
    requires
        0 <= i < children.len(),
    ensures
        ({
            let c = children[i];
            let child_path = path + c.path;
            collect_children_spec(store, path, children.skip(i), t, fuel) == if !store.metas.contains_key(child_path) {
                Err::<Seq<MeshView>, PolyError>(PolyError::DescriptorLoadError)
            } else if fuel == 0 {
                Err(PolyError::DepthLimitExceeded)
            } else {
                match collect_spec(
                    store,
                    child_path,
                    store.metas[child_path],
                    vadd(t, opt_or_zero(c.translation)),
                    (fuel - 1) as nat,
                ) {
                    Err(e) => Err(e),
                    Ok(first) => match collect_children_spec(
                        store,
                        path,
                        children.skip(i + 1),
                        t,
                        fuel,
                    ) {
                        Err(e) => Err(e),
                        Ok(rest) => Ok(first + rest),
                    },
                }
            }
        }),
{
    assert(children.skip(i)[0] == children[i]);
    assert(children.skip(i).drop_first() =~= children.skip(i + 1));
}

/// The build is fail-fast: a collection over a group's children
/// succeeds only if, for every child, the child's descriptor is
/// present, depth remains, and the child's own subtree collection
/// succeeds. Contrapositively, one failing descendant fails the whole
/// collection — there is no partial mesh list.
pub proof fn lemma_collect_ok_implies_child_ok(
    store: StoreView,
    path: Seq<char>,
    children: Seq<ChildRefView>,
    t: PolyVector,
    fuel: nat,
    i: int,
)
    requires
        0 <= i < children.len(),
        collect_children_spec(store, path, children, t, fuel) is Ok,
    ensures
        ({
            let c = children[i];
            let child_path = path + c.path;
            &&& store.metas.contains_key(child_path)
            &&& fuel > 0
            &&& collect_spec(
                store,
                child_path,
                store.metas[child_path],
                vadd(t, opt_or_zero(c.translation)),
                (fuel - 1) as nat,
            ) is Ok
        }),
    decreases i,
{
    if i > 0 {
        assert(collect_children_spec(store, path, children.drop_first(), t, fuel) is Ok);
        lemma_collect_ok_implies_child_ok(store, path, children.drop_first(), t, fuel, i - 1);
        assert(children.drop_first()[i - 1] == children[i]);
    }
}

/// Collect, bottom-up, every leaf mesh below the descriptor `meta`
/// found at `path`, positioning each by `transform` plus the edge
/// translations on the way down.
fn recurse_collect_meshes(
    store: &PolyStore,
    path: &str,
    meta: &PolyMeta,
    transform: PolyVector,
    fuel: u64,
) -> (r: Result<Vec<PolyMesh>, PolyError>)
    ensures
        match r {
            Ok(v) => collect_spec(store@, path@, meta@, transform, fuel as nat) == Ok::<
                Seq<MeshView>,
                PolyError,
            >(meshes_view(v@)),
            Err(e) => collect_spec(store@, path@, meta@, transform, fuel as nat)
                == Err::<Seq<MeshView>, PolyError>(e),
        },
    decreases fuel,
{
    let mut output: Vec<PolyMesh> = Vec::new();

    // If this descriptor is not a group, load and position its mesh
    if !matches!(meta.mesh_type, MeshType::Group) {
        match kv_get(&store.geos, path) {
            None => {
                return Err(PolyError::GeometryLoadError);
            },
            Some(geo) => {
                // Transform the mesh to be absolutely positioned
                let new_mesh = PolyMesh {
                    mesh_type: meta.mesh_type,
                    geometry: Some(geo.transformed(&transform)),
                    metadata: meta.metadata.clone(),
                    children: Vec::new(),
                };
                output.push(new_mesh);
                proof {
                    assert(meshes_view(output@) =~= seq![
                        leaf_view(meta@, store@.geos[path@], transform),
                    ]);
                }
                return Ok(output);
            },
        }
    }

    // Otherwise, recurse through the children
    let ghost children = meta@.children;
    proof {
        assert(children.skip(0) =~= children);
        assert(meshes_view(output@) + Seq::<MeshView>::empty() =~= meshes_view(output@));
    }
    let mut i: usize = 0;
    while i < meta.children.len()
        invariant
            i <= meta.children.len(),
            meta@.kind == MeshType::Group,
            children == meta@.children,
            children.len() == meta.children@.len(),
            match collect_children_spec(store@, path@, children.skip(i as int), transform, fuel as nat) {
                Ok(rest) => collect_spec(store@, path@, meta@, transform, fuel as nat) == Ok::<
                    Seq<MeshView>,
                    PolyError,
                >(meshes_view(output@) + rest),
                Err(e) => collect_spec(store@, path@, meta@, transform, fuel as nat)
                    == Err::<Seq<MeshView>, PolyError>(e),
            },
        decreases meta.children.len() - i,
    {
        let child = &meta.children[i];
        let ghost c = children[i as int];
        proof {
            lemma_collect_children_skip(store@, path@, children, transform, fuel as nat, i as int);
        }

        // Build the child's locator from the parent's
        let mut child_path: String = path.to_owned();
        child_path.append(child.path.as_str());

        // Load the child's descriptor
        let child_meta = match kv_get(&store.metas, child_path.as_str()) {
            None => {
                return Err(PolyError::DescriptorLoadError);
            },
            Some(m) => m,
        };
        if fuel == 0 {
            return Err(PolyError::DepthLimitExceeded);
        }

        // Build on the transform
        let child_translation = child.translation_or_zero();
        let new_transform = transform.compose(&child_translation);

        // Get the child's meshes
        match recurse_collect_meshes(store, child_path.as_str(), child_meta, new_transform, fuel
            - 1) {
            Err(e) => {
                return Err(e);
            },
            Ok(mut child_meshes) => {
                let ghost first = meshes_view(child_meshes@);
                let ghost before = meshes_view(output@);
                output.append(&mut child_meshes);
                proof {
                    assert(meshes_view(output@) =~= before + first);
                    match collect_children_spec(
                        store@,
                        path@,
                        children.skip(i as int + 1),
                        transform,
                        fuel as nat,
                    ) {
                        Ok(rest) => {
                            assert(before + (first + rest) =~= meshes_view(output@) + rest);
                        },
                        Err(_) => {},
                    }
                }
            },
        }
        i = i + 1;
    }
    proof {
        assert(children.skip(children.len() as int) =~= Seq::<ChildRefView>::empty());
        assert(meshes_view(output@) + Seq::<MeshView>::empty() =~= meshes_view(output@));
    }
    Ok(output)
}

/// A tree flattened at build time: the root's descriptor and every leaf
/// mesh below it, absolutely positioned, in pre-order and declaration
/// order.
#[derive(Debug)]
pub struct FlatPolyMesh {
    pub root_meta: PolyMeta,
    pub flat_meshes: Vec<PolyMesh>,
}

impl FlatPolyMesh {
    /// Build the flat mesh list for the tree rooted at `root_path`.
    /// Succeeds exactly when every descriptor and geometry payload the
    /// tree names is present, within the depth bound; any load failure
    /// aborts the whole build with no partial result.
    pub fn new(store: &PolyStore, root_path: &str) -> (r: Result<FlatPolyMesh, PolyError>)
        ensures
            match r {
                Ok(f) => build_spec(store@, root_path@) == Ok::<
                    (MetaView, Seq<MeshView>),
                    PolyError,
                >((f.root_meta@, meshes_view(f.flat_meshes@))),
                Err(e) => build_spec(store@, root_path@) == Err::<
                    (MetaView, Seq<MeshView>),
                    PolyError,
                >(e),
            },
    {
        // Get the root metadata
        let root_meta = match kv_get(&store.metas, root_path) {
            None => {
                return Err(PolyError::DescriptorLoadError);
            },
            Some(m) => m,
        };

        // Crawl the tree of children
        let flat_meshes = match recurse_collect_meshes(
            store,
            root_path,
            root_meta,
            PolyVector::zero(),
            MAX_TREE_DEPTH,
        ) {
            Err(e) => {
                return Err(e);
            },
            Ok(v) => v,
        };

        Ok(FlatPolyMesh { root_meta: root_meta.clone(), flat_meshes })
    }
}

} // verus!
