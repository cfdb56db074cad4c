//! Flattening an in-memory mesh tree: walk the children of a root node,
//! compose each edge's translation with the accumulated ancestor
//! translation, and emit every geometry payload found, repositioned into
//! the root's coordinate space, in pre-order and declaration order.

use vstd::prelude::*;

use crate::mesh::{
    edge_or_zero, lemma_edges_view_index, lemma_edges_view_len, spec_contains_geometry,
    transformed_spec, EdgeView, MeshDef, PolyMesh, TransPolyMeshPtr,
};
use crate::transform::{identity_spec, lemma_compose_identity, vadd, PolyVector};

verus! {

/// The geometry emitted for one edge whose ancestors sum to `ambient`:
/// the edge's mesh's own payload if that mesh contains geometry, then
/// everything below it, all repositioned by the composed translation.
pub open spec fn flat_edge(c: EdgeView, ambient: PolyVector) -> Seq<MeshDef>
    decreases c,
{
    let abs = vadd(edge_or_zero(c), ambient);
    let own = if spec_contains_geometry(c.mesh) {
        match c.mesh.geometry {
            Some(g) => seq![transformed_spec(g, abs)],
            None => Seq::<MeshDef>::empty(),
        }
    } else {
        Seq::<MeshDef>::empty()
    };
    own + flat_children(c.mesh.children, abs)
}

/// The geometry emitted for a sequence of sibling edges, in order.
pub open spec fn flat_children(s: Seq<EdgeView>, ambient: PolyVector) -> Seq<MeshDef>
    decreases s,
{
    if s.len() == 0 {
        Seq::empty()
    } else {
        flat_edge(s[0], ambient) + flat_children(s.drop_first(), ambient)
    }
}

/// A mesh below an edge can be flattened without failure: wherever it
/// reports containing geometry, a payload is actually present.
pub open spec fn edge_geo_wf(c: EdgeView) -> bool
    decreases c,
{
    (spec_contains_geometry(c.mesh) ==> c.mesh.geometry is Some) && edges_geo_wf(c.mesh.children)
}

/// Every edge of the sequence satisfies `edge_geo_wf`.
pub open spec fn edges_geo_wf(s: Seq<EdgeView>) -> bool
    decreases s,
{
    s.len() == 0 || (edge_geo_wf(s[0]) && edges_geo_wf(s.drop_first()))
}

/// `edges_geo_wf` holds of each edge individually.
pub proof fn lemma_edges_geo_wf_index(s: Seq<EdgeView>, i: int)
    requires
        edges_geo_wf(s),
        0 <= i < s.len(),
    ensures
        edge_geo_wf(s[i]),
    decreases i,
{
    if i > 0 {
        lemma_edges_geo_wf_index(s.drop_first(), i - 1);
    }
}

/// Unfold `flat_children` at position `i` of the remaining suffix.
pub proof fn lemma_flat_children_skip(s: Seq<EdgeView>, ambient: PolyVector, i: int)
    requires
        0 <= i < s.len(),
    ensures
        flat_children(s.skip(i), ambient) == flat_edge(s[i], ambient) + flat_children(
            s.skip(i + 1),
            ambient,
        ),
{
    assert(s.skip(i)[0] == s[i]);
    assert(s.skip(i).drop_first() =~= s.skip(i + 1));
}

/// Collect every geometry payload reachable below `root_mesh`,
/// repositioned into the root's coordinate space, in pre-order and
/// children-in-declaration order. The tree is assumed fully loaded:
/// every node below the root that reports containing geometry actually
/// carries a payload.
pub fn get_flat_geometry(root_mesh: PolyMesh) -> (r: Vec<MeshDef>)
    requires
        edges_geo_wf(root_mesh@.children),
    ensures
        r@ == flat_children(root_mesh@.children, identity_spec()),
{
    // Create a list of all found geometry
    let mut all_geo: Vec<MeshDef> = Vec::new();

    // Begin recursive search for geometry
    get_flat_geometry_recursive(&root_mesh, None, &mut all_geo);

    all_geo
}

/// Walk the children of `root_mesh`, with `parent_transform` carrying
/// the translation accumulated from the original root, appending every
/// repositioned payload found to `all_geo`.
fn get_flat_geometry_recursive(
    root_mesh: &PolyMesh,
    parent_transform: Option<&TransPolyMeshPtr>,
    all_geo: &mut Vec<MeshDef>,
)
    requires
        edges_geo_wf(root_mesh@.children),
    ensures
        final(all_geo)@ == old(all_geo)@ + flat_children(
            root_mesh@.children,
            match parent_transform {
                Some(p) => edge_or_zero(p@),
                None => identity_spec(),
            },
        ),
    decreases *root_mesh,
{
    let ghost ambient = match parent_transform {
        Some(p) => edge_or_zero(p@),
        None => identity_spec(),
    };
    let ghost views = root_mesh@.children;
    proof {
        lemma_edges_view_len(root_mesh.children@);
        assert(views.skip(0) =~= views);
    }

    // Search all children
    let mut i: usize = 0;
    while i < root_mesh.children.len()
        invariant
            i <= root_mesh.children.len(),
            views == root_mesh@.children,
            views.len() == root_mesh.children@.len(),
            edges_geo_wf(views),
            ambient == match parent_transform {
                Some(p) => edge_or_zero(p@),
                None => identity_spec(),
            },
            all_geo@ + flat_children(views.skip(i as int), ambient) == old(all_geo)@
                + flat_children(views, ambient),
        decreases root_mesh.children.len() - i,
    {
        let child = &root_mesh.children[i];
        let ghost c = views[i as int];
        proof {
            lemma_edges_view_index(root_mesh.children@, i as int);
            lemma_edges_geo_wf_index(views, i as int);
        }

        // Get the child with an absolute transform from its root
        let abs_child = child.new_from_transform_optional(parent_transform);
        proof {
            lemma_compose_identity(edge_or_zero(c));
            assert(abs_child@.mesh == c.mesh);
            assert(edge_or_zero(abs_child@) == vadd(edge_or_zero(c), ambient));
        }

        // Get the child's mesh
        let child_mesh = &*abs_child.mesh;

        // Check if the child contains geometry
        if child_mesh.contains_geometry() {
            // Transform the child's geometry to an absolute position
            let abs_geometry = child_mesh.geometry.as_ref().unwrap().transformed_by(&abs_child);

            // Add the geometry to the list
            all_geo.push(abs_geometry);
        }

        // Search for geometry
        get_flat_geometry_recursive(&*child.mesh, Some(&abs_child), all_geo);

        proof {
            lemma_flat_children_skip(views, ambient, i as int);
        }
        i = i + 1;
    }
    proof {
        assert(views.skip(views.len() as int) =~= Seq::<EdgeView>::empty());
        assert(all_geo@ + Seq::<MeshDef>::empty() =~= all_geo@);
    }
}

/// Flattening is deterministic: any two flattenings of the same tree
/// yield the same payloads in the same pre-order, children-in-
/// declaration order.
pub proof fn lemma_flatten_deterministic(
    children: Seq<EdgeView>,
    r1: Seq<MeshDef>,
    r2: Seq<MeshDef>,
)
    requires
        r1 == flat_children(children, identity_spec()),
        r2 == flat_children(children, identity_spec()),
    ensures
        r1 == r2,
{
}

} // verus!
