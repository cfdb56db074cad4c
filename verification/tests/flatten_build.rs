use libpolymesh::flatlist::get_flat_geometry;
use libpolymesh::mesh::{
    MeshDef, MeshType, PolyChildReference, PolyMesh, PolyMeta, TransPolyMeshPtr,
    LATEST_POLY_META_VERSION,
};
use libpolymesh::polymesh::{FlatPolyMesh, PolyError, PolyStore};
use libpolymesh::transform::PolyVector;

fn vec3(x: i64, y: i64, z: i64) -> PolyVector {
    PolyVector { x, y, z }
}

fn payload(tag: u64) -> MeshDef {
    MeshDef {
        tag,
        offset: vec3(0, 0, 0),
    }
}

fn group_meta(children: Vec<PolyChildReference>) -> PolyMeta {
    PolyMeta {
        version: LATEST_POLY_META_VERSION,
        mesh_type: MeshType::Group,
        metadata: libpolymesh::mesh::MetaMap::new(),
        children,
    }
}

fn geometry_meta() -> PolyMeta {
    PolyMeta {
        version: LATEST_POLY_META_VERSION,
        mesh_type: MeshType::Geometry,
        metadata: libpolymesh::mesh::MetaMap::new(),
        children: Vec::new(),
    }
}

fn child_ref(path: &str, translation: Option<PolyVector>) -> PolyChildReference {
    PolyChildReference {
        path: path.to_string(),
        translation,
    }
}

#[test]
fn build_single_translated_leaf() {
    // Root group with one child edge {path: "a", translation: (1,0,0)}
    // pointing at a geometry leaf whose payload sits at the origin.
    let mut store = PolyStore::new();
    store.add_meta(
        "root".to_string(),
        group_meta(vec![child_ref("a", Some(vec3(1, 0, 0)))]),
    );
    store.add_meta("roota".to_string(), geometry_meta());
    store.add_geo("roota".to_string(), payload(1));

    let flat = FlatPolyMesh::new(&store, "root").unwrap();
    assert_eq!(flat.root_meta.mesh_type, MeshType::Group);
    assert_eq!(flat.flat_meshes.len(), 1);
    let mesh = &flat.flat_meshes[0];
    assert_eq!(mesh.mesh_type, MeshType::Geometry);
    assert_eq!(
        mesh.geometry,
        Some(MeshDef {
            tag: 1,
            offset: vec3(1, 0, 0),
        })
    );
    assert!(mesh.children.is_empty());
}

#[test]
fn build_accumulates_translations_down_the_tree() {
    // Root group -> child group at (1,0,0) -> geometry leaf at (0,2,0):
    // the leaf lands at (1,2,0).
    let mut store = PolyStore::new();
    store.add_meta(
        "root".to_string(),
        group_meta(vec![child_ref("a", Some(vec3(1, 0, 0)))]),
    );
    store.add_meta(
        "roota".to_string(),
        group_meta(vec![child_ref("b", Some(vec3(0, 2, 0)))]),
    );
    store.add_meta("rootab".to_string(), geometry_meta());
    store.add_geo("rootab".to_string(), payload(7));

    let flat = FlatPolyMesh::new(&store, "root").unwrap();
    assert_eq!(flat.flat_meshes.len(), 1);
    assert_eq!(
        flat.flat_meshes[0].geometry,
        Some(MeshDef {
            tag: 7,
            offset: vec3(1, 2, 0),
        })
    );
}

#[test]
fn build_preserves_declaration_order() {
    let mut store = PolyStore::new();
    store.add_meta(
        "root".to_string(),
        group_meta(vec![
            child_ref("x", Some(vec3(1, 0, 0))),
            child_ref("y", Some(vec3(2, 0, 0))),
        ]),
    );
    store.add_meta("rootx".to_string(), geometry_meta());
    store.add_meta("rooty".to_string(), geometry_meta());
    store.add_geo("rootx".to_string(), payload(1));
    store.add_geo("rooty".to_string(), payload(2));

    let flat = FlatPolyMesh::new(&store, "root").unwrap();
    let tags: Vec<u64> = flat
        .flat_meshes
        .iter()
        .map(|m| m.geometry.unwrap().tag)
        .collect();
    assert_eq!(tags, vec![1, 2]);
}

#[test]
fn build_missing_root_descriptor_fails() {
    let store = PolyStore::new();
    let r = FlatPolyMesh::new(&store, "root");
    assert!(matches!(r, Err(PolyError::DescriptorLoadError)));
}

#[test]
fn build_missing_child_descriptor_fails_whole_call() {
    let mut store = PolyStore::new();
    store.add_meta(
        "root".to_string(),
        group_meta(vec![
            child_ref("x", None),
            child_ref("missing", None),
        ]),
    );
    store.add_meta("rootx".to_string(), geometry_meta());
    store.add_geo("rootx".to_string(), payload(1));

    // One loadable child does not produce a partial result: the whole
    // build fails.
    let r = FlatPolyMesh::new(&store, "root");
    assert!(matches!(r, Err(PolyError::DescriptorLoadError)));
}

#[test]
fn build_missing_geometry_fails_whole_call() {
    let mut store = PolyStore::new();
    store.add_meta(
        "root".to_string(),
        group_meta(vec![child_ref("a", Some(vec3(1, 0, 0)))]),
    );
    store.add_meta("roota".to_string(), geometry_meta());
    // No payload stored for "roota".

    let r = FlatPolyMesh::new(&store, "root");
    assert!(matches!(r, Err(PolyError::GeometryLoadError)));
}

#[test]
fn build_cyclic_descriptors_hit_the_depth_bound() {
    // A group whose child path is empty names itself: the walk stops at
    // the depth bound instead of recursing forever.
    let mut store = PolyStore::new();
    store.add_meta(
        "root".to_string(),
        group_meta(vec![child_ref("", Some(vec3(1, 0, 0)))]),
    );
    let r = FlatPolyMesh::new(&store, "root");
    assert!(matches!(r, Err(PolyError::DepthLimitExceeded)));
}

fn edge(path: &str, mesh: PolyMesh, translation: Option<PolyVector>) -> TransPolyMeshPtr {
    TransPolyMeshPtr {
        path: path.to_string(),
        mesh: Box::new(mesh),
        translation,
    }
}

#[test]
fn flatten_geo_group_and_descendant() {
    // A GeoGroup at depth 1 (translation (0,0,5), payload R) with a
    // geometry child (translation (1,0,0), payload S): flattening the
    // root yields R at (0,0,5) and S at (1,0,5).
    let mut geo_group = PolyMesh::new(MeshType::GeoGroup, Some(payload(100)));
    geo_group.add_child(edge(
        "s",
        PolyMesh::new(MeshType::Geometry, Some(payload(200))),
        Some(vec3(1, 0, 0)),
    ));
    let mut root = PolyMesh::new(MeshType::Group, None);
    root.add_child(edge("r", geo_group, Some(vec3(0, 0, 5))));

    let flat = get_flat_geometry(root);
    assert_eq!(flat.len(), 2);
    assert_eq!(
        flat[0],
        MeshDef {
            tag: 100,
            offset: vec3(0, 0, 5),
        }
    );
    assert_eq!(
        flat[1],
        MeshDef {
            tag: 200,
            offset: vec3(1, 0, 5),
        }
    );
}

#[test]
fn flatten_twice_gives_identical_output() {
    let build = || {
        let mut inner = PolyMesh::new(MeshType::GeoGroup, Some(payload(1)));
        inner.add_child(edge(
            "b",
            PolyMesh::new(MeshType::Geometry, Some(payload(2))),
            None,
        ));
        inner.add_child(edge(
            "c",
            PolyMesh::new(MeshType::Geometry, Some(payload(3))),
            Some(vec3(0, 1, 0)),
        ));
        let mut root = PolyMesh::new(MeshType::Group, None);
        root.add_child(edge("a", inner, Some(vec3(2, 0, 0))));
        root
    };
    let first = get_flat_geometry(build());
    let second = get_flat_geometry(build());
    assert_eq!(first, second);
    let tags: Vec<u64> = first.iter().map(|d| d.tag).collect();
    assert_eq!(tags, vec![1, 2, 3]);
}

#[test]
fn flatten_tree_without_geometry_is_empty() {
    let mut root = PolyMesh::new(MeshType::Group, None);
    root.add_child(edge("a", PolyMesh::new(MeshType::Group, None), None));
    let flat = get_flat_geometry(root);
    assert!(flat.is_empty());
}

#[test]
fn flatten_treats_unset_translation_as_zero() {
    let mut root = PolyMesh::new(MeshType::Group, None);
    root.add_child(edge(
        "a",
        PolyMesh::new(MeshType::Geometry, Some(payload(5))),
        None,
    ));
    let flat = get_flat_geometry(root);
    assert_eq!(flat.len(), 1);
    assert_eq!(flat[0].offset, vec3(0, 0, 0));
}
