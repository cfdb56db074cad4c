use libpolymesh::mesh::{
    MeshDef, MeshType, PolyMesh, TransPolyMeshPtr, LATEST_POLY_META_VERSION,
};
use libpolymesh::transform::PolyVector;

fn vec3(x: i64, y: i64, z: i64) -> PolyVector {
    PolyVector { x, y, z }
}

fn leaf(tag: u64) -> PolyMesh {
    PolyMesh::new(
        MeshType::Geometry,
        Some(MeshDef {
            tag,
            offset: vec3(0, 0, 0),
        }),
    )
}

#[test]
fn compose_identity_left_and_right() {
    let t = vec3(4, -7, 9);
    let id = PolyVector::zero();
    assert_eq!(t.compose(&id), t);
    assert_eq!(id.compose(&t), t);
}

#[test]
fn compose_adds_componentwise() {
    let a = vec3(1, 2, 3);
    let b = vec3(10, 20, 30);
    assert_eq!(a.compose(&b), vec3(11, 22, 33));
}

#[test]
fn edge_composition_is_order_independent_in_translation() {
    let edge_a = TransPolyMeshPtr {
        path: "a".to_string(),
        mesh: Box::new(leaf(1)),
        translation: Some(vec3(1, 0, 0)),
    };
    let edge_b = TransPolyMeshPtr {
        path: "b".to_string(),
        mesh: Box::new(leaf(2)),
        translation: Some(vec3(0, 2, 0)),
    };
    let ab = edge_a.new_from_transform(&edge_b);
    let ba = edge_b.new_from_transform(&edge_a);
    assert_eq!(ab.translation, Some(vec3(1, 2, 0)));
    assert_eq!(ba.translation, Some(vec3(1, 2, 0)));
    // Identity always comes from the child edge, never the ancestor.
    assert_eq!(ab.path, "a");
    assert_eq!(ab.mesh.geometry.unwrap().tag, 1);
    assert_eq!(ba.path, "b");
    assert_eq!(ba.mesh.geometry.unwrap().tag, 2);
}

#[test]
fn edge_composition_without_ancestor_is_unchanged() {
    let edge = TransPolyMeshPtr {
        path: "a".to_string(),
        mesh: Box::new(leaf(1)),
        translation: None,
    };
    let same = edge.new_from_transform_optional(None);
    assert_eq!(same.path, "a");
    assert_eq!(same.translation, None);
    assert_eq!(same.get_translation(), vec3(0, 0, 0));
}

#[test]
fn get_translation_defaults_to_zero() {
    let edge = TransPolyMeshPtr {
        path: "a".to_string(),
        mesh: Box::new(leaf(1)),
        translation: None,
    };
    assert_eq!(edge.get_translation(), vec3(0, 0, 0));
    let moved = TransPolyMeshPtr {
        translation: Some(vec3(5, 6, 7)),
        ..edge
    };
    assert_eq!(moved.get_translation(), vec3(5, 6, 7));
}

#[test]
fn containment_follows_kind_or_payload() {
    let group = PolyMesh::new(MeshType::Group, None);
    assert!(!group.contains_geometry());

    let geometry = PolyMesh::new(MeshType::Geometry, None);
    assert!(geometry.contains_geometry());

    let geo_group = PolyMesh::new(MeshType::GeoGroup, None);
    assert!(geo_group.contains_geometry());

    // A stray payload on a plain Group still counts as geometry.
    let stray = PolyMesh::new(
        MeshType::Group,
        Some(MeshDef {
            tag: 9,
            offset: vec3(0, 0, 0),
        }),
    );
    assert!(stray.contains_geometry());
}

#[test]
fn name_defaults_to_unnamed() {
    let node = PolyMesh::new(MeshType::Group, None);
    assert_eq!(node.get_name(), "Unnamed");
}

#[test]
fn set_name_then_get_name() {
    let mut node = PolyMesh::new(MeshType::Group, None);
    node.set_name("Foo".to_string());
    assert_eq!(node.get_name(), "Foo");
}

#[test]
fn metadata_lookup_fails_only_when_absent() {
    let mut node = PolyMesh::new(MeshType::Group, None);
    assert_eq!(node.try_get_meta_field("colour"), Err(()));
    node.add_metadata("colour".to_string(), "red".to_string());
    assert_eq!(node.try_get_meta_field("colour"), Ok(&"red".to_string()));
}

#[test]
fn metadata_last_write_wins() {
    let mut node = PolyMesh::new(MeshType::Group, None);
    node.add_metadata("colour".to_string(), "red".to_string());
    node.add_metadata("colour".to_string(), "blue".to_string());
    assert_eq!(node.try_get_meta_field("colour"), Ok(&"blue".to_string()));
}

#[test]
fn runtime_culling_flag() {
    let mut node = PolyMesh::new(MeshType::Group, None);
    assert!(!node.uses_runtime_culling());
    node.enable_runtime_culling();
    assert!(node.uses_runtime_culling());
    assert_eq!(
        node.try_get_meta_field("_beta_runtime_culling"),
        Ok(&"on".to_string())
    );
}

#[test]
fn runtime_culling_requires_on_exactly() {
    let mut node = PolyMesh::new(MeshType::Group, None);
    node.add_metadata("_beta_runtime_culling".to_string(), "off".to_string());
    assert!(!node.uses_runtime_culling());
}

#[test]
fn descriptor_projects_kind_children_and_translations() {
    let mut root = PolyMesh::new(MeshType::Group, None);
    root.set_name("Root".to_string());
    root.add_child(TransPolyMeshPtr {
        path: "a".to_string(),
        mesh: Box::new(leaf(1)),
        translation: Some(vec3(1, 0, 0)),
    });
    root.add_child(TransPolyMeshPtr {
        path: "b".to_string(),
        mesh: Box::new(leaf(2)),
        translation: None,
    });

    let meta = root.to_poly_meta();
    assert_eq!(meta.version, LATEST_POLY_META_VERSION);
    assert_eq!(meta.mesh_type, MeshType::Group);
    assert_eq!(meta.metadata.get("name"), Some(&"Root".to_string()));
    assert_eq!(meta.children.len(), 2);
    assert_eq!(meta.children[0].path, "a");
    assert_eq!(meta.children[0].translation, Some(vec3(1, 0, 0)));
    assert_eq!(meta.children[1].path, "b");
    // The unset/zero distinction is preserved verbatim.
    assert_eq!(meta.children[1].translation, None);
}

#[test]
fn transformed_payload_moves_but_keeps_identity() {
    let payload = MeshDef {
        tag: 42,
        offset: vec3(1, 1, 1),
    };
    let moved = payload.transformed(&vec3(0, 0, 4));
    assert_eq!(moved.tag, 42);
    assert_eq!(moved.offset, vec3(1, 1, 5));
}
