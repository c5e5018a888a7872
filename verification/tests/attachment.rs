use spine::error::Error;
use spine::skeleton::attachment::{
    classify_tag, Attachment, AttachmentHandle, AttachmentKind, MeshData, RegionData, TAG_MESH,
    TAG_REGION,
};

fn region_data(renderer_object: u64) -> RegionData {
    RegionData {
        renderer_object,
        uvs: [0, 1, 2, 3, 4, 5, 6, 7],
    }
}

#[test]
fn classify_region_tag() {
    assert_eq!(classify_tag(TAG_REGION), AttachmentKind::Region);
    assert_eq!(classify_tag(0), AttachmentKind::Region);
}

#[test]
fn classify_mesh_tag() {
    assert_eq!(classify_tag(TAG_MESH), AttachmentKind::Mesh);
    assert_eq!(classify_tag(2), AttachmentKind::Mesh);
}

#[test]
fn classify_unrecognized_tags() {
    // every tag the mapping does not recognize is Other, including values the
    // native engine may only introduce later
    for tag in [1u32, 3, 4, 5, 6, 7, 42, 1000, u32::MAX] {
        assert_eq!(classify_tag(tag), AttachmentKind::Other);
    }
}

#[test]
fn dispatch_null_handle_is_rejected() {
    let r = Attachment::new(None);
    assert!(matches!(r, Err(Error::NullPointer)));
}

#[test]
fn dispatch_region_handle() {
    let h = AttachmentHandle::region(region_data(12));
    let a = Attachment::new(Some(&h)).unwrap();
    assert!(matches!(a, Attachment::Region(_)));
}

#[test]
fn dispatch_mesh_handle() {
    let h = AttachmentHandle::mesh(MeshData::new(12, vec![0, 1, 2], vec![10, 20, 30, 40]));
    let a = Attachment::new(Some(&h)).unwrap();
    assert!(matches!(a, Attachment::Mesh(_)));
}

#[test]
fn dispatch_unrecognized_handle() {
    for tag in [1u32, 3, 99, u32::MAX] {
        let h = AttachmentHandle::other(tag);
        let a = Attachment::new(Some(&h)).unwrap();
        assert!(matches!(a, Attachment::Other));
    }
}

#[test]
fn dispatch_is_idempotent() {
    let h = AttachmentHandle::mesh(MeshData::new(3, vec![0, 1, 2], vec![1, 2]));
    let first = Attachment::new(Some(&h)).unwrap();
    let second = Attachment::new(Some(&h)).unwrap();
    assert!(matches!(first, Attachment::Mesh(_)));
    assert!(matches!(second, Attachment::Mesh(_)));

    let h2 = AttachmentHandle::region(region_data(7));
    let first2 = Attachment::new(Some(&h2)).unwrap();
    let second2 = Attachment::new(Some(&h2)).unwrap();
    assert!(matches!(first2, Attachment::Region(_)));
    assert!(matches!(second2, Attachment::Region(_)));
}

#[test]
fn mesh_uvs_len_equals_world_vertices_len() {
    let h = AttachmentHandle::mesh(MeshData::new(
        9,
        vec![0, 1, 2, 2, 3, 0],
        vec![11, 12, 13, 14, 15, 16, 17, 18],
    ));
    let a = Attachment::new(Some(&h)).unwrap();
    match a {
        Attachment::Mesh(m) => {
            assert_eq!(m.world_vertices_len(), 8);
            assert_eq!(m.uvs().len(), m.world_vertices_len());
            assert_eq!(m.uvs(), &[11, 12, 13, 14, 15, 16, 17, 18]);
            assert_eq!(m.triangles(), &[0, 1, 2, 2, 3, 0]);
        }
        _ => panic!("expected a mesh attachment"),
    }
}

#[test]
fn region_uvs_len_is_eight() {
    let h = AttachmentHandle::region(region_data(5));
    let a = Attachment::new(Some(&h)).unwrap();
    match a {
        Attachment::Region(r) => {
            assert_eq!(r.uvs().len(), 8);
            assert_eq!(r.uvs(), &[0, 1, 2, 3, 4, 5, 6, 7]);
        }
        _ => panic!("expected a region attachment"),
    }
}

#[test]
fn empty_mesh_buffers_give_empty_views() {
    let h = AttachmentHandle::mesh(MeshData::new(1, vec![], vec![]));
    let a = Attachment::new(Some(&h)).unwrap();
    match a {
        Attachment::Mesh(m) => {
            assert_eq!(m.triangles().len(), 0);
            assert_eq!(m.uvs().len(), 0);
            assert_eq!(m.world_vertices_len(), 0);
        }
        _ => panic!("expected a mesh attachment"),
    }
}

#[test]
fn atlas_region_link_carries_the_address() {
    let h = AttachmentHandle::mesh(MeshData::new(77, vec![0], vec![1, 2]));
    match Attachment::new(Some(&h)).unwrap() {
        Attachment::Mesh(m) => assert_eq!(m.region().address, 77),
        _ => panic!("expected a mesh attachment"),
    }
    let h2 = AttachmentHandle::region(region_data(88));
    match Attachment::new(Some(&h2)).unwrap() {
        Attachment::Region(r) => assert_eq!(r.region().address, 88),
        _ => panic!("expected a region attachment"),
    }
}
