use vulkan_renderer::obj::{face_vertex_index, triangle_indices, ObjError};

fn corner(s: &str) -> Result<u32, ObjError> {
    face_vertex_index(&s.as_bytes().to_vec())
}

#[test]
fn face_corner_forms() {
    assert_eq!(corner("7"), Ok(6));
    assert_eq!(corner("7/2"), Ok(6));
    assert_eq!(corner("12//3"), Ok(11));
    assert_eq!(corner("1"), Ok(0));
    assert_eq!(corner("4294967295"), Ok(4294967294));
}

#[test]
fn face_corner_errors() {
    assert_eq!(corner("0"), Err(ObjError::ZeroIndex));
    assert_eq!(corner("0/1"), Err(ObjError::ZeroIndex));
    assert_eq!(corner(""), Err(ObjError::BadIndex));
    assert_eq!(corner("/3"), Err(ObjError::BadIndex));
    assert_eq!(corner("-1"), Err(ObjError::BadIndex));
    assert_eq!(corner("4294967296"), Err(ObjError::BadIndex));
    assert_eq!(corner("3a/1"), Err(ObjError::BadIndex));
}

#[test]
fn whole_triangles_only() {
    assert_eq!(triangle_indices(&vec![0, 1, 2, 2, 3, 0, 5]), vec![0, 1, 2, 2, 3, 0]);
    assert_eq!(triangle_indices(&vec![0, 1]), Vec::<u32>::new());
}
