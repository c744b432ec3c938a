use abyssal_eclipse::shape_data::ShapeData;

#[test]
fn cube_indices_form_two_triangles_per_face() {
    let indices = ShapeData::get_cube_indices();
    assert_eq!(indices.len(), 36);
    assert_eq!(&indices[0..6], &[0, 1, 2, 2, 3, 0]);
    assert_eq!(&indices[6..12], &[4, 5, 6, 6, 7, 4]);
    assert_eq!(&indices[30..36], &[20, 21, 22, 22, 23, 20]);
    assert_eq!(indices.iter().max(), Some(&23));
}
