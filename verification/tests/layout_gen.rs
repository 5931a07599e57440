use render_core::layout::compute_offsets;
use render_core::AttributeKind;
use render_core::FieldDecl;
use render_core::LayoutError;
use render_core::LocationTag;
use render_core::RecordDecl;
use render_core::RecordShape;
use render_core::ShapeFault;
use render_core::Vertex;
use render_core::VertexLayout;

fn field(name: &str, kind: AttributeKind, location: Option<LocationTag>) -> FieldDecl {
    FieldDecl { name: name.to_owned(), kind, location }
}

fn record(fields: Vec<FieldDecl>) -> RecordDecl {
    RecordDecl { name: "Vertex".to_owned(), shape: RecordShape::Fields(fields) }
}

#[test]
fn offsets_recurrence_concrete() {
    let sizes = vec![12usize, 12, 8];
    let (offsets, stride) = compute_offsets(&sizes);
    assert_eq!(offsets[0], 0);
    for i in 1..sizes.len() {
        assert_eq!(offsets[i], offsets[i - 1] + sizes[i - 1]);
    }
    assert_eq!(stride, 32);
}

#[test]
fn two_vec3_record_offsets() {
    let decl = record(vec![
        field("pos", AttributeKind::Vector3, Some(LocationTag::IntLiteral(0))),
        field("clr", AttributeKind::Vector3, Some(LocationTag::IntLiteral(1))),
    ]);
    let layout = render_core::layout::build_layout(&decl).unwrap();
    assert_eq!(layout.fields.len(), 2);
    assert_eq!(layout.fields[0].offset, 0);
    assert_eq!(layout.fields[0].location, 0);
    assert_eq!(layout.fields[1].offset, 12);
    assert_eq!(layout.fields[1].location, 1);
    assert_eq!(layout.stride, 24);
}

#[test]
fn four_field_record_offsets() {
    let sizes = vec![8usize, 12, 16, 4];
    let (offsets, stride) = compute_offsets(&sizes);
    assert_eq!(offsets, vec![0, 8, 20, 36]);
    assert_eq!(stride, 40);
}

#[test]
fn vertex_record_layout_matches_generator() {
    let layout: VertexLayout = Vertex::<f32>::layout();
    assert_eq!(layout.stride, 24);
    assert_eq!(layout.fields.len(), 2);
    assert_eq!(layout.fields[0].offset, 0);
    assert_eq!(layout.fields[1].offset, 12);

    let built = render_core::layout::build_layout(&Vertex::<f32>::record_decl()).unwrap();
    assert_eq!(built, layout);
}

#[test]
fn missing_location_cites_field() {
    let decl = record(vec![
        field("pos", AttributeKind::Vector3, Some(LocationTag::IntLiteral(0))),
        field("clr", AttributeKind::Vector3, None),
    ]);
    let err = render_core::layout::build_layout(&decl).unwrap_err();
    assert_eq!(err, LayoutError::MissingLocation { field: "clr".to_owned() });
}

#[test]
fn non_integer_location_cites_field() {
    let decl = record(vec![
        field("pos", AttributeKind::Vector3, Some(LocationTag::Other)),
        field("clr", AttributeKind::Vector3, Some(LocationTag::IntLiteral(1))),
    ]);
    let err = render_core::layout::build_layout(&decl).unwrap_err();
    assert_eq!(err, LayoutError::InvalidLocation { field: "pos".to_owned() });
}

#[test]
fn first_offending_field_is_cited() {
    let decl = record(vec![
        field("a", AttributeKind::Vector2, None),
        field("b", AttributeKind::Vector2, Some(LocationTag::Other)),
    ]);
    let err = render_core::layout::build_layout(&decl).unwrap_err();
    assert_eq!(err, LayoutError::MissingLocation { field: "a".to_owned() });
}

#[test]
fn choice_shape_rejected() {
    let decl = RecordDecl { name: "E".to_owned(), shape: RecordShape::Choice };
    let err = render_core::layout::build_layout(&decl).unwrap_err();
    assert_eq!(err, LayoutError::UnsupportedShape { shape: ShapeFault::Choice });
}

#[test]
fn positional_shape_rejected() {
    let decl = RecordDecl { name: "T".to_owned(), shape: RecordShape::Positional };
    let err = render_core::layout::build_layout(&decl).unwrap_err();
    assert_eq!(err, LayoutError::UnsupportedShape { shape: ShapeFault::Positional });
}

#[test]
fn unit_shape_rejected() {
    let decl = RecordDecl { name: "U".to_owned(), shape: RecordShape::Unit };
    let err = render_core::layout::build_layout(&decl).unwrap_err();
    assert_eq!(err, LayoutError::UnsupportedShape { shape: ShapeFault::Unit });
}

#[test]
fn empty_record_rejected() {
    let decl = record(Vec::new());
    let err = render_core::layout::build_layout(&decl).unwrap_err();
    assert_eq!(err, LayoutError::UnsupportedShape { shape: ShapeFault::Empty });
}

#[test]
fn duplicate_locations_are_kept_in_order() {
    let decl = record(vec![
        field("a", AttributeKind::Vector2, Some(LocationTag::IntLiteral(5))),
        field("b", AttributeKind::Vector4, Some(LocationTag::IntLiteral(5))),
    ]);
    let layout = render_core::layout::build_layout(&decl).unwrap();
    assert_eq!(layout.fields[0].location, 5);
    assert_eq!(layout.fields[1].location, 5);
    assert_eq!(layout.fields[0].offset, 0);
    assert_eq!(layout.fields[1].offset, 8);
    assert_eq!(layout.stride, 24);
}
