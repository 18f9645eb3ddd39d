use exo_class_file::structure::{FieldDef, OffsetSize, StructureBuilder, StructureDef};

fn field(name: &str, size: usize, align: usize, tag: u32) -> FieldDef<u32> {
    FieldDef { size, align, name: name.to_string(), fns: tag }
}

fn pieces(def: &StructureDef<u32>) -> Vec<(usize, usize)> {
    def.fields().iter().map(|p| (p.offset, p.size)).collect()
}

fn index_of(def: &StructureDef<u32>, name: &str) -> Option<(usize, u32)> {
    def.native_field(name).map(|d| (d.field_index, d.fns))
}

#[test]
fn structure_largest_first_with_end_padding() {
    let def = StructureBuilder::new()
        .add_field(field("a", 8, 8, 1))
        .add_field(field("b", 1, 1, 2))
        .add_field(field("c", 4, 4, 3))
        .build();
    assert_eq!(def.size(), 16);
    assert_eq!(def.align(), 8);
    assert_eq!(pieces(&def), vec![(0, 8), (8, 4), (12, 1), (13, 3)]);
    assert_eq!(index_of(&def, "a"), Some((0, 1)));
    assert_eq!(index_of(&def, "c"), Some((1, 3)));
    assert_eq!(index_of(&def, "b"), Some((2, 2)));
    assert_eq!(index_of(&def, "d"), None);
}

#[test]
fn structure_padding_aligns_the_field() {
    // after 3 bytes, one byte of padding puts the second field at offset 4
    let def = StructureBuilder::new()
        .add_field(field("q", 2, 2, 0))
        .add_field(field("p", 3, 1, 0))
        .build();
    assert_eq!(pieces(&def), vec![(0, 3), (3, 1), (4, 2)]);
    assert_eq!(def.size(), 6);
    assert_eq!(def.align(), 2);
    assert_eq!(index_of(&def, "p"), Some((0, 0)));
    assert_eq!(index_of(&def, "q"), Some((2, 0)));
}

#[test]
fn structure_equal_sizes_keep_their_order() {
    let def = StructureBuilder::new()
        .add_field(field("x", 4, 4, 0))
        .add_field(field("y", 4, 4, 0))
        .add_field(field("z", 8, 8, 0))
        .build();
    assert_eq!(pieces(&def), vec![(0, 8), (8, 4), (12, 4)]);
    assert_eq!(index_of(&def, "z").map(|p| p.0), Some(0));
    assert_eq!(index_of(&def, "x").map(|p| p.0), Some(1));
    assert_eq!(index_of(&def, "y").map(|p| p.0), Some(2));
    assert_eq!(def.size(), 16);
}

#[test]
fn structure_repeated_name_keeps_the_last() {
    let def = StructureBuilder::new()
        .add_field(field("a", 1, 1, 5))
        .add_field(field("a", 2, 2, 6))
        .build();
    assert_eq!(pieces(&def), vec![(0, 2), (2, 1), (3, 1)]);
    assert_eq!(index_of(&def, "a"), Some((1, 5)));
    assert_eq!(def.size(), 4);
}

#[test]
fn structure_pieces_cover_the_size() {
    let def = StructureBuilder::new()
        .add_field(field("a", 3, 4, 0))
        .add_field(field("b", 5, 2, 0))
        .add_field(field("c", 1, 8, 0))
        .add_field(field("d", 2, 1, 0))
        .build();
    let mut end = 0;
    for p in def.fields() {
        assert_eq!(p.offset, end);
        end += p.size;
    }
    assert_eq!(end, def.size());
    assert_eq!(pieces(&def), vec![(0, 5), (5, 3), (8, 3), (11, 2), (13, 3), (16, 1), (17, 7)]);
    assert_eq!(index_of(&def, "a").map(|p| p.0), Some(2));
    assert_eq!(index_of(&def, "c").map(|p| p.0), Some(5));
    assert_eq!(def.align(), 8);
    assert_eq!(def.size() % def.align(), 0);
}

#[test]
fn structure_field_of_a_type() {
    let f: FieldDef<()> = FieldDef::new::<u64>("n".to_string(), ());
    assert_eq!(f.size, std::mem::size_of::<u64>());
    assert_eq!(f.align, std::mem::align_of::<u64>());
    assert_eq!(f.name, "n");
    let g: FieldDef<()> = FieldDef::new::<u8>("m".to_string(), ());
    assert_eq!((g.size, g.align), (1, 1));
    let b: StructureBuilder<()> = StructureBuilder::default();
    assert!(b.fields.is_empty());
}

#[test]
fn structure_offset_size_compares_by_fields() {
    let a = OffsetSize { offset: 0, size: 4 };
    let b = OffsetSize { offset: 4, size: 1 };
    assert!(a < b);
    assert_eq!(a, OffsetSize { offset: 0, size: 4 });
}
