use exo_class_file::error::ClassFileError;
use exo_class_file::item::constant_pool::{ConstantPoolEntry, IndexVerificationErrorType, RefKind};
use exo_class_file::item::file::{ClassAccessFlags, ClassFile};
use exo_class_file::item::attribute_info::{ExceptionTableEntry, LocalVariableTableEntry, StackMapFrame};
use exo_class_file::item::constant_pool::structure::ConstantPoolVerificationError;
use exo_class_file::item::ids::UnqualifiedName;
use exo_class_file::item::{ClassFileItem, ConstantPool};
use exo_class_file::stream::ClassFileStream;

#[test]
fn stream_reads_big_endian() {
    let mut s = ClassFileStream::new(vec![0x12, 0x34, 0x56, 0x78, 0x9a, 0x01, 0x02]);
    assert_eq!(s.read_u4().unwrap(), 0x1234_5678);
    assert_eq!(s.read_u1().unwrap(), 0x9a);
    assert_eq!(s.read_u2().unwrap(), 0x0102);
    assert!(s.is_empty());
    match s.read_u1() {
        Err(ClassFileError::IoError(_)) => {}
        _ => panic!("expected the end of the stream"),
    }
}

#[test]
fn stream_reads_arrays_and_runs() {
    let mut s = ClassFileStream::new(vec![1, 2, 3, 4, 5]);
    let a: [u8; 3] = s.read::<3>().unwrap();
    assert_eq!(a, [1, 2, 3]);
    assert_eq!(s.position(), 3);
    assert_eq!(s.read_dynamic(2).unwrap(), vec![4, 5]);
    assert!(s.read_dynamic(1).is_err());
}

#[test]
fn ref_kind_decodes_one_to_nine() {
    assert!(matches!(RefKind::decode(1), Ok(RefKind::REF_getField)));
    assert!(matches!(RefKind::decode(9), Ok(RefKind::REF_invokeInterface)));
    assert!(matches!(RefKind::decode(0), Err(ClassFileError::UnknownReferenceKind(0))));
    assert!(matches!(RefKind::decode(10), Err(ClassFileError::UnknownReferenceKind(10))));
}

#[test]
fn constant_pool_entries_are_read() {
    // Utf8 "hi", then Integer 7.
    let mut s = ClassFileStream::new(vec![1, 0, 2, b'h', b'i', 3, 0, 0, 0, 7]);
    match ConstantPoolEntry::read_from_stream(&mut s, None).unwrap() {
        ConstantPoolEntry::Utf8 { data } => assert_eq!(data, "hi"),
        _ => panic!("expected a Utf8 entry"),
    }
    match ConstantPoolEntry::read_from_stream(&mut s, None).unwrap() {
        ConstantPoolEntry::Integer { bytes } => assert_eq!(bytes, 7),
        _ => panic!("expected an Integer entry"),
    }
}

#[test]
fn constant_pool_unknown_tag() {
    let mut s = ClassFileStream::new(vec![2, 0, 0]);
    assert!(matches!(
        ConstantPoolEntry::read_from_stream(&mut s, None),
        Err(ClassFileError::UnknownConstantPoolTag(2))
    ));
}

#[test]
fn constant_pool_bad_utf8() {
    let mut s = ClassFileStream::new(vec![1, 0, 1, 0xff]);
    assert!(matches!(
        ConstantPoolEntry::read_from_stream(&mut s, None),
        Err(ClassFileError::InvalidUTF8Error(_))
    ));
}

#[test]
fn constant_pool_count_is_one_more_than_entries() {
    // Count 3: two entries, a class naming entry 2 and the name "A".
    let mut s = ClassFileStream::new(vec![0, 3, 7, 0, 2, 1, 0, 1, b'A']);
    let pool = ConstantPool::read_from_stream(&mut s, None).unwrap();
    assert_eq!(pool.entries.len(), 2);
    assert_eq!(pool.get_utf8_constant(2).unwrap(), "A");
    assert!(matches!(pool.get_utf8_constant(1), Err(ClassFileError::ExpectedString)));
    assert!(matches!(pool.get_constant(1), ConstantPoolEntry::Class { name_index: 2 }));
}

fn minimal_class(flags: u16) -> Vec<u8> {
    let mut b = vec![0xca, 0xfe, 0xba, 0xbe, 0, 3, 0, 52];
    // constant pool: count 3, Class #2, Utf8 "A"
    b.extend_from_slice(&[0, 3, 7, 0, 2, 1, 0, 1, b'A']);
    b.extend_from_slice(&flags.to_be_bytes());
    // this_class 1, super_class 0, no interfaces, fields, methods or attributes
    b.extend_from_slice(&[0, 1, 0, 0, 0, 0, 0, 0, 0, 0, 0, 0]);
    b
}

#[test]
fn class_file_minimal() {
    let mut s = ClassFileStream::new(minimal_class(0x0021));
    let f = ClassFile::read_from_stream(&mut s, None).unwrap();
    assert_eq!(f.version, (52, 3));
    assert_eq!(f.this_class, 1);
    assert_eq!(f.super_class, 0);
    assert_eq!(f.access_flags.bits(), 0x0021);
    assert!(f.interfaces.is_empty());
    assert!(f.fields.is_empty());
    assert!(f.methods.is_empty());
    assert_eq!(f.constant_pool.entries.len(), 2);
    assert!(f.constant_pool.indices_checkable());
    assert!(f.constant_pool.verify_cp_index_types().is_ok());
    assert!(f.constant_pool.verify_structure(&f).is_ok());
}

#[test]
fn class_file_bad_magic() {
    let mut bytes = minimal_class(0x0021);
    bytes[0] = 0;
    let mut s = ClassFileStream::new(bytes);
    assert!(matches!(
        ClassFile::read_from_stream(&mut s, None),
        Err(ClassFileError::BadMagicNumber(0x00fe_babe))
    ));
}

#[test]
fn class_file_bad_access_flags() {
    let mut s = ClassFileStream::new(minimal_class(0x8000));
    assert!(matches!(ClassFile::read_from_stream(&mut s, None), Err(ClassFileError::BadClassAccessFlags)));
}

#[test]
fn class_file_truncated() {
    let mut bytes = minimal_class(0x0021);
    bytes.truncate(20);
    let mut s = ClassFileStream::new(bytes);
    assert!(matches!(ClassFile::read_from_stream(&mut s, None), Err(ClassFileError::IoError(_))));
}

#[test]
fn index_verification_names_the_entry() {
    let pool = ConstantPool {
        entries: vec![ConstantPoolEntry::Class { name_index: 1 }],
    };
    assert!(pool.indices_checkable());
    let e = pool.verify_cp_index_types().unwrap_err();
    assert_eq!(e.index, 0);
    assert_eq!(e.ty, IndexVerificationErrorType::ClassNameIndexNotUTF8);
}

#[test]
fn index_verification_string_and_name_and_type() {
    let pool = ConstantPool {
        entries: vec![
            ConstantPoolEntry::Utf8 { data: "x".to_string() },
            ConstantPoolEntry::String { string_index: 1 },
            ConstantPoolEntry::NameAndType { name_index: 1, descriptor_index: 2 },
        ],
    };
    let e = pool.verify_cp_index_types().unwrap_err();
    assert_eq!(e.index, 2);
    assert_eq!(e.ty, IndexVerificationErrorType::NameAndTypeDescriptorIndexNotUTF8);
}

#[test]
fn index_verification_out_of_pool_is_not_checkable() {
    let pool = ConstantPool {
        entries: vec![ConstantPoolEntry::Class { name_index: 5 }],
    };
    assert!(!pool.indices_checkable());
}

#[test]
fn unqualified_names() {
    assert_eq!(UnqualifiedName::new("value".to_string()).unwrap().0, "value");
    // The name stops at a banned character or at white space.
    assert_eq!(UnqualifiedName::new("a.b".to_string()).unwrap().0, "a");
    assert_eq!(UnqualifiedName::new("ab;c".to_string()).unwrap().0, "ab");
    assert_eq!(UnqualifiedName::new("x y".to_string()).unwrap().0, "x");
    assert!(UnqualifiedName::new("[b".to_string()).is_none());
    assert!(UnqualifiedName::new("/b".to_string()).is_none());
    assert!(UnqualifiedName::new(String::new()).is_none());
}

use exo_class_file::item::attribute_info::{Attributes, AttributesCollection};

fn attribute_pool() -> ConstantPool {
    ConstantPool {
        entries: vec![
            ConstantPoolEntry::Utf8 { data: "Deprecated".to_string() },
            ConstantPoolEntry::Utf8 { data: "SourceFile".to_string() },
            ConstantPoolEntry::Utf8 { data: "Unknown".to_string() },
        ],
    }
}

#[test]
fn attributes_are_grouped_by_name() {
    let pool = attribute_pool();
    let bytes = vec![
        0, 3, // three attributes
        0, 1, 0, 0, 0, 0, // Deprecated
        0, 2, 0, 0, 0, 2, 0, 1, // SourceFile, index 1
        0, 1, 0, 0, 0, 0, // Deprecated again
    ];
    let mut s = ClassFileStream::new(bytes);
    let mut attrs = AttributesCollection::read_from_stream(&mut s, Some(&pool)).unwrap();
    assert!(s.is_empty());
    assert_eq!(attrs.collection.len(), 2);
    assert_eq!(attrs.get("Deprecated").len(), 2);
    match attrs.get("SourceFile") {
        [Attributes::SourceFile { sourcefile_index: 1 }] => {}
        other => panic!("unexpected {:?}", other),
    }
    assert!(attrs.get("Code").is_empty());
    let taken = attrs.take("Deprecated");
    assert_eq!(taken.len(), 2);
    assert!(attrs.get("Deprecated").is_empty());
    assert_eq!(attrs.get("SourceFile").len(), 1);
    assert_eq!(attrs.collection.len(), 1);
    assert!(attrs.take("Deprecated").is_empty());
}

#[test]
fn attributes_unknown_name() {
    let pool = attribute_pool();
    let mut s = ClassFileStream::new(vec![0, 1, 0, 3, 0, 0, 0, 0]);
    match AttributesCollection::read_from_stream(&mut s, Some(&pool)) {
        Err(ClassFileError::UnknownAttribute(name)) => assert_eq!(name, "Unknown"),
        other => panic!("unexpected {:?}", other.is_ok()),
    }
}

#[test]
fn attributes_name_not_a_string() {
    let pool = ConstantPool { entries: vec![ConstantPoolEntry::Integer { bytes: 0 }] };
    let mut s = ClassFileStream::new(vec![0, 1, 0, 1, 0, 0, 0, 0]);
    assert!(matches!(
        AttributesCollection::read_from_stream(&mut s, Some(&pool)),
        Err(ClassFileError::ExpectedString)
    ));
}

#[test]
fn stream_stays_on_a_failed_read() {
    let mut s = ClassFileStream::new(vec![1, 2]);
    assert!(s.read::<3>().is_err());
    assert_eq!(s.position(), 0);
    assert!(s.read_dynamic(5).is_err());
    assert_eq!(s.position(), 0);
    assert_eq!(s.read_u1().unwrap(), 1);
}

fn handle_pool(name: &str) -> ConstantPool {
    ConstantPool {
        entries: vec![
            ConstantPoolEntry::Utf8 { data: name.to_string() },
            ConstantPoolEntry::Utf8 { data: "()V".to_string() },
            ConstantPoolEntry::NameAndType { name_index: 1, descriptor_index: 2 },
            ConstantPoolEntry::Utf8 { data: "C".to_string() },
            ConstantPoolEntry::Class { name_index: 4 },
            ConstantPoolEntry::Methodref { class_index: 5, name_and_type_index: 3 },
            ConstantPoolEntry::MethodHandle { reference_kind: RefKind::REF_newInvokeSpecial, reference_index: 6 },
        ],
    }
}

#[test]
fn method_handle_new_invoke_special_names_init() {
    let pool = handle_pool("foo");
    assert!(pool.indices_checkable());
    let e = pool.verify_cp_index_types().unwrap_err();
    assert_eq!(e.index, 6);
    assert_eq!(e.ty, IndexVerificationErrorType::MethodHandleReferenceIndexBadType);
    let pool = handle_pool("<init>");
    assert!(pool.verify_cp_index_types().is_ok());
}

fn bootstrap_class(index: u16) -> ClassFile {
    let pool = ConstantPool {
        entries: vec![
            ConstantPoolEntry::Utf8 { data: "BootstrapMethods".to_string() },
            ConstantPoolEntry::NameAndType { name_index: 3, descriptor_index: 4 },
            ConstantPoolEntry::Utf8 { data: "run".to_string() },
            ConstantPoolEntry::Utf8 { data: "()V".to_string() },
            ConstantPoolEntry::InvokeDynamic { bootstrap_method_attr_index: index, name_and_type_index: 2 },
        ],
    };
    // one attribute: BootstrapMethods with one method (reference 5, no arguments)
    let mut s = ClassFileStream::new(vec![0, 1, 0, 1, 0, 0, 0, 6, 0, 1, 0, 5, 0, 0]);
    let attributes = AttributesCollection::read_from_stream(&mut s, Some(&pool)).unwrap();
    ClassFile {
        version: (52, 0),
        constant_pool: pool,
        access_flags: ClassAccessFlags::from_bits(0x0021).unwrap(),
        this_class: 1,
        super_class: 0,
        interfaces: vec![],
        fields: vec![],
        methods: vec![],
        attributes,
    }
}

#[test]
fn bootstrap_index_must_name_a_method() {
    let f = bootstrap_class(0);
    assert!(f.constant_pool.verify_structure(&f).is_ok());
    let f = bootstrap_class(1);
    assert!(matches!(
        f.constant_pool.verify_structure(&f),
        Err(ConstantPoolVerificationError::InvokeDynamicInvalidBootstrapMethodsIndex)
    ));
}

#[test]
fn stack_map_frame_tags_are_closed_ranges() {
    let mut s = ClassFileStream::new(vec![63]);
    assert!(matches!(StackMapFrame::read_from_stream(&mut s, None), Ok(StackMapFrame::SameFrame)));
    let mut s = ClassFileStream::new(vec![127, 0]);
    assert!(matches!(StackMapFrame::read_from_stream(&mut s, None), Ok(StackMapFrame::SameLocals1StackItemFrame { .. })));
    let mut s = ClassFileStream::new(vec![250, 0, 7]);
    assert!(matches!(StackMapFrame::read_from_stream(&mut s, None), Ok(StackMapFrame::ChopFrame { offset_delta: 7 })));
    let mut s = ClassFileStream::new(vec![254, 0, 1, 0, 0, 0]);
    match StackMapFrame::read_from_stream(&mut s, None) {
        Ok(StackMapFrame::AppendFrame { offset_delta, locals }) => {
            assert_eq!(offset_delta, 1);
            assert_eq!(locals.len(), 3);
        },
        other => panic!("unexpected {:?}", other),
    }
    let mut s = ClassFileStream::new(vec![128]);
    assert!(matches!(StackMapFrame::read_from_stream(&mut s, None), Err(ClassFileError::UnknownStackMapFrameTag(128))));
}

#[test]
fn exception_table_range_is_half_open() {
    let mut s = ClassFileStream::new(vec![0, 0, 0, 4, 0, 9, 0, 0]);
    let e = ExceptionTableEntry::read_from_stream(&mut s, None).unwrap();
    assert_eq!(e.pc_range, 0..4);
    assert!(!e.pc_range.contains(&4));
    assert_eq!(e.handler_pc, 9);
    assert_eq!(e.catch_type, 0);
}

#[test]
fn local_variable_range_is_start_plus_length() {
    let mut s = ClassFileStream::new(vec![0, 2, 0, 3, 0, 4, 0, 5, 0, 1]);
    let e = LocalVariableTableEntry::read_from_stream(&mut s, None).unwrap();
    assert_eq!(e.pc_range, 2..5);
    assert_eq!((e.name_index, e.descriptor_index, e.index), (4, 5, 1));
    let mut s = ClassFileStream::new(vec![0xff, 0xff, 0, 2, 0, 4, 0, 5, 0, 1]);
    assert!(matches!(LocalVariableTableEntry::read_from_stream(&mut s, None), Err(ClassFileError::ArithmeticError)));
}
