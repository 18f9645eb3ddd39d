use exo_class_file::error::ClassFileError;
use exo_class_file::item::attribute_info::AttributesCollection;
use exo_class_file::item::constant_pool::ConstantPoolEntry;
use exo_class_file::item::file::{ClassAccessFlags, ClassFile};
use exo_class_file::item::opcodes::verify::CodeVerificationError;
use exo_class_file::item::opcodes::{InstructionList, VMOpcode};
use exo_class_file::item::ConstantPool;

fn file_with(entries: Vec<ConstantPoolEntry>) -> ClassFile {
    ClassFile {
        version: (52, 0),
        constant_pool: ConstantPool { entries },
        access_flags: ClassAccessFlags::from_bits(0x0021).unwrap(),
        this_class: 1,
        super_class: 0,
        interfaces: vec![],
        fields: vec![],
        methods: vec![],
        attributes: AttributesCollection::new(),
    }
}

fn code_of(opcodes: Vec<VMOpcode>) -> InstructionList {
    InstructionList { opcodes, byte_to_code: fnv::FnvHashMap::default(), code_to_byte: fnv::FnvHashMap::default() }
}

fn check(code: &InstructionList, file: &ClassFile, max_locals: usize) -> Result<(), CodeVerificationError> {
    assert!(code.static_verify_checkable(file, max_locals));
    code.static_verify(file, max_locals)
}

#[test]
fn verify_empty_code() {
    let file = file_with(vec![]);
    assert!(check(&code_of(vec![]), &file, 0).is_ok());
}

#[test]
fn verify_no_locals() {
    let file = file_with(vec![]);
    assert!(matches!(
        check(&code_of(vec![VMOpcode::nop()]), &file, 0),
        Err(CodeVerificationError::ClassFileError(ClassFileError::ArithmeticError))
    ));
}

#[test]
fn verify_branch_targets() {
    let file = file_with(vec![]);
    // targets are relative to the branch, and must be an instruction
    assert!(check(&code_of(vec![VMOpcode::goto(1), VMOpcode::nop()]), &file, 1).is_ok());
    assert!(check(&code_of(vec![VMOpcode::nop(), VMOpcode::goto(-1)]), &file, 1).is_ok());
    assert!(matches!(
        check(&code_of(vec![VMOpcode::goto(2), VMOpcode::nop()]), &file, 1),
        Err(CodeVerificationError::BranchLocOutOfBounds)
    ));
    assert!(matches!(
        check(&code_of(vec![VMOpcode::goto(-1), VMOpcode::nop()]), &file, 1),
        Err(CodeVerificationError::BranchLocOutOfBounds)
    ));
    assert!(matches!(
        check(&code_of(vec![VMOpcode::goto_w(9)]), &file, 1),
        Err(CodeVerificationError::BranchLocOutOfBounds)
    ));
    assert!(check(&code_of(vec![VMOpcode::nop(), VMOpcode::goto_w(0xFFFF_FFFF)]), &file, 1).is_ok());
}

#[test]
fn verify_switches() {
    let file = file_with(vec![]);
    assert!(matches!(
        check(&code_of(vec![VMOpcode::tableswitch(0, 5, 1, vec![])]), &file, 1),
        Err(CodeVerificationError::TableSwitchLowGtHigh)
    ));
    assert!(check(&code_of(vec![VMOpcode::tableswitch(0, 1, 2, vec![0, 1]), VMOpcode::nop()]), &file, 1).is_ok());
    assert!(matches!(
        check(&code_of(vec![VMOpcode::tableswitch(0, 1, 2, vec![0, 1])]), &file, 1),
        Err(CodeVerificationError::BranchLocOutOfBounds)
    ));
    assert!(matches!(
        check(&code_of(vec![VMOpcode::tableswitch(0, 1, 2, vec![0, 7])]), &file, 1),
        Err(CodeVerificationError::BranchLocOutOfBounds)
    ));
    assert!(matches!(
        check(&code_of(vec![VMOpcode::lookupswitch(0, vec![(5, 0), (2, 0)])]), &file, 1),
        Err(CodeVerificationError::LookupSwitchBadSort)
    ));
    assert!(check(&code_of(vec![VMOpcode::lookupswitch(1, vec![(2, 0), (5, 1)]), VMOpcode::nop()]), &file, 1).is_ok());
}

#[test]
fn verify_wide() {
    let file = file_with(vec![]);
    assert!(check(&code_of(vec![VMOpcode::wide_format1(Box::new(VMOpcode::iload(0)), 3)]), &file, 4).is_ok());
    assert!(matches!(
        check(&code_of(vec![VMOpcode::wide_format1(Box::new(VMOpcode::iload(0)), 3)]), &file, 3),
        Err(CodeVerificationError::LocalIndexOutOfRange)
    ));
    assert!(matches!(
        check(&code_of(vec![VMOpcode::wide_format2(Box::new(VMOpcode::iinc(0, 0)), 2, 7)]), &file, 2),
        Err(CodeVerificationError::LocalIndexOutOfRange)
    ));
    assert!(matches!(
        check(&code_of(vec![VMOpcode::wide_format1(Box::new(VMOpcode::nop()), 3)]), &file, 1),
        Err(CodeVerificationError::BadWideOp)
    ));
}

#[test]
fn verify_constant_loads() {
    let file = file_with(vec![
        ConstantPoolEntry::Integer { bytes: 4 },
        ConstantPoolEntry::Utf8 { data: "s".to_string() },
        ConstantPoolEntry::Long { bytes: 9 },
    ]);
    assert!(check(&code_of(vec![VMOpcode::ldc(1)]), &file, 1).is_ok());
    assert!(matches!(
        check(&code_of(vec![VMOpcode::ldc_w(2)]), &file, 1),
        Err(CodeVerificationError::BadConstantPoolType)
    ));
    assert!(matches!(
        check(&code_of(vec![VMOpcode::ldc_w(4)]), &file, 1),
        Err(CodeVerificationError::BadConstantPoolIndex)
    ));
    assert!(check(&code_of(vec![VMOpcode::ldc2_w(3)]), &file, 1).is_ok());
    assert!(!code_of(vec![VMOpcode::ldc(0)]).static_verify_checkable(&file, 1));
}

#[test]
fn verify_member_references() {
    let file = file_with(vec![
        ConstantPoolEntry::Methodref { class_index: 2, name_and_type_index: 3 },
        ConstantPoolEntry::InterfaceMethodref { class_index: 2, name_and_type_index: 3 },
        ConstantPoolEntry::Fieldref { class_index: 2, name_and_type_index: 3 },
    ]);
    assert!(matches!(
        check(&code_of(vec![VMOpcode::invokevirtual(1)]), &file, 1),
        Err(CodeVerificationError::WrongConstantType)
    ));
    assert!(matches!(
        check(&code_of(vec![VMOpcode::invokevirtual(2)]), &file, 1),
        Err(CodeVerificationError::BadConstantPoolType)
    ));
    assert!(matches!(
        check(&code_of(vec![VMOpcode::invokeinterface(2, 1, 5)]), &file, 1),
        Err(CodeVerificationError::InvokeInterfaceNotZero)
    ));
    assert!(check(&code_of(vec![VMOpcode::getfield(3)]), &file, 1).is_ok());
}

#[test]
fn verify_class_uses() {
    let file = file_with(vec![
        ConstantPoolEntry::Class { name_index: 2 },
        ConstantPoolEntry::Utf8 { data: "java/lang/Object".to_string() },
        ConstantPoolEntry::Class { name_index: 4 },
        ConstantPoolEntry::Integer { bytes: 1 },
    ]);
    assert!(check(&code_of(vec![VMOpcode::new(1)]), &file, 1).is_ok());
    assert!(check(&code_of(vec![VMOpcode::anewarray(1)]), &file, 1).is_ok());
    assert!(check(&code_of(vec![VMOpcode::checkcast(1)]), &file, 1).is_ok());
    assert!(matches!(
        check(&code_of(vec![VMOpcode::new(3)]), &file, 1),
        Err(CodeVerificationError::ClassFileError(ClassFileError::ExpectedString))
    ));
    assert!(matches!(
        check(&code_of(vec![VMOpcode::multianewarray(1, 0)]), &file, 1),
        Err(CodeVerificationError::BadMultiANewArray)
    ));
    assert!(matches!(
        check(&code_of(vec![VMOpcode::instanceof(4)]), &file, 1),
        Err(CodeVerificationError::BadConstantPoolType)
    ));
}

#[test]
fn verify_stops_at_the_first_failure() {
    let file = file_with(vec![]);
    assert!(matches!(
        check(&code_of(vec![VMOpcode::nop(), VMOpcode::goto(9), VMOpcode::wide_format1(Box::new(VMOpcode::nop()), 0)]), &file, 1),
        Err(CodeVerificationError::BranchLocOutOfBounds)
    ));
}

#[test]
fn verify_invocations() {
    let u = |s: &str| ConstantPoolEntry::Utf8 { data: s.to_string() };
    let file = file_with(vec![
        ConstantPoolEntry::Class { name_index: 2 },
        u("C"),
        ConstantPoolEntry::NameAndType { name_index: 4, descriptor_index: 5 },
        u("foo"),
        u("()V"),
        ConstantPoolEntry::Methodref { class_index: 1, name_and_type_index: 3 },
        ConstantPoolEntry::InterfaceMethodref { class_index: 1, name_and_type_index: 3 },
        ConstantPoolEntry::NameAndType { name_index: 9, descriptor_index: 5 },
        u("<init>"),
        ConstantPoolEntry::Methodref { class_index: 1, name_and_type_index: 8 },
        ConstantPoolEntry::NameAndType { name_index: 12, descriptor_index: 13 },
        u("bar"),
        u("(II)V"),
        ConstantPoolEntry::InterfaceMethodref { class_index: 1, name_and_type_index: 11 },
    ]);
    assert!(check(&code_of(vec![VMOpcode::invokevirtual(6)]), &file, 1).is_ok());
    assert!(check(&code_of(vec![VMOpcode::invokestatic(6)]), &file, 1).is_ok());
    assert!(check(&code_of(vec![VMOpcode::invokespecial(10)]), &file, 1).is_ok());
    assert!(matches!(
        check(&code_of(vec![VMOpcode::invokevirtual(10)]), &file, 1),
        Err(CodeVerificationError::BadMethodName)
    ));
    assert!(matches!(
        check(&code_of(vec![VMOpcode::invokestatic(10)]), &file, 1),
        Err(CodeVerificationError::BadMethodName)
    ));
    assert!(check(&code_of(vec![VMOpcode::invokeinterface(7, 0, 0)]), &file, 1).is_ok());
    assert!(check(&code_of(vec![VMOpcode::invokeinterface(14, 2, 0)]), &file, 1).is_ok());
    assert!(matches!(
        check(&code_of(vec![VMOpcode::invokeinterface(14, 1, 0)]), &file, 1),
        Err(CodeVerificationError::InvokeInterfaceBadCount)
    ));
}

#[test]
fn verify_local_indices() {
    let file = file_with(vec![]);
    assert!(check(&code_of(vec![VMOpcode::iload(0), VMOpcode::istore(1)]), &file, 2).is_ok());
    assert!(matches!(
        check(&code_of(vec![VMOpcode::iload(2)]), &file, 2),
        Err(CodeVerificationError::LocalIndexOutOfRange)
    ));
    // a long takes two slots
    assert!(check(&code_of(vec![VMOpcode::lload(0)]), &file, 2).is_ok());
    assert!(matches!(
        check(&code_of(vec![VMOpcode::lload(1)]), &file, 2),
        Err(CodeVerificationError::LocalIndexOutOfRange)
    ));
    assert!(matches!(
        check(&code_of(vec![VMOpcode::dstore_3()]), &file, 4),
        Err(CodeVerificationError::LocalIndexOutOfRange)
    ));
    assert!(check(&code_of(vec![VMOpcode::aload_3()]), &file, 4).is_ok());
    assert!(matches!(
        check(&code_of(vec![VMOpcode::iinc(5, 1)]), &file, 5),
        Err(CodeVerificationError::LocalIndexOutOfRange)
    ));
}
