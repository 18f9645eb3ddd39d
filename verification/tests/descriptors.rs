use exo_class_file::item::ids::class::{ClassName, ClassRefName};
use exo_class_file::item::ids::field::{BaseType, FieldType, ObjectType};
use exo_class_file::item::ids::method::{MethodDescriptor, MethodName, ReturnDescriptor};
use exo_class_file::parser::error::ParsingErrorType;
use exo_class_file::parser::tokenimpl::{Alphanumeric, Char, Numeric, Whitespace};
use exo_class_file::parser::tokens::{Lexer, LexerStream, Parseable};

fn stream(s: &str) -> LexerStream {
    Lexer::stream(Lexer::new(), s.to_string())
}

#[test]
fn class_name_with_package() {
    let mut s = stream("java/lang/Object");
    let t = s.token::<ClassName>().unwrap();
    assert_eq!(t.token.package, vec!["java".to_string(), "lang".to_string()]);
    assert_eq!(t.token.class_name, "Object");
    assert!(t.token.inner_class.is_none());
    assert_eq!(t.start, 0);
    assert_eq!(t.end, 16);
    assert!(s.ended());
}

#[test]
fn class_ref_names() {
    let mut s = stream("[I");
    match s.token::<ClassRefName>().unwrap().token {
        ClassRefName::Array(FieldType::ArrayType(a)) => assert_eq!(*a.0, FieldType::BaseType(BaseType::Int)),
        other => panic!("unexpected {:?}", other),
    }
    let mut s = stream("A");
    match s.token::<ClassRefName>().unwrap().token {
        ClassRefName::Class(c) => assert_eq!(c.class_name, "A"),
        other => panic!("unexpected {:?}", other),
    }
}

#[test]
fn field_types() {
    let mut s = stream("Z");
    assert_eq!(s.token::<FieldType>().unwrap().token, FieldType::BaseType(BaseType::Boolean));
    let mut s = stream("[[J");
    match s.token::<FieldType>().unwrap().token {
        FieldType::ArrayType(outer) => match *outer.0 {
            FieldType::ArrayType(inner) => assert_eq!(*inner.0, FieldType::BaseType(BaseType::Long)),
            other => panic!("unexpected {:?}", other),
        },
        other => panic!("unexpected {:?}", other),
    }
    let mut s = stream("Ljava/lang/String;");
    match s.token::<FieldType>().unwrap().token {
        FieldType::ObjectType(o) => {
            assert_eq!(o.class_name.class_name, "String");
            assert_eq!(o.class_name.package.len(), 2);
        },
        other => panic!("unexpected {:?}", other),
    }
    assert!(s.ended());
    let mut s = stream("Q");
    assert!(s.token::<FieldType>().is_err());
}

#[test]
fn method_descriptors() {
    let mut s = stream("(IJ)V");
    let d = s.token::<MethodDescriptor>().unwrap().token;
    assert_eq!(d.parameters, vec![FieldType::BaseType(BaseType::Int), FieldType::BaseType(BaseType::Long)]);
    assert!(matches!(d.return_desc, ReturnDescriptor::Void(_)));
    let mut s = stream("([Ljava/lang/String;)D");
    let d = s.token::<MethodDescriptor>().unwrap().token;
    assert_eq!(d.parameters.len(), 1);
    assert_eq!(d.return_desc, ReturnDescriptor::Field(FieldType::BaseType(BaseType::Double)));
    let mut s = stream("(I");
    assert!(s.token::<MethodDescriptor>().is_err());
}

#[test]
fn method_names() {
    let mut s = stream("<init>");
    assert_eq!(s.token::<MethodName>().unwrap().token, MethodName::Init);
    let mut s = stream("<clinit>");
    assert_eq!(s.token::<MethodName>().unwrap().token, MethodName::Clinit);
    let mut s = stream("main");
    match s.token::<MethodName>().unwrap().token {
        MethodName::Generic(n) => assert_eq!(n.0, "main"),
        other => panic!("unexpected {:?}", other),
    }
}

#[test]
fn character_tokens() {
    let mut s = stream("a1 ");
    assert!(s.token::<Char<0x61>>().is_ok());
    assert!(s.token::<Char<0x61>>().is_err());
    assert_eq!(s.token::<Numeric>().unwrap().token.0, '1');
    assert!(s.token::<Whitespace>().is_ok());
    assert!(s.ended());
    let mut s = stream("x");
    assert_eq!(s.token::<Alphanumeric>().unwrap().token.0, 'x');
    match s.char() {
        Err(e) => assert!(matches!(e.error_type, ParsingErrorType::EOSError)),
        Ok(c) => panic!("unexpected {:?}", c),
    }
}

#[test]
fn lexer_names_no_token_between_tokens() {
    let lexer = Lexer::new();
    assert!(lexer.currently_parsing().is_none());
    assert!(lexer.currently_parsing_list().is_empty());
}

use exo_class_file::parser::error::ParsingError;

#[test]
fn parsing_error_texts() {
    assert_eq!(ParsingErrorType::EOSError.to_string(), "parsing error: end of stream");
    assert_eq!(ParsingErrorType::TokenizerError("bad".to_string()).to_string(), "parsing error: bad");
    assert_eq!(ParsingErrorType::GenericError(String::new()).to_string(), "\"\"");
    let e = ParsingError::new(ParsingErrorType::EOSError, vec![], 12);
    assert_eq!(e.to_string(), "ParsingError(parsing error: end of stream, position(12))");
}

#[test]
fn token_names() {
    assert_eq!(Alphanumeric::name(), "exo_class_file::parser::tokenimpl::Alphanumeric");
    assert_eq!(Whitespace::name(), "exo_class_file::parser::tokenimpl::Whitespace");
    assert_eq!(Char::<0x61>::name(), "exo_class_file::parser::tokenimpl::Char<'a'>");
    assert_eq!(Char::<0x0a>::name(), "exo_class_file::parser::tokenimpl::Char<'\\n'>");
    assert_eq!(FieldType::name(), "exo_class_file::item::ids::field::FieldType");
    assert_eq!(ClassName::name(), "exo_class_file::item::ids::class::ClassName");
    assert_eq!(MethodDescriptor::name(), "exo_class_file::item::ids::method::MethodDescriptor");
    assert_eq!(BaseType::name(), "exo_class_file::item::ids::field::BaseType");
}

#[test]
fn object_type_names_may_hold_l() {
    let mut s = stream("Ljava/lang/Long;");
    let t = s.token::<ObjectType>().unwrap();
    assert_eq!(t.token.class_name.class_name, "Long");
    assert_eq!(t.token.class_name.package, vec!["java".to_string(), "lang".to_string()]);
    assert!(t.token.class_name.inner_class.is_none());
    assert_eq!(t.end, 16);
    let mut s = stream("Ljava/lang/Long");
    assert!(s.token::<ObjectType>().is_err());
}

#[test]
fn char_mismatch_text() {
    let mut s = stream("b");
    match s.token::<Char<0x61>>() {
        Err((e, _)) => match e.error_type {
            ParsingErrorType::TokenizerError(m) => assert_eq!(m, "incorrect character, expected a but got b"),
            other => panic!("unexpected {:?}", other),
        },
        Ok(_) => panic!("parsed"),
    }
    let mut s = stream("\n");
    match s.token::<Char<0x61>>() {
        Err((e, _)) => match e.error_type {
            ParsingErrorType::TokenizerError(m) => assert_eq!(m, "incorrect character, expected a but got newline"),
            other => panic!("unexpected {:?}", other),
        },
        Ok(_) => panic!("parsed"),
    }
}
