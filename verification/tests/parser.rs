use exo_class_file::parser::error::ParsingErrorType;
use exo_class_file::parser::tokenimpl::{Alphanumeric, Numeric};
use exo_class_file::parser::tokens::{enclosed, Lexer};

#[test]
fn epic() {
    let lexer = Lexer::new();
    let mut stream = Lexer::stream(lexer, "{{{Balls}}} 1234".to_string());

    let mut delim_1 = enclosed::<0x7b, 0x7d>(&mut stream).unwrap();

    let mut delim_2 = enclosed::<0x7b, 0x7d>(&mut delim_1).unwrap();

    let delim_3 = enclosed::<0x7b, 0x7d>(&mut delim_2).unwrap();

    println!("Chars: {:?}", delim_3.chars());
    println!("Stream: {:?}", stream.chars());
    assert_eq!(delim_3.chars().iter().collect::<String>(), "Balls");
    assert_eq!(stream.chars().iter().collect::<String>(), " 1234");
}

#[test]
fn enclosed_runs_out() {
    let mut stream = Lexer::stream(Lexer::new(), "{{a}".to_string());
    match enclosed::<0x7b, 0x7d>(&mut stream) {
        Err(e) => {
            assert!(matches!(e.error_type, ParsingErrorType::EOSError));
            assert_eq!(e.position, 4);
            assert_eq!(e.while_parsing, vec!["exo_class_file::parser::tokenimpl::Char<'{'>".to_string()]);
        },
        Ok(_) => panic!("enclosed"),
    }
}

#[test]
fn char_at_the_end() {
    let mut stream = Lexer::stream(Lexer::new(), "ab".to_string());
    assert_eq!(stream.char().unwrap(), 'a');
    assert_eq!(stream.char().unwrap(), 'b');
    let e = stream.char().unwrap_err();
    assert!(matches!(e.error_type, ParsingErrorType::EOSError));
    assert_eq!(e.position, 2);
    assert_eq!(stream.position, 2);
}

#[test]
fn numeric_then_alphanumeric() {
    let mut stream = Lexer::stream(Lexer::new(), "a1".to_string());
    match stream.token::<Numeric>() {
        Err((e, n)) => {
            assert_eq!(n, 0);
            match e.error_type {
                ParsingErrorType::TokenizerError(m) => assert_eq!(m, "not numeric"),
                other => panic!("unexpected {:?}", other),
            }
        },
        Ok(_) => panic!("parsed"),
    }
    assert_eq!(stream.position, 0);
    let t = stream.token::<Alphanumeric>().unwrap();
    assert_eq!((t.token.0, t.start, t.end), ('a', 0, 1));
    assert_eq!(stream.position, 1);
    assert!(stream.lexer().currently_parsing_list().is_empty());
}

#[test]
fn split_before_the_position() {
    let mut stream = Lexer::stream(Lexer::new(), "abcd".to_string());
    stream.char().unwrap();
    stream.char().unwrap();
    match stream.split(0..1) {
        Err(e) => match e.error_type {
            ParsingErrorType::TokenizerError(m) => assert_eq!(m, "range outside of eaten characters"),
            other => panic!("unexpected {:?}", other),
        },
        Ok(_) => panic!("split"),
    }
    assert_eq!(stream.chars.iter().collect::<String>(), "abcd");
    assert_eq!(stream.position, 2);
    let mut child = stream.split(2..4).unwrap();
    assert_eq!(child.chars().iter().collect::<String>(), "cd");
    assert_eq!(stream.chars.iter().collect::<String>(), "ab");
    assert_eq!(child.char().unwrap(), 'c');
    stream.rejoin(child);
}
