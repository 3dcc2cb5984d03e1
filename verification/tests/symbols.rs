use fable_data::def::text::header::parse_header_file;
use fable_data::def::text::symbols::{SymbolEvalError, SymbolTable};

#[test]
fn insert_then_lookup() {
    let mut t = SymbolTable::new();
    assert!(t.is_empty());
    assert!(t.insert("A", 5).is_ok());
    assert_eq!(t.lookup("A"), Some(5));
    assert_eq!(t.lookup("B"), None);
    assert!(t.insert("B", -1).is_ok());
    assert_eq!(t.lookup("A"), Some(5));
    assert_eq!(t.lookup("B"), Some(-1));
    assert!(matches!(t.insert("A", 9), Err(SymbolEvalError::DuplicateSymbol(n)) if n == "A"));
    assert_eq!(t.lookup("A"), Some(5));
    assert_eq!(t.len(), 2);
    let mut all = t.iter();
    all.sort();
    assert_eq!(all, vec![("A", 5), ("B", -1)]);
}

#[test]
fn evaluate_enums_and_defines() {
    let h = parse_header_file("enum E { A, B = 4, C, D = B | 1, F = 1 << 3 };\n#define G 7\n#ifdef _WINDOWS\n#define W 1\n#else\n#define W 2\n#endif").unwrap();
    let mut t = SymbolTable::new();
    t.evaluate(&h).unwrap();
    assert_eq!(t.lookup("A"), Some(0));
    assert_eq!(t.lookup("B"), Some(4));
    assert_eq!(t.lookup("C"), Some(5));
    assert_eq!(t.lookup("D"), Some(5));
    assert_eq!(t.lookup("F"), Some(8));
    assert_eq!(t.lookup("G"), Some(7));
    assert_eq!(t.lookup("W"), Some(1));
}

#[test]
fn evaluate_errors() {
    let h = parse_header_file("enum E { A = MISSING };").unwrap();
    let mut t = SymbolTable::new();
    assert!(matches!(t.evaluate(&h), Err(SymbolEvalError::UnknownSymbol(n)) if n == "MISSING"));
    let h = parse_header_file("enum E { A = 1 << 64 };").unwrap();
    let mut t = SymbolTable::new();
    assert!(matches!(t.evaluate(&h), Err(SymbolEvalError::InvalidShift(64))));
    let h = parse_header_file("#define X 1\n#define X 2").unwrap();
    let mut t = SymbolTable::new();
    assert!(matches!(t.evaluate(&h), Err(SymbolEvalError::DuplicateSymbol(_))));
}
