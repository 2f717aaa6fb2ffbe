use frclib_core::structure::lex_schema;
use frclib_core::structure::parse_schema;
use frclib_core::structure::parse_schema_toplevel;
use frclib_core::structure::FrcStructDesc;
use frclib_core::structure::FrcStructDescDB;
use frclib_core::structure::FrcStructure;
use frclib_core::structure::Meter;
use frclib_core::structure::MyEnum;
use frclib_core::structure::NestedTestStruct;
use frclib_core::structure::StructureFieldTypes;
use frclib_core::structure::Token;

#[test]
fn parse_primitives() {
    let db = FrcStructDescDB::new();
    let fields = parse_schema_toplevel(&db, "bool flag; uint16 word; float64 reading");
    assert_eq!(
        fields,
        vec![
            ("flag".to_owned(), 0usize, StructureFieldTypes::Bool(1)),
            ("word".to_owned(), 1usize, StructureFieldTypes::UInt16(1)),
            ("reading".to_owned(), 3usize, StructureFieldTypes::Float64(1)),
        ]
    );
}

#[test]
fn parse_array_counts() {
    let db = FrcStructDescDB::new();
    let fields = parse_schema_toplevel(&db, "int8 val[3];uint32 tail");
    assert_eq!(
        fields,
        vec![
            ("val".to_owned(), 0usize, StructureFieldTypes::Int8(3)),
            ("tail".to_owned(), 3usize, StructureFieldTypes::UInt32(1)),
        ]
    );
}

#[test]
fn parse_enum_declaration() {
    // the enum braces, variants and keyword only document the wire form;
    // layout comes from the backing primitive alone
    let db = FrcStructDescDB::new();
    let fields = parse_schema_toplevel(&db, "enum {a=1, b=2} int8 val[3]");
    assert_eq!(fields.len(), 1);
    assert_eq!(
        fields[0],
        ("val".to_owned(), 0usize, StructureFieldTypes::Int8(3))
    );
}

#[test]
fn parse_nested_struct_offsets() {
    // a bool, an embedded struct, a struct array and an int: the
    // flattened offsets follow the packed layout byte for byte
    let mut db = FrcStructDescDB::new();
    db.add(Meter::description());
    let fields = parse_schema_toplevel(&db, "bool a;Meter b;Meter c[2];int32 d;");
    assert_eq!(
        fields,
        vec![
            ("a".to_owned(), 0usize, StructureFieldTypes::Bool(1)),
            ("b.value".to_owned(), 1usize, StructureFieldTypes::Float64(1)),
            ("c[0].value".to_owned(), 9usize, StructureFieldTypes::Float64(1)),
            ("c[1].value".to_owned(), 17usize, StructureFieldTypes::Float64(1)),
            ("d".to_owned(), 25usize, StructureFieldTypes::Int32(1)),
        ]
    );
}

#[test]
fn parse_generated_composite_schema() {
    let mut db = FrcStructDescDB::new();
    db.add(Meter::description());
    db.add(MyEnum::description());
    let schema = NestedTestStruct::schema();
    let fields = parse_schema_toplevel(&db, schema.as_str());
    assert_eq!(
        fields,
        vec![
            ("enum_val.variant".to_owned(), 0usize, StructureFieldTypes::UInt8(1)),
            ("boolean".to_owned(), 1usize, StructureFieldTypes::Bool(1)),
            ("test_struct.value".to_owned(), 2usize, StructureFieldTypes::Float64(1)),
            ("test_struct_arr[0].value".to_owned(), 10usize, StructureFieldTypes::Float64(1)),
            ("test_struct_arr[1].value".to_owned(), 18usize, StructureFieldTypes::Float64(1)),
            ("integer".to_owned(), 26usize, StructureFieldTypes::Int32(1)),
            ("string".to_owned(), 30usize, StructureFieldTypes::Char(128)),
        ]
    );
}

#[test]
fn parse_unlexable_schema_is_empty() {
    let db = FrcStructDescDB::new();
    assert!(parse_schema_toplevel(&db, "bool ok; ???").is_empty());
    assert!(parse_schema_toplevel(&db, "int8 x = 3").is_empty());
}

#[test]
fn parse_empty_schema_is_empty() {
    let db = FrcStructDescDB::new();
    assert!(parse_schema_toplevel(&db, "").is_empty());
    assert!(parse_schema_toplevel(&db, "   \n\t").is_empty());
}

#[test]
fn parse_unknown_type_yields_no_field() {
    // an unregistered first token silently yields no field and leaves the
    // cursor alone, so later offsets shift: the documented gap
    let db = FrcStructDescDB::new();
    let fields = parse_schema_toplevel(&db, "Rotation2d rot;int8 x;");
    assert_eq!(
        fields,
        vec![("x".to_owned(), 0usize, StructureFieldTypes::Int8(1))]
    );
}

#[test]
fn parse_with_prefix_and_offset() {
    let db = FrcStructDescDB::new();
    let fields = parse_schema(&db, "uint8 lo;uint8 hi;", "word.", 4);
    assert_eq!(
        fields,
        vec![
            ("word.lo".to_owned(), 4usize, StructureFieldTypes::UInt8(1)),
            ("word.hi".to_owned(), 5usize, StructureFieldTypes::UInt8(1)),
        ]
    );
}

#[test]
fn parse_self_referential_registry_gives_up() {
    // a schema that names its own type would recurse forever; the parser
    // stops at its nesting cap and reports no fields
    let mut db = FrcStructDescDB::new();
    db.add(FrcStructDesc {
        type_str: "Loop".to_owned(),
        size: 8,
        schema: "Loop inner;".to_owned(),
    });
    assert!(parse_schema_toplevel(&db, "Loop l;").is_empty());
}

#[test]
fn from_type_names() {
    assert_eq!(
        StructureFieldTypes::from_type("float", 2),
        Some(StructureFieldTypes::Float32(2))
    );
    assert_eq!(
        StructureFieldTypes::from_type("double", 1),
        Some(StructureFieldTypes::Float64(1))
    );
    assert_eq!(
        StructureFieldTypes::from_type("uint64", 1),
        Some(StructureFieldTypes::UInt64(1))
    );
    assert_eq!(StructureFieldTypes::from_type("Meter", 1), None);
}

#[test]
fn field_type_sizes() {
    assert_eq!(StructureFieldTypes::Bool(1).size(), 1);
    assert_eq!(StructureFieldTypes::Int64(3).size(), 24);
    assert_eq!(StructureFieldTypes::Float32(2).base_size(), 4);
    assert_eq!(StructureFieldTypes::Float32(2).count(), 2);
    assert_eq!(StructureFieldTypes::Char(128).size(), 128);
}

#[test]
fn lexer_tokens() {
    let toks = lex_schema("int8 x[3];").expect("lexable");
    assert_eq!(
        toks,
        vec![
            Token::TypeName("int8".to_owned()),
            Token::Ident("x".to_owned()),
            Token::OpenBracket,
            Token::Integer(3),
            Token::CloseBracket,
            Token::Semicolon,
        ]
    );

    let toks = lex_schema("enum {A=0, B=-5} : ,").expect("lexable");
    assert_eq!(
        toks,
        vec![
            Token::EnumKeyword,
            Token::OpenBrace,
            Token::EnumVariant("A".to_owned(), 0),
            Token::Comma,
            Token::EnumVariant("B".to_owned(), -5),
            Token::CloseBrace,
            Token::Colon,
            Token::Comma,
        ]
    );

    // unlexable text, an integer past 32 bits, a variant past 8 bits
    assert!(lex_schema("bool ok; ?").is_none());
    assert!(lex_schema("int8 x[99999999999]").is_none());
    assert!(lex_schema("enum {A=128} uint8 v").is_none());
    assert!(lex_schema("x =").is_none());
}
