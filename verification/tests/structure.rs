use frclib_core::structure::Float32Bits;
use frclib_core::structure::Float64Bits;
use frclib_core::structure::FrcStructDesc;
use frclib_core::structure::FrcStructDescDB;
use frclib_core::structure::FrcStructure;
use frclib_core::structure::FrcStructureBytes;
use frclib_core::structure::Meter;
use frclib_core::structure::MyEnum;
use frclib_core::structure::NestedTestStruct;

fn meter(value: f64) -> Meter {
    Meter {
        value: Float64Bits {
            bits: value.to_bits(),
        },
    }
}

#[test]
fn test_structures() {
    let test_struct = meter(1.0);
    let value = FrcStructureBytes::from_struct(&test_struct);
    let test_struct2: Meter = value.try_into_struct().expect("Failed to convert");
    assert_eq!(test_struct, test_struct2);

    let nested_struct = NestedTestStruct {
        boolean: true,
        test_struct,
        test_struct_arr: [test_struct; 2],
        integer: 1,
        string: ['a'; 128],
        enum_val: MyEnum::B,
    };
    let value = FrcStructureBytes::from_struct(&nested_struct);
    let nested_struct2: NestedTestStruct = value.try_into_struct().expect("Failed to convert");
    assert_eq!(nested_struct, nested_struct2);

    let mut db = FrcStructDescDB::new();
    db.add(Meter::description());
    db.add(MyEnum::description());
    db.add(NestedTestStruct::description());
    db.add(FrcStructDesc {
        schema: "bool idk;".to_owned(),
        type_str: "proc".to_owned(),
        size: 1,
    });

    // walk every registered descriptor and print its name and schema
    for struct_desc in db.descriptors() {
        println!("{} {{{}}}", struct_desc.type_str, struct_desc.schema);
    }
    assert_eq!(db.descriptors().len(), 4);
}

#[test]
fn prim_round_trips() {
    let mut buf: Vec<u8> = Vec::new();
    0x1234u16.pack(&mut buf);
    assert_eq!(buf, vec![0x34, 0x12]);
    let mut pos = 0usize;
    assert_eq!(u16::unpack(&buf, &mut pos), 0x1234);
    assert_eq!(pos, 2);

    let mut buf: Vec<u8> = Vec::new();
    (-2i32).pack(&mut buf);
    assert_eq!(buf, vec![0xfe, 0xff, 0xff, 0xff]);
    let mut pos = 0usize;
    assert_eq!(i32::unpack(&buf, &mut pos), -2);

    let mut buf: Vec<u8> = Vec::new();
    0x0102_0304_0506_0708u64.pack(&mut buf);
    (-1i64).pack(&mut buf);
    true.pack(&mut buf);
    (-5i8).pack(&mut buf);
    200u8.pack(&mut buf);
    'a'.pack(&mut buf);
    '\u{ff}'.pack(&mut buf);
    0x0807u16.pack(&mut buf);
    (-9i16).pack(&mut buf);
    7u32.pack(&mut buf);
    assert_eq!(buf.len(), 29);
    let mut pos = 0usize;
    assert_eq!(u64::unpack(&buf, &mut pos), 0x0102_0304_0506_0708);
    assert_eq!(i64::unpack(&buf, &mut pos), -1);
    assert!(bool::unpack(&buf, &mut pos));
    assert_eq!(i8::unpack(&buf, &mut pos), -5);
    assert_eq!(u8::unpack(&buf, &mut pos), 200);
    assert_eq!(char::unpack(&buf, &mut pos), 'a');
    assert_eq!(char::unpack(&buf, &mut pos), '\u{ff}');
    assert_eq!(u16::unpack(&buf, &mut pos), 0x0807);
    assert_eq!(i16::unpack(&buf, &mut pos), -9);
    assert_eq!(u32::unpack(&buf, &mut pos), 7);
    assert_eq!(pos, 29);
}

#[test]
fn float_bits_round_trip() {
    let mut buf: Vec<u8> = Vec::new();
    let x = Float32Bits {
        bits: 2.5f32.to_bits(),
    };
    x.pack(&mut buf);
    assert_eq!(buf, 2.5f32.to_le_bytes().to_vec());
    let mut pos = 0usize;
    assert_eq!(Float32Bits::unpack(&buf, &mut pos), x);
}

#[test]
fn array_round_trip() {
    // SIZE == T::SIZE * N, and an array packs element by element
    assert_eq!(<[u16; 3]>::size(), 6);
    let arr: [u16; 3] = [1, 2, 3];
    let mut buf: Vec<u8> = Vec::new();
    arr.pack(&mut buf);
    assert_eq!(buf, vec![1, 0, 2, 0, 3, 0]);
    let mut pos = 0usize;
    let back = <[u16; 3]>::unpack(&buf, &mut pos);
    assert_eq!(back, arr);
    assert_eq!(pos, 6);
}

#[test]
fn format_field_renders() {
    assert_eq!(u8::format_field("x"), "uint8 x");
    assert_eq!(i64::format_field("ticks"), "int64 ticks");
    assert_eq!(<[i64; 4]>::format_field("arr"), "int64 arr[4]");
    assert_eq!(<[char; 128]>::format_field("s"), "char s[128]");
    assert_eq!(Meter::format_field("b"), "Meter b");
}

#[test]
fn meter_packs_ieee754() {
    // one float64 field: eight little-endian IEEE-754 bytes
    assert_eq!(Meter::size(), 8);
    assert_eq!(Meter::schema(), "float64 value");
    let m = meter(1.0);
    let mut buf: Vec<u8> = Vec::new();
    m.pack(&mut buf);
    assert_eq!(buf, 1.0f64.to_le_bytes().to_vec());
    let mut pos = 0usize;
    assert_eq!(Meter::unpack(&buf, &mut pos), m);
}

#[test]
fn composite_size_is_field_sum() {
    assert_eq!(NestedTestStruct::size(), 1 + 1 + 8 + 16 + 4 + 128);
    assert_eq!(
        NestedTestStruct::schema(),
        "MyEnum enum_val;bool boolean;Meter test_struct;Meter test_struct_arr[2];int32 integer;char string[128];"
    );
}

#[test]
fn enum_packs_backing_value() {
    let mut buf: Vec<u8> = Vec::new();
    MyEnum::B.pack(&mut buf);
    assert_eq!(buf, vec![1]);
    let mut buf: Vec<u8> = Vec::new();
    MyEnum::C.pack(&mut buf);
    assert_eq!(buf, vec![100]);
}

#[test]
fn enum_unknown_value_unpacks_to_default() {
    let buf = vec![200u8];
    let mut pos = 0usize;
    assert_eq!(MyEnum::unpack(&buf, &mut pos), MyEnum::A);
}

#[test]
fn registry_add_is_idempotent() {
    let mut db = FrcStructDescDB::new();
    db.add(Meter::description());
    db.add(Meter::description());
    assert_eq!(db.descriptors().len(), 1);
    assert!(db.contains("Meter"));
    let d = db.get("Meter").expect("registered");
    assert_eq!(d.size, 8);
    assert_eq!(d.schema, "float64 value");
    assert!(!db.contains("Foot"));
    assert!(db.get("Foot").is_none());
}

#[test]
fn registry_first_writer_wins() {
    let mut db = FrcStructDescDB::new();
    db.add(FrcStructDesc {
        type_str: "Pose".to_owned(),
        size: 16,
        schema: "float64 x;float64 y;".to_owned(),
    });
    db.add(FrcStructDesc {
        type_str: "Pose".to_owned(),
        size: 8,
        schema: "float64 x;".to_owned(),
    });
    let d = db.get("Pose").expect("registered");
    assert_eq!(d.size, 16);
}

#[test]
fn struct_cast_size_mismatch_is_reported() {
    let m = meter(3.5);
    let mut bundle = FrcStructureBytes::from_struct(&m);
    bundle.data.pop();
    let r: Result<Meter, _> = bundle.try_into_struct();
    assert!(r.is_err());
}

#[test]
fn struct_array_round_trip() {
    let values = [meter(1.0), meter(-2.0), meter(0.5)];
    let bundle = FrcStructureBytes::from_struct_array(&values);
    assert_eq!(bundle.count, 3);
    assert_eq!(bundle.data.len(), 24);
    let back: Vec<Meter> = bundle.try_into_struct_array().expect("whole values");
    assert_eq!(back, values.to_vec());
}

#[test]
fn struct_array_ragged_length_is_reported() {
    let values = [meter(1.0)];
    let mut bundle = FrcStructureBytes::from_struct_array(&values);
    bundle.data.push(0);
    let r: Result<Vec<Meter>, _> = bundle.try_into_struct_array();
    assert!(r.is_err());
}

#[test]
fn char_narrows_to_one_byte() {
    // the one primitive whose wire format is narrower than the type:
    // code points past 255 truncate, so only the low byte survives
    let mut buf: Vec<u8> = Vec::new();
    '\u{100}'.pack(&mut buf);
    assert_eq!(buf, vec![0]);
}
