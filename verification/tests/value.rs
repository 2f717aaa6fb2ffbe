use frclib_core::structure::Float64Bits;
use frclib_core::structure::FrcStructureBytes;
use frclib_core::structure::Meter;
use frclib_core::text::decimal_string;
use frclib_core::text::str_eq;
use frclib_core::value::CastErrorReason;
use frclib_core::value::FrcType;
use frclib_core::value::FrcValueCastError;
use frclib_core::value::StaticallyFrcTyped;

#[test]
fn static_type_tags() {
    assert_eq!(<bool as StaticallyFrcTyped>::frc_type(), FrcType::Boolean);
    assert_eq!(<i64 as StaticallyFrcTyped>::frc_type(), FrcType::Int);
    assert_eq!(<String as StaticallyFrcTyped>::frc_type(), FrcType::String);
    assert_eq!(<Vec<u8> as StaticallyFrcTyped>::frc_type(), FrcType::Raw);
    assert_eq!(
        <Vec<bool> as StaticallyFrcTyped>::frc_type(),
        FrcType::BooleanArray
    );
    assert_eq!(
        <Vec<i64> as StaticallyFrcTyped>::frc_type(),
        FrcType::IntArray
    );
    assert!(!<bool as StaticallyFrcTyped>::could_be_void());
}

#[test]
fn cast_error_details() {
    let m = Meter {
        value: Float64Bits { bits: 0 },
    };
    let mut bundle = FrcStructureBytes::from_struct(&m);
    bundle.data.push(0);
    let err = bundle
        .try_into_struct::<Meter>()
        .expect_err("nine bytes are not a Meter");
    assert_eq!(
        err,
        FrcValueCastError::InvalidCastTo(
            FrcType::Struct,
            "Meter".to_owned(),
            CastErrorReason::Deserialization
        )
    );

    let bundle = FrcStructureBytes::from_struct(&m);
    let mut data = bundle.data.clone();
    data.pop();
    let ragged = FrcStructureBytes::from_parts(&bundle.desc, 1, data);
    let err = ragged
        .try_into_struct_array::<Meter>()
        .expect_err("seven bytes are not whole Meters");
    assert_eq!(
        err,
        FrcValueCastError::InvalidCastTo(
            FrcType::StructArray,
            "Meter".to_owned(),
            CastErrorReason::Deserialization
        )
    );
}

#[test]
fn empty_struct_array_casts() {
    let m = Meter {
        value: Float64Bits { bits: 0 },
    };
    let bundle = FrcStructureBytes::from_struct(&m);
    let empty = FrcStructureBytes::from_parts(&bundle.desc, 0, Vec::new());
    let back: Vec<Meter> = empty.try_into_struct_array().expect("no bytes, no values");
    assert!(back.is_empty());
}

#[test]
fn text_helpers() {
    assert!(str_eq("alpha", "alpha"));
    assert!(!str_eq("alpha", "alphb"));
    assert!(!str_eq("alpha", "alph"));
    assert_eq!(decimal_string(0), "0");
    assert_eq!(decimal_string(7), "7");
    assert_eq!(decimal_string(12345), "12345");
    assert_eq!(decimal_string(1000), "1000");
}
