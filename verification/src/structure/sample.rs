//! Concrete packable types: a single-field struct, an integer-backed
//! enum, and a struct composing primitives, a nested registered struct,
//! arrays and an enum.  Each implements the packing contract by composing
//! its fields' own contracts in declaration order, and proves the
//! round-trip and size laws that every composite must satisfy.

use super::scalar_field;
use super::spec_scalar_field;
use super::Float64Bits;
use super::FrcStructure;
use vstd::prelude::*;
use vstd::string::*;

verus! {

/// A distance in meters, packed as one `float64`: the bit pattern of the
/// measurement.
#[derive(Debug, Clone, Copy, PartialEq, Eq, Structural)]
pub struct Meter {
    pub value: Float64Bits,
}

impl FrcStructure for Meter {
    open spec fn spec_size() -> nat {
        Float64Bits::spec_size()
    }

    open spec fn spec_type_str() -> Seq<char> {
        "Meter"@
    }

    open spec fn spec_schema() -> Seq<char> {
        "float64 value"@
    }

    open spec fn spec_in_range(&self) -> bool {
        true
    }

    open spec fn spec_bytes(&self) -> Seq<u8> {
        self.value.spec_bytes()
    }

    open spec fn spec_unpack(b: Seq<u8>) -> Self {
        Meter { value: Float64Bits::spec_unpack(b) }
    }

    proof fn lemma_bytes_len(&self) {
        self.value.lemma_bytes_len();
    }

    proof fn lemma_round_trip(&self) {
        self.value.lemma_round_trip();
    }

    fn size() -> (r: usize) {
        Float64Bits::size()
    }

    fn type_str() -> (r: String) {
        "Meter".to_owned()
    }

    fn schema() -> (r: String) {
        "float64 value".to_owned()
    }

    fn pack(&self, buffer: &mut Vec<u8>) {
        self.value.pack(buffer);
    }

    fn unpack(buffer: &[u8], pos: &mut usize) -> (r: Self) {
        Meter { value: Float64Bits::unpack(buffer, pos) }
    }

    open spec fn spec_format_field(field: Seq<char>) -> Seq<char> {
        spec_scalar_field(Self::spec_type_str(), field)
    }

    fn format_field(field: &str) -> (r: String) {
        scalar_field(Self::type_str(), field)
    }
}

/// An integer-backed enum with a gap in its discriminants.  It packs as
/// its `uint8` backing value; a wire value naming no variant unpacks to
/// the default variant `A` by declared policy, never an error.
#[derive(Debug, Clone, Copy, PartialEq, Eq, Structural)]
pub enum MyEnum {
    A,
    B,
    C,
}

impl Default for MyEnum {
    fn default() -> (r: Self)
        ensures
            r == MyEnum::A,
    {
        MyEnum::A
    }
}

impl MyEnum {
    /// The wire value of each variant.
    pub open spec fn spec_repr(self) -> u8 {
        match self {
            MyEnum::A => 0,
            MyEnum::B => 1,
            MyEnum::C => 100,
        }
    }

    /// The variant a wire value names; values naming none fall back to
    /// the default variant.
    pub open spec fn spec_from_repr(r: u8) -> Self {
        if r == 0 {
            MyEnum::A
        } else if r == 1 {
            MyEnum::B
        } else if r == 100 {
            MyEnum::C
        } else {
            MyEnum::A
        }
    }

    /// The wire value of this variant.
    pub fn to_repr(&self) -> (r: u8)
        ensures
            r == self.spec_repr(),
    {
        match self {
            MyEnum::A => 0,
            MyEnum::B => 1,
            MyEnum::C => 100,
        }
    }

    /// The variant a wire value names, or the default variant.
    pub fn from_repr(r: u8) -> (v: Self)
        ensures
            v == Self::spec_from_repr(r),
    {
        if r == 0 {
            MyEnum::A
        } else if r == 1 {
            MyEnum::B
        } else if r == 100 {
            MyEnum::C
        } else {
            MyEnum::A
        }
    }
}

impl FrcStructure for MyEnum {
    open spec fn spec_size() -> nat {
        1
    }

    open spec fn spec_type_str() -> Seq<char> {
        "MyEnum"@
    }

    open spec fn spec_schema() -> Seq<char> {
        "enum {A=0, B=1, C=100} uint8 variant"@
    }

    open spec fn spec_in_range(&self) -> bool {
        true
    }

    open spec fn spec_bytes(&self) -> Seq<u8> {
        seq![self.spec_repr()]
    }

    open spec fn spec_unpack(b: Seq<u8>) -> Self {
        Self::spec_from_repr(b[0])
    }

    proof fn lemma_bytes_len(&self) {
    }

    proof fn lemma_round_trip(&self) {
    }

    fn size() -> (r: usize) {
        1
    }

    fn type_str() -> (r: String) {
        "MyEnum".to_owned()
    }

    fn schema() -> (r: String) {
        "enum {A=0, B=1, C=100} uint8 variant".to_owned()
    }

    fn pack(&self, buffer: &mut Vec<u8>) {
        let repr = self.to_repr();
        repr.pack(buffer);
    }

    fn unpack(buffer: &[u8], pos: &mut usize) -> (r: Self) {
        let repr = u8::unpack(buffer, pos);
        Self::from_repr(repr)
    }

    open spec fn spec_format_field(field: Seq<char>) -> Seq<char> {
        spec_scalar_field(Self::spec_type_str(), field)
    }

    fn format_field(field: &str) -> (r: String) {
        scalar_field(Self::type_str(), field)
    }
}

/// A composite of an enum, primitives, a nested registered struct, a
/// struct array and a character array.  Its size is the sum of its
/// fields' sizes; packing writes each field in declaration order with no
/// padding or framing; unpacking reads them back in the same order.
#[derive(Debug, Clone, Copy, PartialEq, Eq)]
pub struct NestedTestStruct {
    pub enum_val: MyEnum,
    pub boolean: bool,
    pub test_struct: Meter,
    pub test_struct_arr: [Meter; 2],
    pub integer: i32,
    pub string: [char; 128],
}

impl FrcStructure for NestedTestStruct {
    open spec fn spec_size() -> nat {
        MyEnum::spec_size() + bool::spec_size() + Meter::spec_size() + <[Meter; 2]>::spec_size()
            + i32::spec_size() + <[char; 128]>::spec_size()
    }

    open spec fn spec_type_str() -> Seq<char> {
        "NestedTestStruct"@
    }

    open spec fn spec_schema() -> Seq<char> {
        "MyEnum enum_val;bool boolean;Meter test_struct;Meter test_struct_arr[2];int32 integer;char string[128];"@
    }

    open spec fn spec_in_range(&self) -> bool {
        &&& self.enum_val.spec_in_range()
        &&& self.boolean.spec_in_range()
        &&& self.test_struct.spec_in_range()
        &&& self.test_struct_arr.spec_in_range()
        &&& self.integer.spec_in_range()
        &&& self.string.spec_in_range()
    }

    open spec fn spec_bytes(&self) -> Seq<u8> {
        self.enum_val.spec_bytes() + self.boolean.spec_bytes() + self.test_struct.spec_bytes()
            + self.test_struct_arr.spec_bytes() + self.integer.spec_bytes()
            + self.string.spec_bytes()
    }

    open spec fn spec_unpack(b: Seq<u8>) -> Self {
        NestedTestStruct {
            enum_val: MyEnum::spec_unpack(b.subrange(0, 1)),
            boolean: bool::spec_unpack(b.subrange(1, 2)),
            test_struct: Meter::spec_unpack(b.subrange(2, 10)),
            test_struct_arr: <[Meter; 2]>::spec_unpack(b.subrange(10, 26)),
            integer: i32::spec_unpack(b.subrange(26, 30)),
            string: <[char; 128]>::spec_unpack(b.subrange(30, 158)),
        }
    }

    proof fn lemma_bytes_len(&self) {
        self.enum_val.lemma_bytes_len();
        self.boolean.lemma_bytes_len();
        self.test_struct.lemma_bytes_len();
        self.test_struct_arr.lemma_bytes_len();
        self.integer.lemma_bytes_len();
        self.string.lemma_bytes_len();
    }

    proof fn lemma_round_trip(&self) {
        self.enum_val.lemma_bytes_len();
        self.boolean.lemma_bytes_len();
        self.test_struct.lemma_bytes_len();
        self.test_struct_arr.lemma_bytes_len();
        self.integer.lemma_bytes_len();
        self.string.lemma_bytes_len();
        let b = self.spec_bytes();
        assert(b.subrange(0, 1) =~= self.enum_val.spec_bytes());
        assert(b.subrange(1, 2) =~= self.boolean.spec_bytes());
        assert(b.subrange(2, 10) =~= self.test_struct.spec_bytes());
        assert(b.subrange(10, 26) =~= self.test_struct_arr.spec_bytes());
        assert(b.subrange(26, 30) =~= self.integer.spec_bytes());
        assert(b.subrange(30, 158) =~= self.string.spec_bytes());
        self.enum_val.lemma_round_trip();
        self.boolean.lemma_round_trip();
        self.test_struct.lemma_round_trip();
        self.test_struct_arr.lemma_round_trip();
        self.integer.lemma_round_trip();
        self.string.lemma_round_trip();
    }

    fn size() -> (r: usize) {
        proof {
            assert(Meter::spec_size() * 2 == 16);
            assert(<[char; 128]>::spec_size() == 128);
        }
        158
    }

    fn type_str() -> (r: String) {
        "NestedTestStruct".to_owned()
    }

    fn schema() -> (r: String) {
        let mut s = MyEnum::format_field("enum_val");
        s.append(";");
        let mut part = bool::format_field("boolean");
        s.append(part.as_str());
        s.append(";");
        part = Meter::format_field("test_struct");
        s.append(part.as_str());
        s.append(";");
        part = <[Meter; 2]>::format_field("test_struct_arr");
        s.append(part.as_str());
        s.append(";");
        part = i32::format_field("integer");
        s.append(part.as_str());
        s.append(";");
        part = <[char; 128]>::format_field("string");
        s.append(part.as_str());
        s.append(";");
        proof {
            reveal_strlit("MyEnum");
            reveal_strlit("enum_val");
            reveal_strlit(" ");
            reveal_strlit(";");
            reveal_strlit("bool");
            reveal_strlit("boolean");
            reveal_strlit("Meter");
            reveal_strlit("test_struct");
            reveal_strlit("test_struct_arr");
            reveal_strlit("[");
            reveal_strlit("].");
            reveal_strlit("]");
            reveal_strlit("int32");
            reveal_strlit("integer");
            reveal_strlit("char");
            reveal_strlit("string");
            reveal_strlit(
                "MyEnum enum_val;bool boolean;Meter test_struct;Meter test_struct_arr[2];int32 integer;char string[128];",
            );
            assert(crate::text::spec_decimal(1) =~= seq!['1']);
            assert(crate::text::spec_decimal(2) =~= seq!['2']);
            assert(crate::text::spec_decimal(12) =~= seq!['1', '2']);
            assert(crate::text::spec_decimal(128) =~= seq!['1', '2', '8']);
            assert(s@ =~= Self::spec_schema());
        }
        s
    }

    fn pack(&self, buffer: &mut Vec<u8>) {
        self.enum_val.pack(buffer);
        self.boolean.pack(buffer);
        self.test_struct.pack(buffer);
        self.test_struct_arr.pack(buffer);
        self.integer.pack(buffer);
        self.string.pack(buffer);
        proof {
            assert(buffer@ =~= old(buffer)@ + self.spec_bytes());
        }
    }

    fn unpack(buffer: &[u8], pos: &mut usize) -> (r: Self) {
        let ghost base = *old(pos) as int;
        let ghost bsub = buffer@.subrange(base, base + 158);
        let enum_val = MyEnum::unpack(buffer, pos);
        let boolean = bool::unpack(buffer, pos);
        let test_struct = Meter::unpack(buffer, pos);
        let test_struct_arr = <[Meter; 2]>::unpack(buffer, pos);
        let integer = i32::unpack(buffer, pos);
        let string = <[char; 128]>::unpack(buffer, pos);
        let r = NestedTestStruct { enum_val, boolean, test_struct, test_struct_arr, integer, string };
        proof {
            assert(buffer@.subrange(base, base + 1) =~= bsub.subrange(0, 1));
            assert(buffer@.subrange(base + 1, base + 2) =~= bsub.subrange(1, 2));
            assert(buffer@.subrange(base + 2, base + 10) =~= bsub.subrange(2, 10));
            assert(buffer@.subrange(base + 10, base + 26) =~= bsub.subrange(10, 26));
            assert(buffer@.subrange(base + 26, base + 30) =~= bsub.subrange(26, 30));
            assert(buffer@.subrange(base + 30, base + 158) =~= bsub.subrange(30, 158));
        }
        r
    }

    open spec fn spec_format_field(field: Seq<char>) -> Seq<char> {
        spec_scalar_field(Self::spec_type_str(), field)
    }

    fn format_field(field: &str) -> (r: String) {
        scalar_field(Self::type_str(), field)
    }
}

} // verus!
