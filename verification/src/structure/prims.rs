//! The packing contract for the primitive wire types: the fixed-width
//! integers, `bool`, `char`, the bit patterns of the two float widths, and
//! fixed-size arrays of packable elements.

use super::arr_from_seq;
use super::lemma_seq_bytes_push;
use super::lemma_seq_unpack_index;
use super::scalar_field;
use super::spec_scalar_field;
use super::spec_seq_bytes;
use super::spec_seq_unpack;
use super::FrcStructure;
use crate::text::append_decimal;
use crate::text::spec_decimal;
use vstd::array::array_index_get;
use vstd::prelude::*;
use vstd::slice::slice_index_get;
use vstd::slice::slice_subrange;
use vstd::string::*;

verus! {

/// The schema text of every primitive type: a primitive has no fields of
/// its own, so its schema is empty.
pub fn empty_schema_supplier() -> (r: String)
    ensures
        r@ == Seq::<char>::empty(),
{
    String::new()
}


impl FrcStructure for u8 {
    open spec fn spec_size() -> nat {
        1
    }

    open spec fn spec_type_str() -> Seq<char> {
        "uint8"@
    }

    open spec fn spec_schema() -> Seq<char> {
        Seq::empty()
    }

    open spec fn spec_in_range(&self) -> bool {
        true
    }

    open spec fn spec_bytes(&self) -> Seq<u8> {
        seq![*self]
    }

    open spec fn spec_unpack(b: Seq<u8>) -> Self {
        b[0]
    }

    proof fn lemma_bytes_len(&self) {
    }

    proof fn lemma_round_trip(&self) {
    }

    fn size() -> (r: usize) {
        1
    }

    fn type_str() -> (r: String) {
        "uint8".to_owned()
    }

    fn schema() -> (r: String) {
        empty_schema_supplier()
    }

    fn pack(&self, buffer: &mut Vec<u8>) {
        buffer.push(*self);
        proof {
            assert(buffer@ =~= old(buffer)@ + self.spec_bytes());
        }
    }

    fn unpack(buffer: &[u8], pos: &mut usize) -> (r: Self) {
        let n = buffer.len();
        let b = *slice_index_get(buffer, *pos);
        *pos += 1;
        proof {
            assert(buffer@.subrange(*old(pos) as int, *old(pos) + 1)[0] == b);
        }
        b
    }

    open spec fn spec_format_field(field: Seq<char>) -> Seq<char> {
        spec_scalar_field(Self::spec_type_str(), field)
    }

    fn format_field(field: &str) -> (r: String) {
        scalar_field(Self::type_str(), field)
    }
}

impl FrcStructure for bool {
    open spec fn spec_size() -> nat {
        1
    }

    open spec fn spec_type_str() -> Seq<char> {
        "bool"@
    }

    open spec fn spec_schema() -> Seq<char> {
        Seq::empty()
    }

    open spec fn spec_in_range(&self) -> bool {
        true
    }

    open spec fn spec_bytes(&self) -> Seq<u8> {
        seq![
            if *self {
                1u8
            } else {
                0u8
            },
        ]
    }

    open spec fn spec_unpack(b: Seq<u8>) -> Self {
        b[0] != 0
    }

    proof fn lemma_bytes_len(&self) {
    }

    proof fn lemma_round_trip(&self) {
    }

    fn size() -> (r: usize) {
        1
    }

    fn type_str() -> (r: String) {
        "bool".to_owned()
    }

    fn schema() -> (r: String) {
        empty_schema_supplier()
    }

    fn pack(&self, buffer: &mut Vec<u8>) {
        buffer.push(if *self {
            1
        } else {
            0
        });
        proof {
            assert(buffer@ =~= old(buffer)@ + self.spec_bytes());
        }
    }

    fn unpack(buffer: &[u8], pos: &mut usize) -> (r: Self) {
        let n = buffer.len();
        let b = *slice_index_get(buffer, *pos);
        *pos += 1;
        proof {
            assert(buffer@.subrange(*old(pos) as int, *old(pos) + 1)[0] == b);
        }
        b != 0
    }

    open spec fn spec_format_field(field: Seq<char>) -> Seq<char> {
        spec_scalar_field(Self::spec_type_str(), field)
    }

    fn format_field(field: &str) -> (r: String) {
        scalar_field(Self::type_str(), field)
    }
}

/// The IEEE-754 bit pattern of a 32-bit float, packed as the `float32`
/// wire type.  The packing subsystem moves float bits; it never computes
/// with them.
#[derive(Clone, Copy, Debug, PartialEq, Eq, Structural)]
pub struct Float32Bits {
    pub bits: u32,
}

/// The IEEE-754 bit pattern of a 64-bit float, packed as the `float64`
/// wire type.
#[derive(Clone, Copy, Debug, PartialEq, Eq, Structural)]
pub struct Float64Bits {
    pub bits: u64,
}


impl FrcStructure for u16 {
    open spec fn spec_size() -> nat {
        2
    }

    open spec fn spec_type_str() -> Seq<char> {
        "uint16"@
    }

    open spec fn spec_schema() -> Seq<char> {
        Seq::empty()
    }

    open spec fn spec_in_range(&self) -> bool {
        true
    }

    open spec fn spec_bytes(&self) -> Seq<u8> {
        vstd::bytes::spec_u16_to_le_bytes(*self)
    }

    open spec fn spec_unpack(b: Seq<u8>) -> Self {
        vstd::bytes::spec_u16_from_le_bytes(b)
    }

    proof fn lemma_bytes_len(&self) {
        vstd::bytes::lemma_auto_spec_u16_to_from_le_bytes();
    }

    proof fn lemma_round_trip(&self) {
        vstd::bytes::lemma_auto_spec_u16_to_from_le_bytes();
        assert(vstd::bytes::spec_u16_to_le_bytes(*self).len() == 2);
    }

    fn size() -> (r: usize) {
        2
    }

    fn type_str() -> (r: String) {
        "uint16".to_owned()
    }

    fn schema() -> (r: String) {
        empty_schema_supplier()
    }

    fn pack(&self, buffer: &mut Vec<u8>) {
        let mut tmp = vstd::bytes::u16_to_le_bytes(*self);
        buffer.append(&mut tmp);
    }

    fn unpack(buffer: &[u8], pos: &mut usize) -> (r: Self) {
        let n = buffer.len();
        let sub = slice_subrange(buffer, *pos, *pos + 2);
        let x = vstd::bytes::u16_from_le_bytes(sub);
        *pos += 2;
        x
    }

    open spec fn spec_format_field(field: Seq<char>) -> Seq<char> {
        spec_scalar_field(Self::spec_type_str(), field)
    }

    fn format_field(field: &str) -> (r: String) {
        scalar_field(Self::type_str(), field)
    }
}


impl FrcStructure for u32 {
    open spec fn spec_size() -> nat {
        4
    }

    open spec fn spec_type_str() -> Seq<char> {
        "uint32"@
    }

    open spec fn spec_schema() -> Seq<char> {
        Seq::empty()
    }

    open spec fn spec_in_range(&self) -> bool {
        true
    }

    open spec fn spec_bytes(&self) -> Seq<u8> {
        vstd::bytes::spec_u32_to_le_bytes(*self)
    }

    open spec fn spec_unpack(b: Seq<u8>) -> Self {
        vstd::bytes::spec_u32_from_le_bytes(b)
    }

    proof fn lemma_bytes_len(&self) {
        vstd::bytes::lemma_auto_spec_u32_to_from_le_bytes();
    }

    proof fn lemma_round_trip(&self) {
        vstd::bytes::lemma_auto_spec_u32_to_from_le_bytes();
        assert(vstd::bytes::spec_u32_to_le_bytes(*self).len() == 4);
    }

    fn size() -> (r: usize) {
        4
    }

    fn type_str() -> (r: String) {
        "uint32".to_owned()
    }

    fn schema() -> (r: String) {
        empty_schema_supplier()
    }

    fn pack(&self, buffer: &mut Vec<u8>) {
        let mut tmp = vstd::bytes::u32_to_le_bytes(*self);
        buffer.append(&mut tmp);
    }

    fn unpack(buffer: &[u8], pos: &mut usize) -> (r: Self) {
        let n = buffer.len();
        let sub = slice_subrange(buffer, *pos, *pos + 4);
        let x = vstd::bytes::u32_from_le_bytes(sub);
        *pos += 4;
        x
    }

    open spec fn spec_format_field(field: Seq<char>) -> Seq<char> {
        spec_scalar_field(Self::spec_type_str(), field)
    }

    fn format_field(field: &str) -> (r: String) {
        scalar_field(Self::type_str(), field)
    }
}


impl FrcStructure for u64 {
    open spec fn spec_size() -> nat {
        8
    }

    open spec fn spec_type_str() -> Seq<char> {
        "uint64"@
    }

    open spec fn spec_schema() -> Seq<char> {
        Seq::empty()
    }

    open spec fn spec_in_range(&self) -> bool {
        true
    }

    open spec fn spec_bytes(&self) -> Seq<u8> {
        vstd::bytes::spec_u64_to_le_bytes(*self)
    }

    open spec fn spec_unpack(b: Seq<u8>) -> Self {
        vstd::bytes::spec_u64_from_le_bytes(b)
    }

    proof fn lemma_bytes_len(&self) {
        vstd::bytes::lemma_auto_spec_u64_to_from_le_bytes();
    }

    proof fn lemma_round_trip(&self) {
        vstd::bytes::lemma_auto_spec_u64_to_from_le_bytes();
        assert(vstd::bytes::spec_u64_to_le_bytes(*self).len() == 8);
    }

    fn size() -> (r: usize) {
        8
    }

    fn type_str() -> (r: String) {
        "uint64".to_owned()
    }

    fn schema() -> (r: String) {
        empty_schema_supplier()
    }

    fn pack(&self, buffer: &mut Vec<u8>) {
        let mut tmp = vstd::bytes::u64_to_le_bytes(*self);
        buffer.append(&mut tmp);
    }

    fn unpack(buffer: &[u8], pos: &mut usize) -> (r: Self) {
        let n = buffer.len();
        let sub = slice_subrange(buffer, *pos, *pos + 8);
        let x = vstd::bytes::u64_from_le_bytes(sub);
        *pos += 8;
        x
    }

    open spec fn spec_format_field(field: Seq<char>) -> Seq<char> {
        spec_scalar_field(Self::spec_type_str(), field)
    }

    fn format_field(field: &str) -> (r: String) {
        scalar_field(Self::type_str(), field)
    }
}


impl FrcStructure for i16 {
    open spec fn spec_size() -> nat {
        2
    }

    open spec fn spec_type_str() -> Seq<char> {
        "int16"@
    }

    open spec fn spec_schema() -> Seq<char> {
        Seq::empty()
    }

    open spec fn spec_in_range(&self) -> bool {
        true
    }

    open spec fn spec_bytes(&self) -> Seq<u8> {
        vstd::bytes::spec_u16_to_le_bytes(*self as u16)
    }

    open spec fn spec_unpack(b: Seq<u8>) -> Self {
        vstd::bytes::spec_u16_from_le_bytes(b) as i16
    }

    proof fn lemma_bytes_len(&self) {
        vstd::bytes::lemma_auto_spec_u16_to_from_le_bytes();
    }

    proof fn lemma_round_trip(&self) {
        vstd::bytes::lemma_auto_spec_u16_to_from_le_bytes();
        assert(vstd::bytes::spec_u16_to_le_bytes(*self as u16).len() == 2);
        assert(((*self as u16) as i16) == *self) by (bit_vector);
    }

    fn size() -> (r: usize) {
        2
    }

    fn type_str() -> (r: String) {
        "int16".to_owned()
    }

    fn schema() -> (r: String) {
        empty_schema_supplier()
    }

    fn pack(&self, buffer: &mut Vec<u8>) {
        let mut tmp = vstd::bytes::u16_to_le_bytes(#[verifier::truncate] (*self as u16));
        buffer.append(&mut tmp);
    }

    fn unpack(buffer: &[u8], pos: &mut usize) -> (r: Self) {
        let n = buffer.len();
        let sub = slice_subrange(buffer, *pos, *pos + 2);
        let x = vstd::bytes::u16_from_le_bytes(sub);
        *pos += 2;
        #[verifier::truncate] (x as i16)
    }

    open spec fn spec_format_field(field: Seq<char>) -> Seq<char> {
        spec_scalar_field(Self::spec_type_str(), field)
    }

    fn format_field(field: &str) -> (r: String) {
        scalar_field(Self::type_str(), field)
    }
}


impl FrcStructure for i32 {
    open spec fn spec_size() -> nat {
        4
    }

    open spec fn spec_type_str() -> Seq<char> {
        "int32"@
    }

    open spec fn spec_schema() -> Seq<char> {
        Seq::empty()
    }

    open spec fn spec_in_range(&self) -> bool {
        true
    }

    open spec fn spec_bytes(&self) -> Seq<u8> {
        vstd::bytes::spec_u32_to_le_bytes(*self as u32)
    }

    open spec fn spec_unpack(b: Seq<u8>) -> Self {
        vstd::bytes::spec_u32_from_le_bytes(b) as i32
    }

    proof fn lemma_bytes_len(&self) {
        vstd::bytes::lemma_auto_spec_u32_to_from_le_bytes();
    }

    proof fn lemma_round_trip(&self) {
        vstd::bytes::lemma_auto_spec_u32_to_from_le_bytes();
        assert(vstd::bytes::spec_u32_to_le_bytes(*self as u32).len() == 4);
        assert(((*self as u32) as i32) == *self) by (bit_vector);
    }

    fn size() -> (r: usize) {
        4
    }

    fn type_str() -> (r: String) {
        "int32".to_owned()
    }

    fn schema() -> (r: String) {
        empty_schema_supplier()
    }

    fn pack(&self, buffer: &mut Vec<u8>) {
        let mut tmp = vstd::bytes::u32_to_le_bytes(#[verifier::truncate] (*self as u32));
        buffer.append(&mut tmp);
    }

    fn unpack(buffer: &[u8], pos: &mut usize) -> (r: Self) {
        let n = buffer.len();
        let sub = slice_subrange(buffer, *pos, *pos + 4);
        let x = vstd::bytes::u32_from_le_bytes(sub);
        *pos += 4;
        #[verifier::truncate] (x as i32)
    }

    open spec fn spec_format_field(field: Seq<char>) -> Seq<char> {
        spec_scalar_field(Self::spec_type_str(), field)
    }

    fn format_field(field: &str) -> (r: String) {
        scalar_field(Self::type_str(), field)
    }
}


impl FrcStructure for i64 {
    open spec fn spec_size() -> nat {
        8
    }

    open spec fn spec_type_str() -> Seq<char> {
        "int64"@
    }

    open spec fn spec_schema() -> Seq<char> {
        Seq::empty()
    }

    open spec fn spec_in_range(&self) -> bool {
        true
    }

    open spec fn spec_bytes(&self) -> Seq<u8> {
        vstd::bytes::spec_u64_to_le_bytes(*self as u64)
    }

    open spec fn spec_unpack(b: Seq<u8>) -> Self {
        vstd::bytes::spec_u64_from_le_bytes(b) as i64
    }

    proof fn lemma_bytes_len(&self) {
        vstd::bytes::lemma_auto_spec_u64_to_from_le_bytes();
    }

    proof fn lemma_round_trip(&self) {
        vstd::bytes::lemma_auto_spec_u64_to_from_le_bytes();
        assert(vstd::bytes::spec_u64_to_le_bytes(*self as u64).len() == 8);
        assert(((*self as u64) as i64) == *self) by (bit_vector);
    }

    fn size() -> (r: usize) {
        8
    }

    fn type_str() -> (r: String) {
        "int64".to_owned()
    }

    fn schema() -> (r: String) {
        empty_schema_supplier()
    }

    fn pack(&self, buffer: &mut Vec<u8>) {
        let mut tmp = vstd::bytes::u64_to_le_bytes(#[verifier::truncate] (*self as u64));
        buffer.append(&mut tmp);
    }

    fn unpack(buffer: &[u8], pos: &mut usize) -> (r: Self) {
        let n = buffer.len();
        let sub = slice_subrange(buffer, *pos, *pos + 8);
        let x = vstd::bytes::u64_from_le_bytes(sub);
        *pos += 8;
        #[verifier::truncate] (x as i64)
    }

    open spec fn spec_format_field(field: Seq<char>) -> Seq<char> {
        spec_scalar_field(Self::spec_type_str(), field)
    }

    fn format_field(field: &str) -> (r: String) {
        scalar_field(Self::type_str(), field)
    }
}


impl FrcStructure for i8 {
    open spec fn spec_size() -> nat {
        1
    }

    open spec fn spec_type_str() -> Seq<char> {
        "int8"@
    }

    open spec fn spec_schema() -> Seq<char> {
        Seq::empty()
    }

    open spec fn spec_in_range(&self) -> bool {
        true
    }

    open spec fn spec_bytes(&self) -> Seq<u8> {
        seq![*self as u8]
    }

    open spec fn spec_unpack(b: Seq<u8>) -> Self {
        b[0] as i8
    }

    proof fn lemma_bytes_len(&self) {
    }

    proof fn lemma_round_trip(&self) {
        assert(((*self as u8) as i8) == *self) by (bit_vector);
    }

    fn size() -> (r: usize) {
        1
    }

    fn type_str() -> (r: String) {
        "int8".to_owned()
    }

    fn schema() -> (r: String) {
        empty_schema_supplier()
    }

    fn pack(&self, buffer: &mut Vec<u8>) {
        buffer.push(#[verifier::truncate] (*self as u8));
        proof {
            assert(buffer@ =~= old(buffer)@ + self.spec_bytes());
        }
    }

    fn unpack(buffer: &[u8], pos: &mut usize) -> (r: Self) {
        let n = buffer.len();
        let b = *slice_index_get(buffer, *pos);
        *pos += 1;
        proof {
            assert(buffer@.subrange(*old(pos) as int, *old(pos) + 1)[0] == b);
        }
        #[verifier::truncate] (b as i8)
    }

    open spec fn spec_format_field(field: Seq<char>) -> Seq<char> {
        spec_scalar_field(Self::spec_type_str(), field)
    }

    fn format_field(field: &str) -> (r: String) {
        scalar_field(Self::type_str(), field)
    }
}


impl FrcStructure for char {
    open spec fn spec_size() -> nat {
        1
    }

    open spec fn spec_type_str() -> Seq<char> {
        "char"@
    }

    open spec fn spec_schema() -> Seq<char> {
        Seq::empty()
    }

    open spec fn spec_in_range(&self) -> bool {
        *self as u32 <= 255
    }

    open spec fn spec_bytes(&self) -> Seq<u8> {
        seq![(*self as u32) as u8]
    }

    open spec fn spec_unpack(b: Seq<u8>) -> Self {
        b[0] as char
    }

    proof fn lemma_bytes_len(&self) {
    }

    proof fn lemma_round_trip(&self) {
        let u: u32 = *self as u32;
        let v: u8 = u as u8;
        assert(((u as u8) as u32) == u || u > 255) by (bit_vector);
        assert(v as u32 == u);
        assert((v as char) as u32 == v as u32);
        vstd::utf8::char_u32_cast(*self, u);
        vstd::utf8::char_u32_cast(v as char, (v as char) as u32);
    }

    fn size() -> (r: usize) {
        1
    }

    fn type_str() -> (r: String) {
        "char".to_owned()
    }

    fn schema() -> (r: String) {
        empty_schema_supplier()
    }

    fn pack(&self, buffer: &mut Vec<u8>) {
        let code = *self as u32;
        buffer.push(#[verifier::truncate] (code as u8));
        proof {
            assert(buffer@ =~= old(buffer)@ + self.spec_bytes());
        }
    }

    fn unpack(buffer: &[u8], pos: &mut usize) -> (r: Self) {
        let n = buffer.len();
        let b = *slice_index_get(buffer, *pos);
        *pos += 1;
        proof {
            assert(buffer@.subrange(*old(pos) as int, *old(pos) + 1)[0] == b);
        }
        b as char
    }

    open spec fn spec_format_field(field: Seq<char>) -> Seq<char> {
        spec_scalar_field(Self::spec_type_str(), field)
    }

    fn format_field(field: &str) -> (r: String) {
        scalar_field(Self::type_str(), field)
    }
}

impl FrcStructure for Float32Bits {
    open spec fn spec_size() -> nat {
        4
    }

    open spec fn spec_type_str() -> Seq<char> {
        "float32"@
    }

    open spec fn spec_schema() -> Seq<char> {
        Seq::empty()
    }

    open spec fn spec_in_range(&self) -> bool {
        true
    }

    open spec fn spec_bytes(&self) -> Seq<u8> {
        vstd::bytes::spec_u32_to_le_bytes(self.bits)
    }

    open spec fn spec_unpack(b: Seq<u8>) -> Self {
        Float32Bits { bits: vstd::bytes::spec_u32_from_le_bytes(b) }
    }

    proof fn lemma_bytes_len(&self) {
        vstd::bytes::lemma_auto_spec_u32_to_from_le_bytes();
    }

    proof fn lemma_round_trip(&self) {
        vstd::bytes::lemma_auto_spec_u32_to_from_le_bytes();
        assert(vstd::bytes::spec_u32_to_le_bytes(self.bits).len() == 4);
    }

    fn size() -> (r: usize) {
        4
    }

    fn type_str() -> (r: String) {
        "float32".to_owned()
    }

    fn schema() -> (r: String) {
        empty_schema_supplier()
    }

    fn pack(&self, buffer: &mut Vec<u8>) {
        let mut tmp = vstd::bytes::u32_to_le_bytes(self.bits);
        buffer.append(&mut tmp);
    }

    fn unpack(buffer: &[u8], pos: &mut usize) -> (r: Self) {
        let n = buffer.len();
        let sub = slice_subrange(buffer, *pos, *pos + 4);
        let x = vstd::bytes::u32_from_le_bytes(sub);
        *pos += 4;
        Float32Bits { bits: x }
    }

    open spec fn spec_format_field(field: Seq<char>) -> Seq<char> {
        spec_scalar_field(Self::spec_type_str(), field)
    }

    fn format_field(field: &str) -> (r: String) {
        scalar_field(Self::type_str(), field)
    }
}

impl FrcStructure for Float64Bits {
    open spec fn spec_size() -> nat {
        8
    }

    open spec fn spec_type_str() -> Seq<char> {
        "float64"@
    }

    open spec fn spec_schema() -> Seq<char> {
        Seq::empty()
    }

    open spec fn spec_in_range(&self) -> bool {
        true
    }

    open spec fn spec_bytes(&self) -> Seq<u8> {
        vstd::bytes::spec_u64_to_le_bytes(self.bits)
    }

    open spec fn spec_unpack(b: Seq<u8>) -> Self {
        Float64Bits { bits: vstd::bytes::spec_u64_from_le_bytes(b) }
    }

    proof fn lemma_bytes_len(&self) {
        vstd::bytes::lemma_auto_spec_u64_to_from_le_bytes();
    }

    proof fn lemma_round_trip(&self) {
        vstd::bytes::lemma_auto_spec_u64_to_from_le_bytes();
        assert(vstd::bytes::spec_u64_to_le_bytes(self.bits).len() == 8);
    }

    fn size() -> (r: usize) {
        8
    }

    fn type_str() -> (r: String) {
        "float64".to_owned()
    }

    fn schema() -> (r: String) {
        empty_schema_supplier()
    }

    fn pack(&self, buffer: &mut Vec<u8>) {
        let mut tmp = vstd::bytes::u64_to_le_bytes(self.bits);
        buffer.append(&mut tmp);
    }

    fn unpack(buffer: &[u8], pos: &mut usize) -> (r: Self) {
        let n = buffer.len();
        let sub = slice_subrange(buffer, *pos, *pos + 8);
        let x = vstd::bytes::u64_from_le_bytes(sub);
        *pos += 8;
        Float64Bits { bits: x }
    }

    open spec fn spec_format_field(field: Seq<char>) -> Seq<char> {
        spec_scalar_field(Self::spec_type_str(), field)
    }

    fn format_field(field: &str) -> (r: String) {
        scalar_field(Self::type_str(), field)
    }
}

/// Relies on std's `TryFrom<Vec<T>>` for `[T; N]`: a vector of exactly `N`
/// elements converts into an array of the same elements; the error arm is
/// unreachable under the precondition.
#[verifier::external_body]
fn vec_to_array<T, const N: usize>(v: Vec<T>) -> (r: [T; N])
    requires
        v@.len() == N,
    ensures
        r@ == v@,
{
    match v.try_into() {
        Ok(a) => a,
        Err(_) => loop {
        },
    }
}

impl<T: FrcStructure, const N: usize> FrcStructure for [T; N] {
    open spec fn spec_size() -> nat {
        T::spec_size() * (N as nat)
    }

    open spec fn spec_type_str() -> Seq<char> {
        T::spec_type_str()
    }

    open spec fn spec_schema() -> Seq<char> {
        Seq::empty()
    }

    open spec fn spec_in_range(&self) -> bool {
        forall|i: int| 0 <= i < N ==> self@[i].spec_in_range()
    }

    open spec fn spec_bytes(&self) -> Seq<u8> {
        spec_seq_bytes(self@)
    }

    open spec fn spec_unpack(b: Seq<u8>) -> Self {
        arr_from_seq(spec_seq_unpack::<T>(b, N as nat))
    }

    proof fn lemma_bytes_len(&self) {
        super::lemma_seq_bytes_len(self@);
        let size = T::spec_size() as int;
        let n = N as int;
        assert(n * size == size * n) by (nonlinear_arith);
    }

    proof fn lemma_round_trip(&self) {
        super::lemma_seq_round_trip(self@);
        let u = spec_seq_unpack::<T>(self.spec_bytes(), N as nat);
        assert(u == self@);
        let a = arr_from_seq::<T, N>(u);
        assert(a@ == u || !(exists|w: [T; N]| w@ == u));
        assert((*self)@ == u);
        assert(a@ == u);
        assert(a =~= *self);
    }

    fn size() -> (r: usize) {
        if N == 0 {
            proof {
                let size = T::spec_size() as int;
                assert(size * 0 == 0) by (nonlinear_arith);
            }
            0
        } else {
            proof {
                let size = T::spec_size() as int;
                let n = N as int;
                assert(size <= size * n) by (nonlinear_arith)
                    requires
                        n >= 1,
                        size >= 0,
                ;
            }
            let es = T::size();
            proof {
                let size = T::spec_size() as int;
                let n = N as int;
                assert(es * n == size * n) by (nonlinear_arith)
                    requires
                        es == size,
                ;
                assert(size * n == Self::spec_size());
                assert(es * n <= usize::MAX);
            }
            es * N
        }
    }

    fn type_str() -> (r: String) {
        T::type_str()
    }

    fn schema() -> (r: String) {
        empty_schema_supplier()
    }

    fn pack(&self, buffer: &mut Vec<u8>) {
        let ghost init = buffer@;
        let mut i: usize = 0;
        while i < N
            invariant
                0 <= i <= N,
                buffer@ == init + spec_seq_bytes(self@.take(i as int)),
            decreases N - i,
        {
            let elem = *array_index_get(self, i);
            elem.pack(buffer);
            proof {
                lemma_seq_bytes_push(self@.take(i as int), self@[i as int]);
                assert(self@.take(i + 1) =~= self@.take(i as int).push(self@[i as int]));
                assert(buffer@ =~= init + spec_seq_bytes(self@.take(i + 1)));
            }
            i += 1;
        }
        proof {
            assert(self@.take(N as int) =~= self@);
        }
    }

    fn unpack(buffer: &[u8], pos: &mut usize) -> (r: Self) {
        let n = buffer.len();
        let ghost base = *old(pos) as int;
        let ghost size = T::spec_size() as int;
        let ghost bsub = buffer@.subrange(base, base + (N as int) * size);
        proof {
            assert((N as int) * size == size * (N as int)) by (nonlinear_arith);
        }
        let mut out: Vec<T> = Vec::new();
        let mut i: usize = 0;
        while i < N
            invariant
                0 <= i <= N,
                out@.len() == i,
                base + (N as int) * size <= buffer@.len() <= usize::MAX,
                size == T::spec_size(),
                base == *old(pos),
                *pos == base + i * size,
                forall|j: int|
                    0 <= j < i ==> out@[j] == T::spec_unpack(
                        #[trigger] buffer@.subrange(base + j * size, base + j * size + size),
                    ),
            decreases N - i,
        {
            proof {
                assert(i * size + size <= (N as int) * size && (i + 1) * size == i * size + size
                    && 0 <= i * size) by (nonlinear_arith)
                    requires
                        0 <= i < N,
                        size >= 0,
                ;
            }
            let elem = T::unpack(buffer, pos);
            out.push(elem);
            i += 1;
        }
        proof {
            assert(bsub.len() == (N as int) * size);
            assert((N as nat) * T::spec_size() <= bsub.len()) by (nonlinear_arith)
                requires
                    bsub.len() == (N as int) * size,
                    size == T::spec_size() as int,
            ;
            assert forall|k: int| 0 <= k < N implies out@[k] == spec_seq_unpack::<T>(
                bsub,
                N as nat,
            )[k] by {
                lemma_seq_unpack_index::<T>(bsub, N as nat, k);
                assert(0 <= k * size && k * size + size <= (N as int) * size) by (nonlinear_arith)
                    requires
                        0 <= k < N,
                        size >= 0,
                ;
                assert(bsub.subrange(k * size, k * size + size) =~= buffer@.subrange(
                    base + k * size,
                    base + k * size + size,
                ));
            }
            lemma_seq_unpack_index::<T>(bsub, N as nat, 0);
            assert(out@ =~= spec_seq_unpack::<T>(bsub, N as nat));
        }
        let r = vec_to_array::<T, N>(out);
        proof {
            let u = spec_seq_unpack::<T>(bsub, N as nat);
            let a = arr_from_seq::<T, N>(u);
            assert(r@ == u);
            assert(a@ == u);
            assert(a =~= r);
        }
        r
    }

    open spec fn spec_format_field(field: Seq<char>) -> Seq<char> {
        T::spec_type_str() + " "@ + field + "["@ + spec_decimal(N as nat) + "]"@
    }

    fn format_field(field: &str) -> (r: String) {
        let mut r = T::type_str();
        r.append(" ");
        r.append(field);
        r.append("[");
        append_decimal(&mut r, N);
        r.append("]");
        r
    }
}

} // verus!
