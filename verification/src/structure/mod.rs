//! Fixed-layout binary struct serialization.
//!
//! A packable type exposes a byte size, a process-unique type name and a
//! textual schema, and packs itself to little-endian bytes with no padding,
//! no framing and no length prefix.  Descriptors for such types live in a
//! registry keyed by type name, which the schema parser consults when it
//! flattens nested struct references into absolute byte offsets.

mod lexer;
mod prims;
mod sample;
mod schema;

pub use lexer::lex_schema;
pub use lexer::spec_lex;
pub use lexer::SpecTok;
pub use lexer::Token;
pub use prims::empty_schema_supplier;
pub use prims::Float32Bits;
pub use prims::Float64Bits;
pub use sample::Meter;
pub use sample::MyEnum;
pub use sample::NestedTestStruct;
pub use schema::fields_view;
pub use schema::parse_schema;
pub use schema::parse_schema_toplevel;
pub use schema::spec_parse_schema;
pub use schema::spec_parse_toplevel;
pub use schema::FieldV;
pub use schema::PARSE_FUEL;

use crate::value::CastErrorReason;
use crate::value::FrcType;
use crate::value::FrcValueCastError;
use vstd::prelude::*;
use vstd::string::*;

verus! {

/// The wire type of one flattened schema field, with its repeat count.
#[derive(Clone, Copy, Debug, PartialEq, Eq, Structural)]
pub enum StructureFieldTypes {
    Bool(usize),
    Char(usize),
    Int8(usize),
    Int16(usize),
    Int32(usize),
    Int64(usize),
    UInt8(usize),
    UInt16(usize),
    UInt32(usize),
    UInt64(usize),
    Float32(usize),
    Float64(usize),
}

impl StructureFieldTypes {
    /// The byte width of one element of this wire type.
    pub open spec fn spec_base_size(self) -> nat {
        match self {
            Self::Bool(_) => 1,
            Self::Char(_) => 1,
            Self::Int8(_) => 1,
            Self::Int16(_) => 2,
            Self::Int32(_) => 4,
            Self::Int64(_) => 8,
            Self::UInt8(_) => 1,
            Self::UInt16(_) => 2,
            Self::UInt32(_) => 4,
            Self::UInt64(_) => 8,
            Self::Float32(_) => 4,
            Self::Float64(_) => 8,
        }
    }

    /// The repeat count carried by this wire type.
    pub open spec fn spec_count(self) -> nat {
        (match self {
            Self::Bool(c) => c,
            Self::Char(c) => c,
            Self::Int8(c) => c,
            Self::Int16(c) => c,
            Self::Int32(c) => c,
            Self::Int64(c) => c,
            Self::UInt8(c) => c,
            Self::UInt16(c) => c,
            Self::UInt32(c) => c,
            Self::UInt64(c) => c,
            Self::Float32(c) => c,
            Self::Float64(c) => c,
        }) as nat
    }

    /// The total byte size: element width times repeat count.
    pub open spec fn spec_size(self) -> nat {
        self.spec_base_size() * self.spec_count()
    }

    /// The byte width of one element of this wire type.
    pub fn base_size(&self) -> (r: usize)
        ensures
            r == self.spec_base_size(),
    {
        match self {
            Self::Bool(_) => 1,
            Self::Char(_) => 1,
            Self::Int8(_) => 1,
            Self::Int16(_) => 2,
            Self::Int32(_) => 4,
            Self::Int64(_) => 8,
            Self::UInt8(_) => 1,
            Self::UInt16(_) => 2,
            Self::UInt32(_) => 4,
            Self::UInt64(_) => 8,
            Self::Float32(_) => 4,
            Self::Float64(_) => 8,
        }
    }

    /// The repeat count carried by this wire type.
    pub fn count(&self) -> (r: usize)
        ensures
            r == self.spec_count(),
    {
        match self {
            Self::Bool(c) => *c,
            Self::Char(c) => *c,
            Self::Int8(c) => *c,
            Self::Int16(c) => *c,
            Self::Int32(c) => *c,
            Self::Int64(c) => *c,
            Self::UInt8(c) => *c,
            Self::UInt16(c) => *c,
            Self::UInt32(c) => *c,
            Self::UInt64(c) => *c,
            Self::Float32(c) => *c,
            Self::Float64(c) => *c,
        }
    }

    /// The total byte size of the field.
    pub fn size(&self) -> (r: usize)
        requires
            self.spec_size() <= usize::MAX,
        ensures
            r == self.spec_size(),
    {
        self.base_size() * self.count()
    }

    /// The wire type named `name`, or `None` when the name is not a
    /// primitive type name of the schema language.
    pub open spec fn spec_from_type(name: Seq<char>, count: usize) -> Option<Self> {
        if name == "bool"@ {
            Some(Self::Bool(count))
        } else if name == "char"@ {
            Some(Self::Char(count))
        } else if name == "int8"@ {
            Some(Self::Int8(count))
        } else if name == "int16"@ {
            Some(Self::Int16(count))
        } else if name == "int32"@ {
            Some(Self::Int32(count))
        } else if name == "int64"@ {
            Some(Self::Int64(count))
        } else if name == "uint8"@ {
            Some(Self::UInt8(count))
        } else if name == "uint16"@ {
            Some(Self::UInt16(count))
        } else if name == "uint32"@ {
            Some(Self::UInt32(count))
        } else if name == "uint64"@ {
            Some(Self::UInt64(count))
        } else if name == "float"@ || name == "float32"@ {
            Some(Self::Float32(count))
        } else if name == "double"@ || name == "float64"@ {
            Some(Self::Float64(count))
        } else {
            None
        }
    }

    /// Resolves a primitive type name of the schema language.
    pub fn from_type(name: &str, count: usize) -> (r: Option<Self>)
        ensures
            r == Self::spec_from_type(name@, count),
    {
        if crate::text::str_eq(name, "bool") {
            Some(Self::Bool(count))
        } else if crate::text::str_eq(name, "char") {
            Some(Self::Char(count))
        } else if crate::text::str_eq(name, "int8") {
            Some(Self::Int8(count))
        } else if crate::text::str_eq(name, "int16") {
            Some(Self::Int16(count))
        } else if crate::text::str_eq(name, "int32") {
            Some(Self::Int32(count))
        } else if crate::text::str_eq(name, "int64") {
            Some(Self::Int64(count))
        } else if crate::text::str_eq(name, "uint8") {
            Some(Self::UInt8(count))
        } else if crate::text::str_eq(name, "uint16") {
            Some(Self::UInt16(count))
        } else if crate::text::str_eq(name, "uint32") {
            Some(Self::UInt32(count))
        } else if crate::text::str_eq(name, "uint64") {
            Some(Self::UInt64(count))
        } else if crate::text::str_eq(name, "float") || crate::text::str_eq(
            name,
            "float32",
        ) {
            Some(Self::Float32(count))
        } else if crate::text::str_eq(name, "double") || crate::text::str_eq(
            name,
            "float64",
        ) {
            Some(Self::Float64(count))
        } else {
            None
        }
    }
}

/// The mathematical content of a descriptor: type name, byte size and
/// schema text.
pub struct DescView {
    pub type_str: Seq<char>,
    pub size: nat,
    pub schema: Seq<char>,
}

/// Immutable metadata describing one packable type: its process-unique
/// type name, its packed byte size, and its schema text.
#[derive(Debug)]
pub struct FrcStructDesc {
    pub type_str: String,
    pub size: usize,
    pub schema: String,
}

impl View for FrcStructDesc {
    type V = DescView;

    open spec fn view(&self) -> DescView {
        DescView { type_str: self.type_str@, size: self.size as nat, schema: self.schema@ }
    }
}

impl Clone for FrcStructDesc {
    fn clone(&self) -> (r: Self)
        ensures
            r@ == self@,
    {
        FrcStructDesc {
            type_str: self.type_str.clone(),
            size: self.size,
            schema: self.schema.clone(),
        }
    }
}

/// Whether some descriptor in `s` carries the type name `name`.
pub open spec fn desc_seq_contains(s: Seq<DescView>, name: Seq<char>) -> bool {
    exists|i: int| 0 <= i < s.len() && s[i].type_str == name
}

/// The first descriptor in `s` carrying the type name `name`.
pub open spec fn desc_seq_get(s: Seq<DescView>, name: Seq<char>) -> Option<DescView>
    decreases s.len(),
{
    if s.len() == 0 {
        None
    } else if s[0].type_str == name {
        Some(s[0])
    } else {
        desc_seq_get(s.drop_first(), name)
    }
}

/// Registration: appends `d` unless its type name is already present.
pub open spec fn desc_seq_add(s: Seq<DescView>, d: DescView) -> Seq<DescView> {
    if desc_seq_contains(s, d.type_str) {
        s
    } else {
        s.push(d)
    }
}

/// How many descriptors in `s` carry the type name `name`.
pub open spec fn desc_seq_count(s: Seq<DescView>, name: Seq<char>) -> nat
    decreases s.len(),
{
    if s.len() == 0 {
        0
    } else {
        (if s[0].type_str == name {
            1nat
        } else {
            0nat
        }) + desc_seq_count(s.drop_first(), name)
    }
}

/// At most one descriptor per type name.
pub open spec fn desc_seq_wf(s: Seq<DescView>) -> bool {
    forall|i: int, j: int|
        0 <= i < j < s.len() ==> s[i].type_str != s[j].type_str
}

proof fn lemma_desc_seq_get_some(s: Seq<DescView>, name: Seq<char>)
    ensures
        desc_seq_get(s, name) is Some <==> desc_seq_contains(s, name),
        desc_seq_get(s, name) matches Some(d) ==> d.type_str == name,
    decreases s.len(),
{
    if s.len() > 0 {
        lemma_desc_seq_get_some(s.drop_first(), name);
        if s[0].type_str != name {
            if desc_seq_contains(s, name) {
                let i = choose|i: int| 0 <= i < s.len() && s[i].type_str == name;
                assert(s.drop_first()[i - 1] == s[i]);
                assert(desc_seq_contains(s.drop_first(), name));
            }
            if desc_seq_contains(s.drop_first(), name) {
                let i = choose|i: int|
                    0 <= i < s.drop_first().len() && s.drop_first()[i].type_str == name;
                assert(s[i + 1] == s.drop_first()[i]);
            }
        }
    }
}

proof fn lemma_desc_seq_get_prefix(s: Seq<DescView>, name: Seq<char>, i: int)
    requires
        0 <= i <= s.len(),
        forall|k: int| 0 <= k < i ==> s[k].type_str != name,
    ensures
        desc_seq_get(s, name) == desc_seq_get(s.skip(i), name),
    decreases i,
{
    if i > 0 {
        assert(s[0].type_str != name);
        lemma_desc_seq_get_prefix(s.drop_first(), name, i - 1);
        assert(s.drop_first().skip(i - 1) =~= s.skip(i));
    } else {
        assert(s.skip(0) =~= s);
    }
}

proof fn lemma_desc_seq_count_unique(s: Seq<DescView>, name: Seq<char>)
    requires
        desc_seq_wf(s),
    ensures
        desc_seq_count(s, name) == if desc_seq_contains(s, name) {
            1nat
        } else {
            0nat
        },
    decreases s.len(),
{
    if s.len() > 0 {
        let rest = s.drop_first();
        assert forall|i: int, j: int| 0 <= i < j < rest.len() implies rest[i].type_str
            != rest[j].type_str by {
            assert(rest[i] == s[i + 1]);
            assert(rest[j] == s[j + 1]);
        }
        lemma_desc_seq_count_unique(rest, name);
        if s[0].type_str == name {
            if desc_seq_contains(rest, name) {
                let i = choose|i: int| 0 <= i < rest.len() && rest[i].type_str == name;
                assert(s[i + 1] == rest[i]);
                assert(false);
            }
        } else {
            if desc_seq_contains(s, name) {
                let i = choose|i: int| 0 <= i < s.len() && s[i].type_str == name;
                assert(rest[i - 1] == s[i]);
                assert(desc_seq_contains(rest, name));
            }
            if desc_seq_contains(rest, name) {
                let i = choose|i: int| 0 <= i < rest.len() && rest[i].type_str == name;
                assert(s[i + 1] == rest[i]);
            }
        }
    }
}

/// Registering a descriptor is idempotent: adding the same descriptor a
/// second time changes nothing, and a registry that was free of its type
/// name before the first add holds exactly one entry under that name after
/// any number of repeated adds.
pub proof fn lemma_add_idempotent(s: Seq<DescView>, d: DescView)
    requires
        desc_seq_wf(s),
    ensures
        desc_seq_add(desc_seq_add(s, d), d) == desc_seq_add(s, d),
        desc_seq_count(desc_seq_add(s, d), d.type_str) == 1,
        desc_seq_wf(desc_seq_add(s, d)),
{
    if desc_seq_contains(s, d.type_str) {
        lemma_desc_seq_count_unique(s, d.type_str);
    } else {
        let s2 = s.push(d);
        assert(s2[s.len() as int].type_str == d.type_str);
        assert(desc_seq_contains(s2, d.type_str));
        assert forall|i: int, j: int| 0 <= i < j < s2.len() implies s2[i].type_str
            != s2[j].type_str by {
            if j < s.len() {
            } else {
                assert(s2[j] == d);
                assert(s2[i] == s[i]);
                assert(!(exists|k: int| 0 <= k < s.len() && s[k].type_str == d.type_str));
            }
        }
        lemma_desc_seq_count_unique(s2, d.type_str);
    }
}

/// The process-wide registry of struct descriptors: an append-only,
/// idempotent collection keyed by type name.
pub struct FrcStructDescDB {
    descs: Vec<FrcStructDesc>,
}

impl View for FrcStructDescDB {
    type V = Seq<DescView>;

    closed spec fn view(&self) -> Seq<DescView> {
        self.descs@.map(|i: int, d: FrcStructDesc| d@)
    }
}

impl FrcStructDescDB {
    /// An empty registry.
    pub fn new() -> (r: Self)
        ensures
            r@ == Seq::<DescView>::empty(),
            desc_seq_wf(r@),
    {
        let r = FrcStructDescDB { descs: Vec::new() };
        proof {
            assert(r@ =~= Seq::<DescView>::empty());
        }
        r
    }

    /// Whether a descriptor under this type name is registered.
    pub fn contains(&self, type_str: &str) -> (r: bool)
        ensures
            r == desc_seq_contains(self@, type_str@),
    {
        let mut i: usize = 0;
        let n = self.descs.len();
        while i < n
            invariant
                n == self.descs.len(),
                self@.len() == n,
                0 <= i <= n,
                forall|k: int| 0 <= k < i ==> self@[k].type_str != type_str@,
            decreases n - i,
        {
            if crate::text::str_eq(self.descs[i].type_str.as_str(), type_str) {
                assert(self@[i as int].type_str == type_str@);
                return true;
            }
            i += 1;
        }
        false
    }

    /// The registered descriptor under this type name, if any.
    pub fn get(&self, type_str: &str) -> (r: Option<&FrcStructDesc>)
        ensures
            match r {
                Some(d) => desc_seq_get(self@, type_str@) == Some(d@),
                None => !desc_seq_contains(self@, type_str@),
            },
    {
        let mut i: usize = 0;
        let n = self.descs.len();
        while i < n
            invariant
                n == self.descs.len(),
                self@.len() == n,
                0 <= i <= n,
                forall|k: int| 0 <= k < i ==> self@[k].type_str != type_str@,
            decreases n - i,
        {
            if crate::text::str_eq(self.descs[i].type_str.as_str(), type_str) {
                proof {
                    lemma_desc_seq_get_prefix(self@, type_str@, i as int);
                    assert(self@.skip(i as int)[0] == self@[i as int]);
                }
                return Some(&self.descs[i]);
            }
            i += 1;
        }
        None
    }

    /// Registers a descriptor; a no-op when its type name is already
    /// present, so registration is idempotent and first writer wins.
    pub fn add(&mut self, desc: FrcStructDesc)
        ensures
            final(self)@ == desc_seq_add(old(self)@, desc@),
            desc_seq_wf(old(self)@) ==> desc_seq_wf(final(self)@),
    {
        let ghost prev = self@;
        if self.contains(desc.type_str.as_str()) {
            return;
        }
        self.descs.push(desc);
        proof {
            assert(self@ =~= prev.push(desc@));
            if desc_seq_wf(prev) {
                assert forall|i: int, j: int| 0 <= i < j < self@.len() implies self@[i].type_str
                    != self@[j].type_str by {
                    if j == prev.len() as int {
                        assert(!(exists|k: int|
                            0 <= k < prev.len() && prev[k].type_str == desc@.type_str));
                    }
                }
            }
        }
    }

    /// The registered descriptors, in registration order.
    pub fn descriptors(&self) -> (r: &Vec<FrcStructDesc>)
        ensures
            r@.map(|i: int, d: FrcStructDesc| d@) == self@,
    {
        &self.descs
    }

    /// Registers a descriptor given by reference, cloning it; a no-op when
    /// its type name is already present.
    pub fn add_ref(&mut self, desc: &FrcStructDesc)
        ensures
            final(self)@ == desc_seq_add(old(self)@, desc@),
            desc_seq_wf(old(self)@) ==> desc_seq_wf(final(self)@),
    {
        self.add(desc.clone());
    }
}

/// The per-type packing contract.
///
/// A packable type has a fixed byte size, a process-unique type name and a
/// textual schema.  `pack` appends the value's little-endian wire bytes to a
/// buffer without touching what is already there; `unpack` consumes exactly
/// `spec_size()` bytes at a cursor and reconstructs the value.  Every
/// implementation proves the round-trip law: unpacking what was packed gives
/// the value back, for every value the wire format can represent exactly.
pub trait FrcStructure: Sized + Copy {
    /// The packed byte size of every value of this type.
    spec fn spec_size() -> nat;

    /// The process-unique type name.
    spec fn spec_type_str() -> Seq<char>;

    /// The schema text describing the packed layout.
    spec fn spec_schema() -> Seq<char>;

    /// Whether the wire format represents this value exactly.  This holds
    /// of every value for every type whose wire width matches the type;
    /// `char` narrows to one byte on the wire, so only its first 256 code
    /// points are exact.
    spec fn spec_in_range(&self) -> bool;

    /// The little-endian wire bytes of this value.
    spec fn spec_bytes(&self) -> Seq<u8>;

    /// The value read back from wire bytes of length `spec_size()`.
    spec fn spec_unpack(b: Seq<u8>) -> Self;

    /// The wire byte count of a value is its type's size.
    proof fn lemma_bytes_len(&self)
        ensures
            self.spec_bytes().len() == Self::spec_size(),
    ;

    /// Round trip: unpacking a packed value gives the value back.
    proof fn lemma_round_trip(&self)
        requires
            self.spec_in_range(),
        ensures
            Self::spec_unpack(self.spec_bytes()) == *self,
    ;

    /// The packed byte size.  A packable type's size fits the machine:
    /// nothing larger could sit in one buffer.
    fn size() -> (r: usize)
        requires
            Self::spec_size() <= usize::MAX,
        ensures
            r == Self::spec_size(),
    ;

    /// The process-unique type name.
    fn type_str() -> (r: String)
        ensures
            r@ == Self::spec_type_str(),
    ;

    /// The schema text describing the packed layout.
    fn schema() -> (r: String)
        ensures
            r@ == Self::spec_schema(),
    ;

    /// Appends this value's wire bytes to the buffer; bytes already present
    /// are never touched.
    fn pack(&self, buffer: &mut Vec<u8>)
        ensures
            final(buffer)@ == old(buffer)@ + self.spec_bytes(),
    ;

    /// Reads one value at `*pos`, advancing `*pos` by exactly
    /// `spec_size()` bytes.
    fn unpack(buffer: &[u8], pos: &mut usize) -> (r: Self)
        requires
            *old(pos) + Self::spec_size() <= buffer@.len(),
        ensures
            *final(pos) == *old(pos) + Self::spec_size(),
            r == Self::spec_unpack(
                buffer@.subrange(*old(pos) as int, *old(pos) + Self::spec_size()),
            ),
    ;

    /// How a field of this type and the given name renders in schema text.
    spec fn spec_format_field(field: Seq<char>) -> Seq<char>;

    /// Renders a schema field declaration for this type.
    fn format_field(field: &str) -> (r: String)
        ensures
            r@ == Self::spec_format_field(field@),
    ;

    /// The descriptor bundling this type's name, size and schema text.
    fn description() -> (d: FrcStructDesc)
        requires
            Self::spec_size() <= usize::MAX,
        ensures
            d@ == (DescView {
                type_str: Self::spec_type_str(),
                size: Self::spec_size(),
                schema: Self::spec_schema(),
            }),
    {
        FrcStructDesc { type_str: Self::type_str(), size: Self::size(), schema: Self::schema() }
    }
}

/// The concatenated wire bytes of a sequence of packable values, in order.
pub open spec fn spec_seq_bytes<T: FrcStructure>(s: Seq<T>) -> Seq<u8>
    decreases s.len(),
{
    if s.len() == 0 {
        Seq::empty()
    } else {
        s[0].spec_bytes() + spec_seq_bytes(s.drop_first())
    }
}

/// The sequence of `n` values read back from consecutive fixed-size chunks
/// of `b`.
pub open spec fn spec_seq_unpack<T: FrcStructure>(b: Seq<u8>, n: nat) -> Seq<T>
    decreases n,
{
    if n == 0 {
        Seq::empty()
    } else {
        seq![T::spec_unpack(b.take(T::spec_size() as int))] + spec_seq_unpack(
            b.skip(T::spec_size() as int),
            (n - 1) as nat,
        )
    }
}

/// Packing a sequence then one more value appends that value's bytes.
pub proof fn lemma_seq_bytes_push<T: FrcStructure>(s: Seq<T>, x: T)
    ensures
        spec_seq_bytes(s.push(x)) == spec_seq_bytes(s) + x.spec_bytes(),
    decreases s.len(),
{
    if s.len() == 0 {
        assert(s.push(x).drop_first() =~= Seq::<T>::empty());
        assert(s.push(x)[0] == x);
        assert(spec_seq_bytes(Seq::<T>::empty()) =~= Seq::<u8>::empty());
        assert(s =~= Seq::<T>::empty());
        assert(spec_seq_bytes(s.push(x)) =~= spec_seq_bytes(s) + x.spec_bytes());
    } else {
        lemma_seq_bytes_push(s.drop_first(), x);
        assert(s.push(x).drop_first() =~= s.drop_first().push(x));
        assert(s.push(x)[0] == s[0]);
        assert(spec_seq_bytes(s.push(x)) == s[0].spec_bytes() + spec_seq_bytes(
            s.drop_first().push(x),
        ));
        assert(spec_seq_bytes(s.push(x)) =~= spec_seq_bytes(s) + x.spec_bytes());
    }
}

/// The wire bytes of a sequence take one type-size chunk per element.
pub proof fn lemma_seq_bytes_len<T: FrcStructure>(s: Seq<T>)
    ensures
        spec_seq_bytes(s).len() == s.len() * T::spec_size(),
    decreases s.len(),
{
    if s.len() == 0 {
    } else {
        s[0].lemma_bytes_len();
        lemma_seq_bytes_len::<T>(s.drop_first());
        let size = T::spec_size() as int;
        let n = s.len() as int;
        assert(size + (n - 1) * size == n * size) by (nonlinear_arith)
            requires
                n >= 1,
        ;
    }
}

/// Element `k` of an unpacked sequence comes from chunk `k` of the bytes.
pub proof fn lemma_seq_unpack_index<T: FrcStructure>(b: Seq<u8>, n: nat, k: int)
    requires
        n * T::spec_size() <= b.len(),
    ensures
        spec_seq_unpack::<T>(b, n).len() == n,
        0 <= k < n ==> spec_seq_unpack::<T>(b, n)[k] == T::spec_unpack(
            b.subrange(k * T::spec_size(), k * T::spec_size() + T::spec_size()),
        ),
    decreases n,
{
    let size = T::spec_size() as int;
    if n > 0 {
        assert((n - 1) * size == n * size - size && size <= n * size) by (nonlinear_arith)
            requires
                n >= 1,
                size >= 0,
        ;
        lemma_seq_unpack_index::<T>(b.skip(size), (n - 1) as nat, k - 1);
        if k == 0 {
            assert(b.take(size) =~= b.subrange(0, size));
        } else if 0 < k < n {
            assert((k - 1) * size == k * size - size && k * size + size <= n * size) by (
            nonlinear_arith)
                requires
                    0 < k < n,
                    size >= 0,
            ;
            assert(b.skip(size).subrange(k * size - size, k * size) =~= b.subrange(
                k * size,
                k * size + size,
            ));
        }
    }
}

/// Round trip for sequences: unpacking packed values, one chunk per
/// element, gives the same sequence back.
pub proof fn lemma_seq_round_trip<T: FrcStructure>(s: Seq<T>)
    requires
        forall|i: int| 0 <= i < s.len() ==> s[i].spec_in_range(),
    ensures
        spec_seq_unpack::<T>(spec_seq_bytes(s), s.len()) == s,
    decreases s.len(),
{
    let size = T::spec_size() as int;
    if s.len() > 0 {
        let b = spec_seq_bytes(s);
        s[0].lemma_bytes_len();
        lemma_seq_bytes_len::<T>(s.drop_first());
        assert(b.take(size) =~= s[0].spec_bytes());
        assert(b.skip(size) =~= spec_seq_bytes(s.drop_first()));
        s[0].lemma_round_trip();
        lemma_seq_round_trip::<T>(s.drop_first());
        assert(spec_seq_unpack::<T>(b, s.len()) =~= s);
    }
}

/// The cursor discipline composes: when two packed values sit one after
/// the other, unpacking each type's own chunk in order gives both values
/// back, for every pair the wire format represents exactly.
pub proof fn lemma_sequential_round_trip<A: FrcStructure, B: FrcStructure>(a: A, b: B)
    requires
        a.spec_in_range(),
        b.spec_in_range(),
    ensures
        ({
            let bytes = a.spec_bytes() + b.spec_bytes();
            &&& A::spec_unpack(bytes.subrange(0, A::spec_size() as int)) == a
            &&& B::spec_unpack(
                bytes.subrange(
                    A::spec_size() as int,
                    A::spec_size() as int + B::spec_size() as int,
                ),
            ) == b
        }),
{
    a.lemma_bytes_len();
    b.lemma_bytes_len();
    let bytes = a.spec_bytes() + b.spec_bytes();
    assert(bytes.subrange(0, A::spec_size() as int) =~= a.spec_bytes());
    assert(bytes.subrange(A::spec_size() as int, A::spec_size() as int + B::spec_size() as int)
        =~= b.spec_bytes());
    a.lemma_round_trip();
    b.lemma_round_trip();
}

/// The array with the given elements; meaningful when a witness exists.
pub open spec fn arr_from_seq<T, const N: usize>(s: Seq<T>) -> [T; N] {
    choose|a: [T; N]| a@ == s
}

/// Whether a byte buffer can be read back as a whole number of packed
/// values of a type: empty always can; otherwise the type must have a
/// positive size that divides the buffer's length.
pub open spec fn spec_array_castable<T: FrcStructure>(len: nat) -> bool {
    len == 0 || (T::spec_size() > 0 && len % T::spec_size() == 0)
}

/// How many packed values of a type a byte buffer holds.
pub open spec fn spec_array_count<T: FrcStructure>(len: nat) -> nat {
    if T::spec_size() == 0 {
        0
    } else {
        len / T::spec_size()
    }
}

/// A packed struct value carried as plain bytes: the descriptor of its
/// type, how many packed values the bytes hold, and the bytes themselves.
/// This is the bundle that moves struct data through a generic transport
/// without the original compiled type.
#[derive(Debug, Clone)]
pub struct FrcStructureBytes {
    pub desc: FrcStructDesc,
    pub count: usize,
    pub data: Vec<u8>,
}

impl FrcStructureBytes {
    /// Bundles a descriptor, a value count and packed bytes.
    pub fn from_parts(desc: &FrcStructDesc, count: usize, data: Vec<u8>) -> (r: Self)
        ensures
            r.desc@ == desc@,
            r.count == count,
            r.data@ == data@,
    {
        FrcStructureBytes { desc: desc.clone(), count, data }
    }

    /// Packs one value into a fresh bundle.
    pub fn from_struct<T: FrcStructure>(value: &T) -> (r: Self)
        requires
            T::spec_size() <= usize::MAX,
        ensures
            r.desc@ == (DescView {
                type_str: T::spec_type_str(),
                size: T::spec_size(),
                schema: T::spec_schema(),
            }),
            r.count == 1,
            r.data@ == value.spec_bytes(),
    {
        let mut buffer: Vec<u8> = Vec::with_capacity(T::size());
        value.pack(&mut buffer);
        proof {
            assert(buffer@ =~= value.spec_bytes());
        }
        FrcStructureBytes { desc: T::description(), count: 1, data: buffer }
    }

    /// Reads the bundled bytes back as one value of `T`.  This succeeds
    /// exactly when the buffer length equals the type's packed size;
    /// anything else is a reported size mismatch, never an abort.
    pub fn try_into_struct<T: FrcStructure>(self) -> (r: Result<T, FrcValueCastError>)
        requires
            T::spec_size() <= usize::MAX,
        ensures
            self.data@.len() == T::spec_size() ==> (r matches Ok(v) && v == T::spec_unpack(
                self.data@,
            )),
            self.data@.len() != T::spec_size() ==> (r matches Err(
                FrcValueCastError::InvalidCastTo(t, nm, c),
            ) && t == FrcType::Struct && nm@ == T::spec_type_str() && c
                == CastErrorReason::Deserialization),
    {
        let n = self.data.len();
        if n == T::size() {
            let mut pos: usize = 0;
            let v = T::unpack(self.data.as_slice(), &mut pos);
            proof {
                assert(self.data@.subrange(0, T::spec_size() as int) =~= self.data@);
            }
            Ok(v)
        } else {
            Err(
                FrcValueCastError::InvalidCastTo(
                    FrcType::Struct,
                    T::type_str(),
                    CastErrorReason::Deserialization,
                ),
            )
        }
    }

    /// Packs a slice of values into a fresh bundle, one packed value after
    /// the other with no framing between them.
    pub fn from_struct_array<T: FrcStructure>(values: &[T]) -> (r: Self)
        requires
            T::spec_size() <= usize::MAX,
        ensures
            r.desc@ == (DescView {
                type_str: T::spec_type_str(),
                size: T::spec_size(),
                schema: T::spec_schema(),
            }),
            r.count == values@.len(),
            r.data@ == spec_seq_bytes(values@),
    {
        let mut buffer: Vec<u8> = Vec::new();
        let mut i: usize = 0;
        let n = values.len();
        proof {
            assert(values@.take(0) =~= Seq::<T>::empty());
            assert(buffer@ =~= spec_seq_bytes(values@.take(0)));
        }
        while i < n
            invariant
                n == values@.len(),
                0 <= i <= n,
                buffer@ == spec_seq_bytes(values@.take(i as int)),
            decreases n - i,
        {
            let elem = *vstd::slice::slice_index_get(values, i);
            elem.pack(&mut buffer);
            proof {
                lemma_seq_bytes_push(values@.take(i as int), values@[i as int]);
                assert(values@.take(i + 1) =~= values@.take(i as int).push(values@[i as int]));
                assert(buffer@ =~= spec_seq_bytes(values@.take(i + 1)));
            }
            i += 1;
        }
        proof {
            assert(values@.take(n as int) =~= values@);
        }
        FrcStructureBytes { desc: T::description(), count: n, data: buffer }
    }

    /// Reads the bundled bytes back as a vector of values of `T`.  This
    /// succeeds exactly when the bytes cut into whole packed values:
    /// an empty buffer gives an empty vector; otherwise the type's packed
    /// size must be positive and divide the buffer length.
    pub fn try_into_struct_array<T: FrcStructure>(self) -> (r: Result<Vec<T>, FrcValueCastError>)
        requires
            T::spec_size() <= usize::MAX,
        ensures
            spec_array_castable::<T>(self.data@.len() as nat) ==> (r matches Ok(v) && v@
                == spec_seq_unpack::<T>(
                self.data@,
                spec_array_count::<T>(self.data@.len() as nat),
            )),
            !spec_array_castable::<T>(self.data@.len() as nat) ==> (r matches Err(
                FrcValueCastError::InvalidCastTo(t, nm, c),
            ) && t == FrcType::StructArray && nm@ == T::spec_type_str() && c
                == CastErrorReason::Deserialization),
    {
        let n = self.data.len();
        if n == 0 {
            let empty: Vec<T> = Vec::new();
            proof {
                assert(empty@ =~= spec_seq_unpack::<T>(self.data@, 0));
            }
            return Ok(empty);
        }
        let es = T::size();
        if es == 0 || n % es != 0 {
            return Err(
                FrcValueCastError::InvalidCastTo(
                    FrcType::StructArray,
                    T::type_str(),
                    CastErrorReason::Deserialization,
                ),
            );
        }
        let cnt = n / es;
        proof {
            vstd::arithmetic::div_mod::lemma_fundamental_div_mod(n as int, es as int);
            assert(n as int == (es as int) * (cnt as int));
            assert((cnt as int) * (es as int) == (es as int) * (cnt as int)) by (nonlinear_arith);
        }
        let ghost size = T::spec_size() as int;
        let mut out: Vec<T> = Vec::new();
        let mut pos: usize = 0;
        let mut k: usize = 0;
        while k < cnt
            invariant
                0 <= k <= cnt,
                size == T::spec_size(),
                out@.len() == k,
                (cnt as int) * size == self.data@.len(),
                pos == k * size,
                forall|j: int|
                    0 <= j < k ==> out@[j] == T::spec_unpack(
                        #[trigger] self.data@.subrange(j * size, j * size + size),
                    ),
            decreases cnt - k,
        {
            proof {
                assert(k * size + size <= (cnt as int) * size && (k + 1) * size == k * size + size
                    && 0 <= k * size) by (nonlinear_arith)
                    requires
                        0 <= k < cnt,
                        size >= 0,
                ;
            }
            let elem = T::unpack(self.data.as_slice(), &mut pos);
            out.push(elem);
            k += 1;
        }
        proof {
            assert((cnt as nat) * T::spec_size() <= self.data@.len()) by (nonlinear_arith)
                requires
                    (cnt as int) * size == self.data@.len(),
                    size == T::spec_size() as int,
            ;
            assert(cnt == spec_array_count::<T>(self.data@.len() as nat));
            assert forall|j: int| 0 <= j < cnt implies out@[j] == spec_seq_unpack::<T>(
                self.data@,
                cnt as nat,
            )[j] by {
                lemma_seq_unpack_index::<T>(self.data@, cnt as nat, j);
            }
            lemma_seq_unpack_index::<T>(self.data@, cnt as nat, 0);
            assert(out@ =~= spec_seq_unpack::<T>(self.data@, cnt as nat));
        }
        Ok(out)
    }
}

/// The scalar rendering `"<type> <field>"`; the default for every
/// non-array type.
pub open spec fn spec_scalar_field(name: Seq<char>, field: Seq<char>) -> Seq<char> {
    name + " "@ + field
}

/// Builds the scalar field rendering `"<type> <field>"`.
pub fn scalar_field(name: String, field: &str) -> (r: String)
    ensures
        r@ == spec_scalar_field(name@, field@),
{
    let mut r = name;
    r.append(" ");
    r.append(field);
    r
}

} // verus!
