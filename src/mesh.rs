use vstd::prelude::*;
use vstd::string::StringExecFns;

verus! {

/// The kind of values a mesh stores for one vertex attribute: the tag of
/// the stored variant.
#[allow(non_camel_case_types)]
#[derive(Clone, Copy, Debug, PartialEq, Eq, Structural)]
pub enum VariantTag {
    Uint8,
    Uint8x2,
    Uint8x4,
    Sint8,
    Sint8x2,
    Sint8x4,
    Unorm8,
    Unorm8x2,
    Unorm8x4,
    Snorm8,
    Snorm8x2,
    Snorm8x4,
    Uint16,
    Uint16x2,
    Uint16x4,
    Sint16,
    Sint16x2,
    Sint16x4,
    Unorm16,
    Unorm16x2,
    Unorm16x4,
    Snorm16,
    Snorm16x2,
    Snorm16x4,
    Float16,
    Float16x2,
    Float16x4,
    Float32,
    Float32x2,
    Float32x3,
    Float32x4,
    Uint32,
    Uint32x2,
    Uint32x3,
    Uint32x4,
    Sint32,
    Sint32x2,
    Sint32x3,
    Sint32x4,
    Float64,
    Float64x2,
    Float64x3,
    Float64x4,
    Unorm10_10_10_2,
    Unorm8x4Bgra,
}

/// The element type that a caller asks an attribute's values to be read as.
#[derive(Clone, Copy, Debug, PartialEq, Eq, Structural)]
pub enum ElementType {
    F32,
    I32,
    U32,
    F32x2,
    I32x2,
    U32x2,
    F32x3,
    I32x3,
    U32x3,
    F32x4,
    I32x4,
    U32x4,
    I16x2,
    U16x2,
    I16x4,
    U16x4,
    I8x2,
    U8x2,
    I8x4,
    U8x4,
}

/// The stored variants from which values of element type `e` can be read.
pub open spec fn accepted(e: ElementType) -> Seq<VariantTag> {
    match e {
        ElementType::F32 => seq![VariantTag::Float32],
        ElementType::I32 => seq![VariantTag::Sint32],
        ElementType::U32 => seq![VariantTag::Uint32],
        ElementType::F32x2 => seq![VariantTag::Float32x2],
        ElementType::I32x2 => seq![VariantTag::Sint32x2],
        ElementType::U32x2 => seq![VariantTag::Uint32x2],
        ElementType::F32x3 => seq![VariantTag::Float32x3],
        ElementType::I32x3 => seq![VariantTag::Sint32x3],
        ElementType::U32x3 => seq![VariantTag::Uint32x3],
        ElementType::F32x4 => seq![VariantTag::Float32x4],
        ElementType::I32x4 => seq![VariantTag::Sint32x4],
        ElementType::U32x4 => seq![VariantTag::Uint32x4],
        ElementType::I16x2 => seq![VariantTag::Sint16x2, VariantTag::Snorm16x2],
        ElementType::U16x2 => seq![VariantTag::Uint16x2, VariantTag::Unorm16x2],
        ElementType::I16x4 => seq![VariantTag::Sint16x4, VariantTag::Snorm16x4],
        ElementType::U16x4 => seq![VariantTag::Uint16x4, VariantTag::Unorm16x4],
        ElementType::I8x2 => seq![VariantTag::Sint8x2, VariantTag::Snorm8x2],
        ElementType::U8x2 => seq![VariantTag::Uint8x2, VariantTag::Unorm8x2],
        ElementType::I8x4 => seq![VariantTag::Sint8x4, VariantTag::Snorm8x4],
        ElementType::U8x4 => seq![VariantTag::Uint8x4, VariantTag::Unorm8x4],
    }
}

/// The name of a stored variant.
pub open spec fn tag_name(t: VariantTag) -> Seq<char> {
    match t {
        VariantTag::Uint8 => "Uint8"@,
        VariantTag::Uint8x2 => "Uint8x2"@,
        VariantTag::Uint8x4 => "Uint8x4"@,
        VariantTag::Sint8 => "Sint8"@,
        VariantTag::Sint8x2 => "Sint8x2"@,
        VariantTag::Sint8x4 => "Sint8x4"@,
        VariantTag::Unorm8 => "Unorm8"@,
        VariantTag::Unorm8x2 => "Unorm8x2"@,
        VariantTag::Unorm8x4 => "Unorm8x4"@,
        VariantTag::Snorm8 => "Snorm8"@,
        VariantTag::Snorm8x2 => "Snorm8x2"@,
        VariantTag::Snorm8x4 => "Snorm8x4"@,
        VariantTag::Uint16 => "Uint16"@,
        VariantTag::Uint16x2 => "Uint16x2"@,
        VariantTag::Uint16x4 => "Uint16x4"@,
        VariantTag::Sint16 => "Sint16"@,
        VariantTag::Sint16x2 => "Sint16x2"@,
        VariantTag::Sint16x4 => "Sint16x4"@,
        VariantTag::Unorm16 => "Unorm16"@,
        VariantTag::Unorm16x2 => "Unorm16x2"@,
        VariantTag::Unorm16x4 => "Unorm16x4"@,
        VariantTag::Snorm16 => "Snorm16"@,
        VariantTag::Snorm16x2 => "Snorm16x2"@,
        VariantTag::Snorm16x4 => "Snorm16x4"@,
        VariantTag::Float16 => "Float16"@,
        VariantTag::Float16x2 => "Float16x2"@,
        VariantTag::Float16x4 => "Float16x4"@,
        VariantTag::Float32 => "Float32"@,
        VariantTag::Float32x2 => "Float32x2"@,
        VariantTag::Float32x3 => "Float32x3"@,
        VariantTag::Float32x4 => "Float32x4"@,
        VariantTag::Uint32 => "Uint32"@,
        VariantTag::Uint32x2 => "Uint32x2"@,
        VariantTag::Uint32x3 => "Uint32x3"@,
        VariantTag::Uint32x4 => "Uint32x4"@,
        VariantTag::Sint32 => "Sint32"@,
        VariantTag::Sint32x2 => "Sint32x2"@,
        VariantTag::Sint32x3 => "Sint32x3"@,
        VariantTag::Sint32x4 => "Sint32x4"@,
        VariantTag::Float64 => "Float64"@,
        VariantTag::Float64x2 => "Float64x2"@,
        VariantTag::Float64x3 => "Float64x3"@,
        VariantTag::Float64x4 => "Float64x4"@,
        VariantTag::Unorm10_10_10_2 => "Unorm10_10_10_2"@,
        VariantTag::Unorm8x4Bgra => "Unorm8x4Bgra"@,
    }
}

/// The names of `tags`, joined by `", "`.
pub open spec fn joined_names(tags: Seq<VariantTag>) -> Seq<char>
    decreases tags.len(),
{
    if tags.len() == 0 {
        seq![]
    } else if tags.len() == 1 {
        tag_name(tags[0])
    } else {
        joined_names(tags.drop_last()) + ", "@ + tag_name(tags.last())
    }
}

/// The stored variants from which values of element type `e` can be read.
pub fn expected_variants(e: ElementType) -> (r: Vec<VariantTag>)
    ensures
        r@ == accepted(e),
{
    let r = match e {
        ElementType::F32 => vec![VariantTag::Float32],
        ElementType::I32 => vec![VariantTag::Sint32],
        ElementType::U32 => vec![VariantTag::Uint32],
        ElementType::F32x2 => vec![VariantTag::Float32x2],
        ElementType::I32x2 => vec![VariantTag::Sint32x2],
        ElementType::U32x2 => vec![VariantTag::Uint32x2],
        ElementType::F32x3 => vec![VariantTag::Float32x3],
        ElementType::I32x3 => vec![VariantTag::Sint32x3],
        ElementType::U32x3 => vec![VariantTag::Uint32x3],
        ElementType::F32x4 => vec![VariantTag::Float32x4],
        ElementType::I32x4 => vec![VariantTag::Sint32x4],
        ElementType::U32x4 => vec![VariantTag::Uint32x4],
        ElementType::I16x2 => vec![VariantTag::Sint16x2, VariantTag::Snorm16x2],
        ElementType::U16x2 => vec![VariantTag::Uint16x2, VariantTag::Unorm16x2],
        ElementType::I16x4 => vec![VariantTag::Sint16x4, VariantTag::Snorm16x4],
        ElementType::U16x4 => vec![VariantTag::Uint16x4, VariantTag::Unorm16x4],
        ElementType::I8x2 => vec![VariantTag::Sint8x2, VariantTag::Snorm8x2],
        ElementType::U8x2 => vec![VariantTag::Uint8x2, VariantTag::Unorm8x2],
        ElementType::I8x4 => vec![VariantTag::Sint8x4, VariantTag::Snorm8x4],
        ElementType::U8x4 => vec![VariantTag::Uint8x4, VariantTag::Unorm8x4],
    };
    assert(r@ =~= accepted(e));
    r
}

impl VariantTag {
    /// The name of this variant.
    pub fn name(&self) -> (r: &'static str)
        ensures
            r@ == tag_name(*self),
    {
        match self {
            VariantTag::Uint8 => "Uint8",
            VariantTag::Uint8x2 => "Uint8x2",
            VariantTag::Uint8x4 => "Uint8x4",
            VariantTag::Sint8 => "Sint8",
            VariantTag::Sint8x2 => "Sint8x2",
            VariantTag::Sint8x4 => "Sint8x4",
            VariantTag::Unorm8 => "Unorm8",
            VariantTag::Unorm8x2 => "Unorm8x2",
            VariantTag::Unorm8x4 => "Unorm8x4",
            VariantTag::Snorm8 => "Snorm8",
            VariantTag::Snorm8x2 => "Snorm8x2",
            VariantTag::Snorm8x4 => "Snorm8x4",
            VariantTag::Uint16 => "Uint16",
            VariantTag::Uint16x2 => "Uint16x2",
            VariantTag::Uint16x4 => "Uint16x4",
            VariantTag::Sint16 => "Sint16",
            VariantTag::Sint16x2 => "Sint16x2",
            VariantTag::Sint16x4 => "Sint16x4",
            VariantTag::Unorm16 => "Unorm16",
            VariantTag::Unorm16x2 => "Unorm16x2",
            VariantTag::Unorm16x4 => "Unorm16x4",
            VariantTag::Snorm16 => "Snorm16",
            VariantTag::Snorm16x2 => "Snorm16x2",
            VariantTag::Snorm16x4 => "Snorm16x4",
            VariantTag::Float16 => "Float16",
            VariantTag::Float16x2 => "Float16x2",
            VariantTag::Float16x4 => "Float16x4",
            VariantTag::Float32 => "Float32",
            VariantTag::Float32x2 => "Float32x2",
            VariantTag::Float32x3 => "Float32x3",
            VariantTag::Float32x4 => "Float32x4",
            VariantTag::Uint32 => "Uint32",
            VariantTag::Uint32x2 => "Uint32x2",
            VariantTag::Uint32x3 => "Uint32x3",
            VariantTag::Uint32x4 => "Uint32x4",
            VariantTag::Sint32 => "Sint32",
            VariantTag::Sint32x2 => "Sint32x2",
            VariantTag::Sint32x3 => "Sint32x3",
            VariantTag::Sint32x4 => "Sint32x4",
            VariantTag::Float64 => "Float64",
            VariantTag::Float64x2 => "Float64x2",
            VariantTag::Float64x3 => "Float64x3",
            VariantTag::Float64x4 => "Float64x4",
            VariantTag::Unorm10_10_10_2 => "Unorm10_10_10_2",
            VariantTag::Unorm8x4Bgra => "Unorm8x4Bgra",
        }
    }
}

/// Whether values stored as `tag` can be read as element type `e`.
pub fn accepts(e: ElementType, tag: VariantTag) -> (r: bool)
    ensures
        r == accepted(e).contains(tag),
{
    let v = expected_variants(e);
    let mut i: usize = 0;
    while i < v.len()
        invariant
            i <= v.len(),
            v@ == accepted(e),
            forall|j: int| 0 <= j < i ==> v@[j] != tag,
        decreases v.len() - i,
    {
        if v[i] == tag {
            assert(v@[i as int] == tag);
            return true;
        }
        i = i + 1;
    }
    false
}

/// The names of the stored variants that element type `e` accepts, joined
/// by `", "`: the expected type shown when an attribute does not match.
pub fn expected_type_text(e: ElementType) -> (r: String)
    ensures
        r@ == joined_names(accepted(e)),
{
    let v = expected_variants(e);
    let mut s = String::new();
    let mut i: usize = 0;
    assert(v@.take(0) =~= seq![]);
    while i < v.len()
        invariant
            i <= v.len(),
            v@ == accepted(e),
            s@ == joined_names(v@.take(i as int)),
        decreases v.len() - i,
    {
        if i > 0 {
            s.append(", ");
        }
        s.append(v[i].name());
        proof {
            let t = v@.take(i as int + 1);
            assert(t.drop_last() =~= v@.take(i as int));
            assert(t.last() == v@[i as int]);
            if i == 0 {
                assert(t.len() == 1);
            }
        }
        i = i + 1;
    }
    assert(v@.take(v.len() as int) =~= v@);
    s
}

/// Why an attribute could not be read as the requested element type.
#[derive(Clone, Copy, Debug, PartialEq, Eq, Structural)]
pub enum AttributeError {
    /// The mesh has no attribute under the key.
    Missing,
    /// The attribute is stored as a variant that the element type does not
    /// accept.
    WrongVariant,
}

pub open spec fn error_message(e: AttributeError) -> Seq<char> {
    match e {
        AttributeError::Missing => "attribute doesn't exist on mesh"@,
        AttributeError::WrongVariant => "attribute's values are not the expected type"@,
    }
}

impl AttributeError {
    /// The failure message of this error.
    pub fn message(&self) -> (r: String)
        ensures
            r@ == error_message(*self),
    {
        match self {
            AttributeError::Missing => "attribute doesn't exist on mesh".to_string(),
            AttributeError::WrongVariant => "attribute's values are not the expected type".to_string(),
        }
    }
}

/// The outcome of reading an attribute stored as `stored` (`None`: absent)
/// as element type `e`.
pub open spec fn read_outcome(e: ElementType, stored: Option<VariantTag>) -> Result<
    VariantTag,
    AttributeError,
> {
    match stored {
        None => Err(AttributeError::Missing),
        Some(t) => if accepted(e).contains(t) {
            Ok(t)
        } else {
            Err(AttributeError::WrongVariant)
        },
    }
}

/// Reads one of a mesh's attributes as a slice of a requested element type,
/// then hands the slice on to the next assertion.
#[derive(Clone, Debug)]
pub struct AttributeAssertion {
    /// The name of the attribute's key, shown on failure.
    pub attribute: String,
    /// The requested element type.
    pub element: ElementType,
}

impl AttributeAssertion {
    /// Decides whether the attribute, stored as `stored` (`None` where the
    /// mesh lacks it), can be read as the requested element type: the stored
    /// variant when it can, else the error to fail with.
    pub fn execute(&self, stored: Option<VariantTag>) -> (r: Result<VariantTag, AttributeError>)
        ensures
            r == read_outcome(self.element, stored),
    {
        match stored {
            None => Err(AttributeError::Missing),
            Some(t) => if accepts(self.element, t) {
                Ok(t)
            } else {
                Err(AttributeError::WrongVariant)
            },
        }
    }

    /// The annotation naming the variants that the requested element type
    /// accepts.
    pub fn expected_type(&self) -> (r: String)
        ensures
            r@ == joined_names(accepted(self.element)),
    {
        expected_type_text(self.element)
    }
}

/// A type whose values can be read as a slice out of a mesh attribute's
/// stored values.
pub trait AttributeRef {
    /// The element type this type is read as.
    spec fn element() -> ElementType;

    /// The element type this type is read as.
    fn element_type() -> (r: ElementType)
        ensures
            r == Self::element(),
    ;
}

impl AttributeRef for i32 {
    open spec fn element() -> ElementType {
        ElementType::I32
    }

    fn element_type() -> (r: ElementType) {
        ElementType::I32
    }
}

impl AttributeRef for u32 {
    open spec fn element() -> ElementType {
        ElementType::U32
    }

    fn element_type() -> (r: ElementType) {
        ElementType::U32
    }
}

impl AttributeRef for [i32; 2] {
    open spec fn element() -> ElementType {
        ElementType::I32x2
    }

    fn element_type() -> (r: ElementType) {
        ElementType::I32x2
    }
}

impl AttributeRef for [u32; 2] {
    open spec fn element() -> ElementType {
        ElementType::U32x2
    }

    fn element_type() -> (r: ElementType) {
        ElementType::U32x2
    }
}

impl AttributeRef for [i32; 3] {
    open spec fn element() -> ElementType {
        ElementType::I32x3
    }

    fn element_type() -> (r: ElementType) {
        ElementType::I32x3
    }
}

impl AttributeRef for [u32; 3] {
    open spec fn element() -> ElementType {
        ElementType::U32x3
    }

    fn element_type() -> (r: ElementType) {
        ElementType::U32x3
    }
}

impl AttributeRef for [i32; 4] {
    open spec fn element() -> ElementType {
        ElementType::I32x4
    }

    fn element_type() -> (r: ElementType) {
        ElementType::I32x4
    }
}

impl AttributeRef for [u32; 4] {
    open spec fn element() -> ElementType {
        ElementType::U32x4
    }

    fn element_type() -> (r: ElementType) {
        ElementType::U32x4
    }
}

impl AttributeRef for [i16; 2] {
    open spec fn element() -> ElementType {
        ElementType::I16x2
    }

    fn element_type() -> (r: ElementType) {
        ElementType::I16x2
    }
}

impl AttributeRef for [u16; 2] {
    open spec fn element() -> ElementType {
        ElementType::U16x2
    }

    fn element_type() -> (r: ElementType) {
        ElementType::U16x2
    }
}

impl AttributeRef for [i16; 4] {
    open spec fn element() -> ElementType {
        ElementType::I16x4
    }

    fn element_type() -> (r: ElementType) {
        ElementType::I16x4
    }
}

impl AttributeRef for [u16; 4] {
    open spec fn element() -> ElementType {
        ElementType::U16x4
    }

    fn element_type() -> (r: ElementType) {
        ElementType::U16x4
    }
}

impl AttributeRef for [i8; 2] {
    open spec fn element() -> ElementType {
        ElementType::I8x2
    }

    fn element_type() -> (r: ElementType) {
        ElementType::I8x2
    }
}

impl AttributeRef for [u8; 2] {
    open spec fn element() -> ElementType {
        ElementType::U8x2
    }

    fn element_type() -> (r: ElementType) {
        ElementType::U8x2
    }
}

impl AttributeRef for [i8; 4] {
    open spec fn element() -> ElementType {
        ElementType::I8x4
    }

    fn element_type() -> (r: ElementType) {
        ElementType::I8x4
    }
}

impl AttributeRef for [u8; 4] {
    open spec fn element() -> ElementType {
        ElementType::U8x4
    }

    fn element_type() -> (r: ElementType) {
        ElementType::U8x4
    }
}

} // verus!
