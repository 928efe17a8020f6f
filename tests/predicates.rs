use expecters_macros::change_detection::{
    ChangeDetectionAssertions, ChangeStatus, ToBeAdded, ToBeChanged, Verdict,
};
use expecters_macros::mesh::{
    accepts, expected_type_text, expected_variants, AttributeAssertion, AttributeError,
    AttributeRef, ElementType, VariantTag,
};

fn status(added: bool, changed: bool) -> ChangeStatus {
    ChangeStatus { added, changed }
}

fn fail_text(v: Verdict) -> Option<String> {
    match v {
        Verdict::Pass => None,
        Verdict::Fail(m) => Some(m),
    }
}

#[test]
fn added_passes_only_on_creation_update() {
    let s = status(true, true);
    assert!(matches!(s.to_be_added().execute(s), Verdict::Pass));
    let later = status(false, false);
    assert_eq!(
        fail_text(later.to_be_added().execute(later)).unwrap(),
        "not added since last update"
    );
    let mutated = status(false, true);
    assert!(fail_text(ToBeAdded {}.execute(mutated)).is_some());
}

#[test]
fn changed_passes_on_creation_and_mutation() {
    let created = status(true, true);
    assert!(matches!(created.to_be_changed().execute(created), Verdict::Pass));
    let mutated = status(false, true);
    assert!(matches!(ToBeChanged {}.execute(mutated), Verdict::Pass));
    let idle = status(false, false);
    assert_eq!(
        fail_text(ToBeChanged {}.execute(idle)).unwrap(),
        "not added or changed since last update"
    );
}

fn attr(element: ElementType) -> AttributeAssertion {
    AttributeAssertion { attribute: "Vertex_Position".to_string(), element }
}

#[test]
fn float3_attribute_is_read_as_float3() {
    assert_eq!(attr(ElementType::F32x3).execute(Some(VariantTag::Float32x3)), Ok(VariantTag::Float32x3));
}

#[test]
fn float3_attribute_read_as_u32_is_wrong_variant() {
    let a = attr(ElementType::U32);
    let r = a.execute(Some(VariantTag::Float32x3));
    assert_eq!(r, Err(AttributeError::WrongVariant));
    assert_eq!(r.unwrap_err().message(), "attribute's values are not the expected type");
    assert_eq!(a.expected_type(), "Uint32");
    assert_eq!(attr(ElementType::F32x3).expected_type(), "Float32x3");
}

#[test]
fn absent_attribute_is_missing_for_every_type() {
    for e in [ElementType::F32, ElementType::F32x3, ElementType::U32, ElementType::U8x4] {
        let r = attr(e).execute(None);
        assert_eq!(r, Err(AttributeError::Missing));
        assert_eq!(r.unwrap_err().message(), "attribute doesn't exist on mesh");
    }
}

#[test]
fn normalized_variants_are_accepted() {
    assert_eq!(expected_variants(ElementType::I16x2), vec![VariantTag::Sint16x2, VariantTag::Snorm16x2]);
    assert!(accepts(ElementType::U8x4, VariantTag::Unorm8x4));
    assert!(accepts(ElementType::U8x4, VariantTag::Uint8x4));
    assert!(!accepts(ElementType::U8x4, VariantTag::Sint8x4));
    assert_eq!(expected_type_text(ElementType::U16x4), "Uint16x4, Unorm16x4");
    assert_eq!(VariantTag::Snorm8x2.name(), "Snorm8x2");
}

#[test]
fn added_status_is_also_changed() {
    let s = status(true, true);
    assert!(matches!(ToBeAdded {}.execute(s), Verdict::Pass));
    assert!(matches!(ToBeChanged {}.execute(s), Verdict::Pass));
}

#[test]
fn element_types_of_integer_types() {
    assert_eq!(<u32 as AttributeRef>::element_type(), ElementType::U32);
    assert_eq!(<[i16; 4] as AttributeRef>::element_type(), ElementType::I16x4);
    assert_eq!(<[u8; 2] as AttributeRef>::element_type(), ElementType::U8x2);
}
