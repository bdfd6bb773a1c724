use std::borrow::Borrow;

use qubit_codec::value::value_codec_registration_source::source_less;
use qubit_codec::ValueCodecId;
use qubit_codec::ValueCodecIdError;
use qubit_codec::ValueCodecRegistration;
use qubit_codec::ValueCodecRegistrationSource;
use qubit_codec::ValueCodecRegistry;
use qubit_codec::ValueCodecRegistryError;

fn source(crate_name: &'static str, line: u32) -> ValueCodecRegistrationSource {
    ValueCodecRegistrationSource::new(crate_name, "codecs", "src/codecs.rs", line)
}

fn registration(id: &'static str, descriptor: &'static str, line: u32) -> ValueCodecRegistration<&'static str> {
    ValueCodecRegistration::new(ValueCodecId::new(id), descriptor, source("formats", line))
}

fn ids(registry: &ValueCodecRegistry<&'static str>) -> Vec<&'static str> {
    registry.registrations().iter().map(|r| r.id().as_str()).collect()
}

#[test]
fn id_accepts_point_separated_ascii_segments() {
    for valid in ["a", "A", "json.u16", "qubit.codec.Base64_url", "x9.y_1.Z"] {
        let id = ValueCodecId::try_new(valid).unwrap();
        assert_eq!(valid, id.as_str());
    }
}

#[test]
fn id_rejects_empty() {
    assert_eq!(Err(ValueCodecIdError::Empty), ValueCodecId::try_new(""));
}

#[test]
fn id_rejects_empty_segments() {
    assert_eq!(Err(ValueCodecIdError::EmptySegment), ValueCodecId::try_new(".a"));
    assert_eq!(Err(ValueCodecIdError::EmptySegment), ValueCodecId::try_new("a."));
    assert_eq!(Err(ValueCodecIdError::EmptySegment), ValueCodecId::try_new("a..b"));
    assert_eq!(Err(ValueCodecIdError::EmptySegment), ValueCodecId::try_new("."));
}

#[test]
fn id_rejects_invalid_segments() {
    assert_eq!(Err(ValueCodecIdError::InvalidSegment), ValueCodecId::try_new("1a"));
    assert_eq!(Err(ValueCodecIdError::InvalidSegment), ValueCodecId::try_new("a-b"));
    assert_eq!(Err(ValueCodecIdError::InvalidSegment), ValueCodecId::try_new("a._b"));
    assert_eq!(Err(ValueCodecIdError::InvalidSegment), ValueCodecId::try_new("a.b c"));
    assert_eq!(Err(ValueCodecIdError::InvalidSegment), ValueCodecId::try_new("é"));
}

#[test]
fn id_reports_first_violation_from_the_left() {
    assert_eq!(Err(ValueCodecIdError::InvalidSegment), ValueCodecId::try_new("a-b..c"));
    assert_eq!(Err(ValueCodecIdError::EmptySegment), ValueCodecId::try_new("a..1"));
}

#[test]
fn id_borrows_as_str() {
    let id = ValueCodecId::new("text.utf8");
    let borrowed: &str = id.borrow();
    assert_eq!("text.utf8", borrowed);
}

#[test]
fn empty_registry_finds_nothing() {
    let registry: ValueCodecRegistry<&'static str> = ValueCodecRegistry::empty();
    assert!(registry.get("missing.example").is_none());
    assert!(registry.registrations().is_empty());
}

#[test]
fn registry_sorts_by_id_and_finds_each_registration() {
    let input = [registration("c.one", "C", 3), registration("a.one", "A", 1), registration("b.one", "B", 2)];
    let registry = ValueCodecRegistry::from_registrations(&input).unwrap();
    assert_eq!(vec!["a.one", "b.one", "c.one"], ids(&registry));
    assert_eq!(Some(&"B"), registry.get("b.one").map(|r| r.descriptor()));
    assert_eq!(3, registry.get("c.one").unwrap().source().line());
    assert!(registry.get("b").is_none());
    assert!(registry.get("b.one.x").is_none());
}

#[test]
fn registry_order_does_not_depend_on_input_order() {
    let first = [registration("b", "B", 1), registration("c", "C", 2), registration("a", "A", 3)];
    let second = [registration("a", "A", 3), registration("b", "B", 1), registration("c", "C", 2)];
    let left = ValueCodecRegistry::from_registrations(&first).unwrap();
    let right = ValueCodecRegistry::from_registrations(&second).unwrap();
    assert_eq!(ids(&left), ids(&right));
    assert_eq!(
        left.registrations().iter().map(|r| *r.descriptor()).collect::<Vec<_>>(),
        right.registrations().iter().map(|r| *r.descriptor()).collect::<Vec<_>>()
    );
}

#[test]
fn registry_orders_ids_byte_wise() {
    let input = [registration("ab", "2", 1), registration("a", "1", 2), registration("B", "0", 3)];
    let registry = ValueCodecRegistry::from_registrations(&input).unwrap();
    assert_eq!(vec!["B", "a", "ab"], ids(&registry));
}

#[test]
fn registry_reports_smallest_duplicate_with_first_two_sources() {
    let input = [
        ValueCodecRegistration::new(ValueCodecId::new("b"), "b1", source("crate_z", 1)),
        ValueCodecRegistration::new(ValueCodecId::new("a"), "a1", source("crate_z", 2)),
        ValueCodecRegistration::new(ValueCodecId::new("b"), "b2", source("crate_a", 3)),
        ValueCodecRegistration::new(ValueCodecId::new("a"), "a2", source("crate_a", 4)),
        ValueCodecRegistration::new(ValueCodecId::new("a"), "a3", source("crate_0", 5)),
    ];
    match ValueCodecRegistry::from_registrations(&input) {
        Err(ValueCodecRegistryError::DuplicateId { id, sources }) => {
            assert_eq!("a", id);
            assert_eq!(vec![source("crate_a", 4), source("crate_z", 2)], sources);
        }
        Ok(_) => panic!("duplicate IDs must be refused"),
    }
}

#[test]
fn registry_keeps_source_order_when_already_sorted() {
    let input = [
        ValueCodecRegistration::new(ValueCodecId::new("x"), "x1", source("same", 1)),
        ValueCodecRegistration::new(ValueCodecId::new("x"), "x2", source("same", 9)),
    ];
    match ValueCodecRegistry::from_registrations(&input) {
        Err(ValueCodecRegistryError::DuplicateId { id, sources }) => {
            assert_eq!("x", id);
            assert_eq!(vec![source("same", 1), source("same", 9)], sources);
        }
        Ok(_) => panic!("duplicate IDs must be refused"),
    }
}

#[test]
fn sources_order_by_crate_module_file_then_line() {
    let base = ValueCodecRegistrationSource::new("c", "m", "f", 2);
    assert!(source_less(&ValueCodecRegistrationSource::new("b", "z", "z", 9), &base));
    assert!(source_less(&ValueCodecRegistrationSource::new("c", "l", "z", 9), &base));
    assert!(source_less(&ValueCodecRegistrationSource::new("c", "m", "e", 9), &base));
    assert!(source_less(&ValueCodecRegistrationSource::new("c", "m", "f", 1), &base));
    assert!(!source_less(&base, &base));
    assert!(!source_less(&ValueCodecRegistrationSource::new("c", "m", "f", 3), &base));
    assert_eq!("c", base.crate_name());
    assert_eq!("m", base.module());
    assert_eq!("f", base.file());
    assert_eq!(2, base.line());
}
