use thrush::foreign::{
    alloc_foreign_class, alloc_invalid_class, bind_foreign, check_finalize,
    finalize_foreign_class, Allocate, ClassBinding, ForeignClass, Header, WrenClass,
};

#[derive(Default, Debug, PartialEq)]
struct Point {
    x: i32,
    y: i32,
}

impl WrenClass for Point {
    const ID: usize = 1;
    const MODULE: &'static str = "geometry";
    const CLASS: &'static str = "Point";
}

#[derive(Default, Debug, PartialEq)]
struct Label(String);

impl WrenClass for Label {
    const ID: usize = 2;
    const MODULE: &'static str = "geometry";
    const CLASS: &'static str = "Label";
}

#[test]
fn new_envelope_is_valid_and_tagged() {
    let envelope = ForeignClass::new(Point { x: 3, y: 4 });
    assert!(envelope.is_valid());
    assert_eq!(envelope.get_id(), 1);
    assert_eq!(envelope.get_data(), &Point { x: 3, y: 4 });
    assert_eq!(envelope.header(), Header { valid: true, id: 1 });
}

#[test]
fn payload_can_be_changed_in_place() {
    let mut envelope = ForeignClass::new(Point { x: 3, y: 4 });
    envelope.get_data_mut().x = 10;
    assert_eq!(envelope.get_data(), &Point { x: 10, y: 4 });
    assert!(envelope.is_valid());
    assert_eq!(envelope.get_id(), 1);
}

#[test]
fn default_envelope_holds_the_default_payload() {
    let envelope: ForeignClass<Label> = Default::default();
    assert!(envelope.is_valid());
    assert_eq!(envelope.get_id(), 2);
    assert_eq!(envelope.get_data(), &Label(String::new()));
    let allocated = alloc_foreign_class::<Point>();
    assert_eq!(allocated.header(), Header { valid: true, id: 1 });
    assert_eq!(allocated.get_data(), &Point { x: 0, y: 0 });
}

#[test]
fn sentinel_envelope_is_invalid_with_the_reserved_tag() {
    let envelope = alloc_invalid_class();
    assert!(!envelope.is_valid());
    assert_eq!(envelope.get_id(), usize::MAX);
    assert_eq!(<() as WrenClass>::ID, usize::MAX);
    assert_eq!(<() as WrenClass>::MODULE, "<none>");
    assert_eq!(<() as WrenClass>::CLASS, "Unit");
}

#[test]
fn binding_of_a_type_carries_its_tag() {
    assert_eq!(
        bind_foreign::<Label>(),
        ClassBinding { allocate: Allocate::Fresh { id: 2 }, finalize: 2 }
    );
}

#[test]
fn finalizer_accepts_its_own_type_only() {
    let envelope = ForeignClass::new(Point { x: 1, y: 2 });
    assert!(check_finalize::<Point>(envelope.header()));
    assert!(!check_finalize::<Label>(envelope.header()));
    assert!(!check_finalize::<()>(envelope.header()));
    assert!(check_finalize::<()>(alloc_invalid_class().header()));
    assert_eq!(finalize_foreign_class(envelope), Point { x: 1, y: 2 });
}
