use thrush::foreign::{
    bind_foreign_class, bind_foreign_method, wren_fn, Allocate, ClassBinding, ClassDesc, Foreign,
    MethodBinding, MethodDesc, WrenClass,
};
use thrush::marshal::{CallForm, Param, ParamKind};
use thrush::util::from_str;
use thrush::vm::WrenBuilder;

#[derive(Default)]
struct Counter(u32);

impl WrenClass for Counter {
    const ID: usize = 7;
    const MODULE: &'static str = "main";
    const CLASS: &'static str = "Counter";
}

fn class(module: &str, name: &str) -> ClassDesc {
    ClassDesc { module: from_str(module), class_name: from_str(name) }
}

fn method(module: &str, name: &str, is_static: bool, signature: &str) -> MethodDesc {
    MethodDesc {
        module: from_str(module),
        class_name: from_str(name),
        is_static,
        signature: from_str(signature),
    }
}

#[test]
fn lookup_returns_registered_class() {
    let mut registry = Foreign::new();
    let binding = ClassBinding { allocate: Allocate::Fresh { id: 1 }, finalize: 1 };
    registry.register_class(class("main", "A"), binding);
    assert_eq!(registry.lookup_class(&class("main", "A")), Some(binding));
    assert_eq!(registry.lookup_class(&class("main", "B")), None);
    assert_eq!(registry.lookup_class(&class("other", "A")), None);
}

#[test]
fn second_class_registration_wins() {
    let mut registry = Foreign::new();
    let first = ClassBinding { allocate: Allocate::Fresh { id: 1 }, finalize: 1 };
    let second = ClassBinding { allocate: Allocate::Fresh { id: 2 }, finalize: 2 };
    let other = ClassBinding { allocate: Allocate::Fresh { id: 3 }, finalize: 3 };
    registry.register_class(class("main", "A"), first);
    registry.register_class(class("main", "B"), other);
    registry.register_class(class("main", "A"), second);
    assert_eq!(registry.lookup_class(&class("main", "A")), Some(second));
    assert_eq!(registry.lookup_class(&class("main", "B")), Some(other));
}

#[test]
fn second_method_registration_wins() {
    let mut registry = Foreign::new();
    registry.register_method(method("main", "A", false, "f(_)"), MethodBinding { callback: 1 });
    registry.register_method(method("main", "A", false, "f(_)"), MethodBinding { callback: 2 });
    assert_eq!(
        registry.lookup_method(&method("main", "A", false, "f(_)")),
        Some(MethodBinding { callback: 2 })
    );
}

#[test]
fn methods_differ_by_arity_form_and_staticness() {
    let mut registry = Foreign::new();
    registry.register_method(method("main", "A", false, "f(_)"), MethodBinding { callback: 1 });
    registry.register_method(method("main", "A", false, "f(_,_)"), MethodBinding { callback: 2 });
    registry.register_method(method("main", "A", false, "f[_]"), MethodBinding { callback: 3 });
    registry.register_method(method("main", "A", true, "f(_)"), MethodBinding { callback: 4 });
    assert_eq!(
        registry.lookup_method(&method("main", "A", false, "f(_)")),
        Some(MethodBinding { callback: 1 })
    );
    assert_eq!(
        registry.lookup_method(&method("main", "A", false, "f(_,_)")),
        Some(MethodBinding { callback: 2 })
    );
    assert_eq!(
        registry.lookup_method(&method("main", "A", false, "f[_]")),
        Some(MethodBinding { callback: 3 })
    );
    assert_eq!(
        registry.lookup_method(&method("main", "A", true, "f(_)")),
        Some(MethodBinding { callback: 4 })
    );
    assert_eq!(registry.lookup_method(&method("main", "A", true, "g(_)")), None);
}

#[test]
fn bind_class_uses_the_names_of_the_type() {
    let mut registry = Foreign::default();
    registry.bind_class::<Counter>();
    assert_eq!(
        registry.lookup_class(&class("main", "Counter")),
        Some(ClassBinding { allocate: Allocate::Fresh { id: 7 }, finalize: 7 })
    );
}

#[test]
fn class_hook_answers_with_the_sentinel_for_an_unbound_class() {
    let mut registry = Foreign::new();
    registry.bind_class::<Counter>();
    assert_eq!(
        bind_foreign_class(&registry, b"main\0", b"Counter\0"),
        ClassBinding { allocate: Allocate::Fresh { id: 7 }, finalize: 7 }
    );
    assert_eq!(
        bind_foreign_class(&registry, b"main\0", b"Missing\0"),
        ClassBinding { allocate: Allocate::Invalid, finalize: usize::MAX }
    );
}

#[test]
fn method_hook_answers_by_full_signature() {
    let params = vec![
        Param::Named(ParamKind::Foreign { id: 7, label: "Counter".to_string() }),
        Param::Named(ParamKind::Num),
    ];
    let add = wren_fn(CallForm::Parens, params, 11);
    assert_eq!(add.signature, "(_)");
    let mut registry = Foreign::new();
    registry.bind_method("main", "Counter", false, "add", add);
    assert_eq!(
        bind_foreign_method(&registry, b"main\0", b"Counter\0", false, b"add(_)\0"),
        Some(MethodBinding { callback: 11 })
    );
    assert_eq!(bind_foreign_method(&registry, b"main\0", b"Counter\0", true, b"add(_)\0"), None);
    assert_eq!(bind_foreign_method(&registry, b"main\0", b"Counter\0", false, b"add()\0"), None);
}

#[test]
fn builder_hands_its_bindings_to_the_machine_state() {
    let getter = wren_fn(CallForm::Bare, vec![Param::Ignored], 5);
    let vm = WrenBuilder::new()
        .bind_class::<Counter>()
        .bind_method("main", "Counter", false, "value", getter)
        .build();
    let data = vm.user_data();
    assert!(!data.has_error());
    assert_eq!(
        data.foreigns().lookup_class(&class("main", "Counter")),
        Some(ClassBinding { allocate: Allocate::Fresh { id: 7 }, finalize: 7 })
    );
    assert_eq!(
        data.foreigns().lookup_method(&method("main", "Counter", false, "value")),
        Some(MethodBinding { callback: 5 })
    );
}
