use std::sync::Arc;
use vhdl_lang::ast::{Designator, Mode, ObjectClass};
use vhdl_lang::named_entity::{
    new_id, FullTypeRef, IdCounter, NamedEntity, NamedEntityKind, Object, ParameterList, Signature,
    SignatureKey, Subtype,
};
use vhdl_lang::region::Region;
use vhdl_lang::source::{Position, Severity, SrcPos};

fn ident(name: &str) -> Designator {
    Designator::Identifier(name.to_string())
}

fn type_decl(counter: &mut IdCounter, name: &str) -> Arc<NamedEntity> {
    Arc::new(NamedEntity::new(counter, ident(name), NamedEntityKind::TypeDeclaration(Vec::new()), None))
}

fn subtype_of(counter: &mut IdCounter, name: &str, base: &Arc<NamedEntity>) -> Arc<NamedEntity> {
    Arc::new(NamedEntity::new(
        counter,
        ident(name),
        NamedEntityKind::Subtype(Subtype::new(base.clone())),
        None,
    ))
}

fn interface_object(
    counter: &mut IdCounter,
    name: &str,
    class: ObjectClass,
    mode: Mode,
    typ: &Arc<NamedEntity>,
) -> Arc<NamedEntity> {
    Arc::new(NamedEntity::new(
        counter,
        ident(name),
        NamedEntityKind::Object(Object {
            class,
            mode: Some(mode),
            subtype: Subtype::new(typ.clone()),
            has_default: false,
        }),
        None,
    ))
}

fn pos() -> SrcPos {
    SrcPos {
        source: 3,
        start: Position { line: 1, character: 2 },
        end: Position { line: 1, character: 9 },
    }
}

#[test]
fn ids_are_handed_out_in_order() {
    let mut counter = IdCounter::new();
    let a = new_id(&mut counter);
    let b = new_id(&mut counter);
    let c = new_id(&mut counter);
    assert_ne!(a, b);
    assert_ne!(b, c);
    assert_ne!(a, c);
    let e = NamedEntity::new(&mut counter, ident("x"), NamedEntityKind::Label, None);
    assert_ne!(e.id(), c);
    assert_eq!(SignatureKey::new(vec![a, b], Some(c)), SignatureKey::new(vec![a, b], Some(c)));
}

#[test]
fn successive_ids_are_distinct() {
    let mut counter = IdCounter::new();
    let ids: Vec<_> = (0..100).map(|_| new_id(&mut counter)).collect();
    for i in 0..ids.len() {
        for j in i + 1..ids.len() {
            assert_ne!(ids[i], ids[j]);
        }
    }
}

#[test]
fn constructors_set_id_and_implicitness() {
    let mut counter = IdCounter::new();
    let id = new_id(&mut counter);
    let e = NamedEntity::new_with_id(id, ident("x"), NamedEntityKind::Label, Some(&pos()));
    assert_eq!(e.id(), id);
    assert!(e.is_explicit());
    assert!(!e.is_implicit());
    assert_eq!(e.decl_pos(), Some(&pos()));
    assert_eq!(e.designator(), &ident("x"));

    let given = NamedEntity::new_with_opt_id(&mut counter, Some(id), ident("y"), NamedEntityKind::File, None);
    assert_eq!(given.id(), id);
    assert_eq!(given.decl_pos(), None);
    let fresh = NamedEntity::new_with_opt_id(&mut counter, None, ident("y"), NamedEntityKind::File, None);
    assert_ne!(fresh.id(), id);

    let imp = NamedEntity::implicit(&mut counter, ident("z"), NamedEntityKind::Label, Some(&pos()));
    assert!(imp.is_implicit());
    assert_eq!(imp.decl_pos(), None);
    assert!(!imp.is_explicit());
}

#[test]
fn clone_with_kind_keeps_identity() {
    let mut counter = IdCounter::new();
    let e = NamedEntity::new(&mut counter, ident("lit"), NamedEntityKind::Label, Some(&pos()));
    let imp = NamedEntity::implicit(&mut counter, ident("imp"), NamedEntityKind::Label, None);
    assert!(imp.clone_with_kind(NamedEntityKind::File).is_implicit());
    let c = e.clone_with_kind(NamedEntityKind::LoopParameter);
    assert_eq!(c.id(), e.id());
    assert!(c == e);
    assert!(c.is_explicit());
    let explicit = NamedEntity::new(&mut counter, ident("t"), NamedEntityKind::Label, None);
    assert!(explicit.clone_with_kind(NamedEntityKind::File).is_explicit());
    assert_eq!(c.designator(), e.designator());
    assert_eq!(c.decl_pos(), Some(&pos()));
    assert!(matches!(c.kind(), NamedEntityKind::LoopParameter));
    let other = NamedEntity::new(&mut counter, ident("lit"), NamedEntityKind::Label, None);
    assert!(!(other == e));
}

#[test]
fn aliases_resolve_to_the_actual_entity() {
    let mut counter = IdCounter::new();
    let int = type_decl(&mut counter, "integer");
    let sub = subtype_of(&mut counter, "natural", &int);
    let alias1 = Arc::new(NamedEntity::new(&mut counter, ident("a1"), NamedEntityKind::AliasOf(sub.clone()), None));
    let alias2 = Arc::new(NamedEntity::new(&mut counter, ident("a2"), NamedEntityKind::AliasOf(alias1.clone()), None));

    assert_eq!(alias2.as_actual().id(), sub.id());
    assert!(matches!(alias2.actual_kind(), NamedEntityKind::Subtype(..)));
    assert_eq!(alias2.base_type().id(), int.id());
    assert_eq!(sub.base_type().id(), int.id());
    assert_eq!(int.base_type().id(), int.id());
    assert_eq!(int.as_actual().id(), int.id());

    assert!(alias2.is_alias_of(&alias1));
    assert!(alias2.is_alias_of(&sub));
    assert!(alias1.is_alias_of(&sub));
    assert!(alias2.is_alias_of(alias2.as_actual()));
    assert!(alias1.is_alias_of(alias1.as_actual()));
    assert!(!alias1.is_alias_of(&alias2));
    assert!(!sub.is_alias_of(&int));
    assert!(!alias2.is_alias_of(&int));
}

#[test]
fn kind_predicates() {
    let mut counter = IdCounter::new();
    let int = type_decl(&mut counter, "integer");
    assert!(NamedEntityKind::DeferredConstant.is_deferred_constant());
    assert!(!NamedEntityKind::DeferredConstant.is_non_deferred_constant());
    let constant = NamedEntityKind::Object(Object {
        class: ObjectClass::Constant,
        mode: None,
        subtype: Subtype::new(int.clone()),
        has_default: true,
    });
    assert!(constant.is_non_deferred_constant());
    assert!(!constant.is_deferred_constant());
    let interface_constant = NamedEntityKind::Object(Object {
        class: ObjectClass::Constant,
        mode: Some(Mode::In),
        subtype: Subtype::new(int.clone()),
        has_default: false,
    });
    assert!(!interface_constant.is_non_deferred_constant());
    let region = Arc::new(Region { entities: Vec::new() });
    assert!(NamedEntityKind::ProtectedType(region.clone()).is_protected_type());
    assert!(NamedEntityKind::ProtectedType(region.clone()).is_type());
    assert!(NamedEntityKind::RecordType(region.clone()).is_type());
    assert!(NamedEntityKind::InterfaceType.is_type());
    assert!(NamedEntityKind::IncompleteType(FullTypeRef { inner: arc_swap::ArcSwapWeak::new(std::sync::Weak::new()) }).is_type());
    assert!(NamedEntityKind::AccessType(Subtype::new(int.clone())).is_type());
    assert!(!NamedEntityKind::Package(region).is_type());
    assert!(!constant.is_type());
    assert!(!NamedEntityKind::Label.is_protected_type());
}

#[test]
fn implicit_declarations_of_a_type() {
    let mut counter = IdCounter::new();
    let a = Arc::new(NamedEntity::implicit(&mut counter, ident("a"), NamedEntityKind::Label, None));
    let b = Arc::new(NamedEntity::implicit(&mut counter, ident("b"), NamedEntityKind::Label, None));
    let kind = NamedEntityKind::TypeDeclaration(vec![a.clone(), b.clone()]);
    let implicit = kind.implicit_declarations();
    assert_eq!(implicit.len(), 2);
    assert_eq!(implicit[0].id(), a.id());
    assert_eq!(implicit[1].id(), b.id());
    assert!(NamedEntityKind::Label.implicit_declarations().is_empty());
}

#[test]
fn kind_descriptions() {
    let mut counter = IdCounter::new();
    let int = type_decl(&mut counter, "integer");
    let region = Arc::new(Region { entities: Vec::new() });
    assert_eq!(NamedEntityKind::OtherAlias.describe(), "alias");
    assert_eq!(NamedEntityKind::File.describe(), "file");
    assert_eq!(NamedEntityKind::ElementDeclaration(Subtype::new(int.clone())).describe(), "element declaration");
    assert_eq!(NamedEntityKind::UninstPackage(region.clone()).describe(), "uninstantiated package");
    assert_eq!(NamedEntityKind::LocalPackageInstance(region).describe(), "package instance");
    assert_eq!(NamedEntityKind::IncompleteType(FullTypeRef { inner: arc_swap::ArcSwapWeak::new(std::sync::Weak::new()) }).describe(), "type");
    assert_eq!(NamedEntityKind::DeferredConstant.describe(), "deferred constant");
    assert_eq!(NamedEntityKind::Subprogram(Signature::default()).describe(), "procedure");
    let function = Signature::new(ParameterList::default(), Some(int.clone()));
    assert_eq!(NamedEntityKind::SubprogramDecl(function).describe(), "function");
    let shared = NamedEntityKind::Object(Object {
        class: ObjectClass::SharedVariable,
        mode: None,
        subtype: Subtype::new(int),
        has_default: false,
    });
    assert_eq!(shared.describe(), "shared variable");
    assert_eq!(ObjectClass::Signal.describe(), "signal");
    assert_eq!(Mode::InOut.describe(), "inout");
}

#[test]
fn designator_text() {
    assert_eq!(ident("foo").to_string(), "foo");
    assert_eq!(Designator::OperatorSymbol("+".to_string()).to_string(), "\"+\"");
    assert_eq!(Designator::Character(b'a').to_string(), "'a'");
    assert_eq!(Designator::Character(0xe9).to_string(), "'\u{e9}'");
}

fn sample_signature(counter: &mut IdCounter) -> (Signature, Arc<NamedEntity>, Arc<NamedEntity>, Arc<NamedEntity>) {
    let int = type_decl(counter, "integer");
    let nat = subtype_of(counter, "natural", &int);
    let text = type_decl(counter, "text");
    let boolean = type_decl(counter, "boolean");
    let p1 = interface_object(counter, "a", ObjectClass::Constant, Mode::In, &nat);
    let p2 = Arc::new(NamedEntity::new(counter, ident("f"), NamedEntityKind::InterfaceFile(text.clone()), None));
    let mut params = ParameterList::default();
    params.add_param(p1);
    params.add_param(p2);
    (Signature::new(params, Some(boolean.clone())), int, text, boolean)
}

#[test]
fn signature_key_uses_base_types() {
    let mut counter = IdCounter::new();
    let (sig, int, text, boolean) = sample_signature(&mut counter);
    assert_eq!(sig.key(), SignatureKey::new(vec![int.id(), text.id()], Some(boolean.id())));
    assert_eq!(sig.clone().key(), sig.key());
    assert_eq!(Signature::default().key(), SignatureKey::new(vec![], None));
}

#[test]
fn signature_descriptions() {
    let mut counter = IdCounter::new();
    let (sig, int, _, _) = sample_signature(&mut counter);
    assert_eq!(sig.describe(), "[integer, text, return boolean]");
    assert_eq!(Signature::default().describe(), "[]");
    let mut params = ParameterList::default();
    params.add_param(interface_object(&mut counter, "x", ObjectClass::Signal, Mode::Out, &int));
    let procedure = Signature::new(params.clone(), None);
    assert_eq!(procedure.describe(), "[integer]");
    let function = Signature::new(ParameterList::default(), Some(int));
    assert_eq!(function.describe(), "[return integer]");
}

#[test]
fn entity_descriptions() {
    let mut counter = IdCounter::new();
    let int = type_decl(&mut counter, "integer");
    assert_eq!(int.describe(), "type 'integer'");

    let konst = Arc::new(NamedEntity::new(
        &mut counter,
        ident("c"),
        NamedEntityKind::Object(Object {
            class: ObjectClass::Constant,
            mode: None,
            subtype: Subtype::new(int.clone()),
            has_default: true,
        }),
        None,
    ));
    assert_eq!(konst.describe(), "constant 'c'");
    let iface_const = interface_object(&mut counter, "ic", ObjectClass::Constant, Mode::In, &int);
    assert_eq!(iface_const.describe(), "interface constant 'ic'");
    let iface_sig = interface_object(&mut counter, "s", ObjectClass::Signal, Mode::Buffer, &int);
    assert_eq!(iface_sig.describe(), "interface signal 's' : buffer");

    let alias = NamedEntity::new(&mut counter, ident("al"), NamedEntityKind::AliasOf(konst.clone()), None);
    assert_eq!(alias.describe(), "alias 'al' of constant 'c'");
    let alias2 = NamedEntity::new(&mut counter, ident("al2"), NamedEntityKind::AliasOf(Arc::new(alias)), None);
    assert_eq!(alias2.describe(), "alias 'al2' of constant 'c'");

    let (sig, _, _, _) = sample_signature(&mut counter);
    let func = NamedEntity::new(&mut counter, Designator::OperatorSymbol("+".to_string()), NamedEntityKind::Subprogram(sig), None);
    assert_eq!(func.describe(), "function '\"+\"' with signature [integer, text, return boolean]");
    let lit = NamedEntity::new(&mut counter, Designator::Character(b'0'), NamedEntityKind::EnumLiteral(Signature::new(ParameterList::default(), Some(int))), None);
    assert_eq!(lit.describe(), "enum literal ''0'' with signature [return integer]");
}

#[test]
fn signatures_of_overloaded_entities() {
    let mut counter = IdCounter::new();
    let (sig, _, _, _) = sample_signature(&mut counter);
    let func = Arc::new(NamedEntity::new(&mut counter, ident("f"), NamedEntityKind::SubprogramDecl(sig), None));
    assert!(func.is_overloaded());
    assert!(func.is_subprogram_decl());
    assert!(!func.is_subprogram());
    assert_eq!(func.signature().unwrap().describe(), "[integer, text, return boolean]");
    let alias = NamedEntity::new(&mut counter, ident("g"), NamedEntityKind::AliasOf(func.clone()), None);
    assert!(alias.is_overloaded());
    assert!(!alias.is_subprogram_decl());
    let label = NamedEntity::new(&mut counter, ident("l"), NamedEntityKind::Label, None);
    assert!(!label.is_overloaded());
    assert!(label.signature().is_none());
    let body = NamedEntity::new(&mut counter, ident("p"), NamedEntityKind::Subprogram(Signature::default()), None);
    assert!(body.is_subprogram());
}

#[test]
fn errors_are_reported_at_the_declaration() {
    let mut counter = IdCounter::new();
    let mut diagnostics = Vec::new();
    let placed = NamedEntity::new(&mut counter, ident("x"), NamedEntityKind::Label, Some(&pos()));
    placed.error(&mut diagnostics, "bad".to_string());
    assert_eq!(diagnostics.len(), 1);
    assert_eq!(diagnostics[0].pos, pos());
    assert_eq!(diagnostics[0].message, "bad");
    assert_eq!(diagnostics[0].severity, Severity::Error);
    let builtin = NamedEntity::new(&mut counter, ident("y"), NamedEntityKind::Label, None);
    builtin.error(&mut diagnostics, "ignored".to_string());
    assert_eq!(diagnostics.len(), 1);
}

#[test]
fn clones_keep_contents() {
    let mut counter = IdCounter::new();
    let int = type_decl(&mut counter, "integer");
    let st = Subtype::new(int.clone());
    assert_eq!(st.clone().base().id(), int.id());
    let obj = Object { class: ObjectClass::Variable, mode: None, subtype: st, has_default: true };
    let copy = obj.clone();
    assert_eq!(copy.class, ObjectClass::Variable);
    assert_eq!(copy.mode, None);
    assert!(copy.has_default);
    assert_eq!(copy.subtype.base().id(), int.id());
    assert_eq!(Designator::Character(b'x').clone(), Designator::Character(b'x'));
}

#[test]
fn overloads_are_keyed_by_base_types() {
    let mut counter = IdCounter::new();
    let int = type_decl(&mut counter, "integer");
    let nat = subtype_of(&mut counter, "natural", &int);
    let alias = Arc::new(NamedEntity::new(&mut counter, ident("int_alias"), NamedEntityKind::AliasOf(int.clone()), None));
    let mut by_subtype = ParameterList::default();
    by_subtype.add_param(interface_object(&mut counter, "a", ObjectClass::Constant, Mode::In, &nat));
    let mut by_type = ParameterList::default();
    by_type.add_param(interface_object(&mut counter, "b", ObjectClass::Variable, Mode::InOut, &int));
    let s1 = Signature::new(by_subtype, Some(nat.clone()));
    let s2 = Signature::new(by_type, Some(alias));
    assert_eq!(s1.key(), s2.key());
    assert_ne!(s1.key(), Signature::new(ParameterList::default(), Some(int)).key());
}
