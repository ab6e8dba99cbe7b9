//! Laws of named entities, stated from what each operation is for rather
//! than from how it is computed.
use vstd::prelude::*;
use crate::ast::{designator_text, mode_text, object_class_text, Designator, Mode, ObjectClass};
use crate::named_entity::{
    description, id_successor, is_alias, is_interface, kind_implicit_declarations, kind_is_type,
    kind_signature, kind_text, params_text, signature_key_of, signature_text, NamedEntity,
    NamedEntityKind, Object, Signature,
};

verus! {

/// The name under which messages and keys show the type of a parameter:
/// the base type of an interface object's subtype, or the base type of an
/// interface file's file type.
pub open spec fn shown_param_type(p: NamedEntity) -> NamedEntity {
    match p.spec_kind() {
        NamedEntityKind::Object(obj) => obj.subtype.spec_base().spec_base_type(),
        NamedEntityKind::InterfaceFile(file_type) => (*file_type).spec_base_type(),
        _ => p,
    }
}

/// A signature is shown between square brackets, and a signature with a
/// return type ends by naming the declared return type itself (not its base
/// type): "return", its designator and the closing bracket. A signature
/// without parameters shows only its return part.
pub proof fn lemma_signature_text_shows_declared_return_type(sig: Signature)
    ensures
        signature_text(sig).len() >= 2,
        signature_text(sig)[0] == '[',
        signature_text(sig).last() == ']',
        sig.spec_return_type() matches Some(ret) ==> {
            let tail = "return "@ + designator_text((*ret).spec_designator()) + "]"@;
            let text = signature_text(sig);
            &&& text.len() >= tail.len()
            &&& text.subrange(text.len() - tail.len(), text.len() as int) == tail
        },
        sig.spec_params().len() == 0 ==> signature_text(sig) == "["@ + match sig.spec_return_type() {
            Some(ret) => "return "@ + designator_text((*ret).spec_designator()),
            None => Seq::empty(),
        } + "]"@,
{
    reveal_strlit("[");
    reveal_strlit("]");
    reveal_strlit("return ");
    if sig.spec_return_type() is Some {
        assert(signature_text(sig) =~= ("["@ + crate::named_entity::params_text(
            sig.spec_params(),
            true,
            sig.spec_params().len(),
        )) + ("return "@ + designator_text((*sig.spec_return_type()->0).spec_designator()) + "]"@));
        assert(signature_text(sig).subrange(
            signature_text(sig).len() - ("return "@ + designator_text(
                (*sig.spec_return_type()->0).spec_designator(),
            ) + "]"@).len(),
            signature_text(sig).len() as int,
        ) =~= "return "@ + designator_text((*sig.spec_return_type()->0).spec_designator()) + "]"@);
    }
}

/// Two signatures with one interface parameter each, and no return type,
/// are shown as the base type of the parameter between brackets; with a
/// return type, the parameter is followed by ", return" and the return type.
pub proof fn lemma_signature_text_one_param(sig: Signature)
    requires
        sig.spec_params().len() == 1,
        is_interface(*sig.spec_params()[0]),
    ensures
        signature_text(sig) == "["@ + designator_text(shown_param_type(*sig.spec_params()[0]).spec_designator()) + match sig.spec_return_type() {
            Some(ret) => ", return "@ + designator_text((*ret).spec_designator()),
            None => Seq::empty(),
        } + "]"@,
{
    reveal_strlit(", ");
    reveal_strlit("return ");
    reveal_strlit(", return ");
    reveal_with_fuel(crate::named_entity::params_text, 2);
    if sig.spec_return_type() is Some {
        assert(signature_text(sig) =~= "["@ + designator_text(
            shown_param_type(*sig.spec_params()[0]).spec_designator(),
        ) + ", return "@ + designator_text((*sig.spec_return_type()->0).spec_designator())
            + "]"@);
    } else {
        assert(signature_text(sig) =~= "["@ + designator_text(
            shown_param_type(*sig.spec_params()[0]).spec_designator(),
        ) + "]"@);
    }
}

/// An interface object of any class but constant is described with its
/// class, its designator and, after a colon, the keyword of its mode,
/// whatever the mode; an interface constant is described without its mode;
/// an object that is no interface object is described by its class and
/// designator.
pub proof fn lemma_object_descriptions(e: NamedEntity, obj: Object)
    requires
        e.spec_kind() == NamedEntityKind::Object(obj),
    ensures
        obj.mode matches Some(mode) ==> (obj.class != ObjectClass::Constant ==> description(e)
            == "interface "@ + object_class_text(obj.class) + " '"@ + designator_text(
            e.spec_designator(),
        ) + "' : "@ + mode_text(mode)),
        obj.mode is Some && obj.class == ObjectClass::Constant ==> description(e)
            == "interface constant '"@ + designator_text(e.spec_designator()) + "'"@,
        obj.mode is None ==> description(e) == object_class_text(obj.class) + " '"@
            + designator_text(e.spec_designator()) + "'"@,
{
    reveal_strlit("interface ");
    reveal_strlit("constant");
    reveal_strlit(" '");
    reveal_strlit("interface constant '");
    if obj.mode is Some && obj.class == ObjectClass::Constant {
        assert(description(e) =~= "interface constant '"@ + designator_text(e.spec_designator())
            + "'"@);
    }
}

/// The key of a signature has one entry per parameter, the id of the base
/// type under which the parameter is shown, and, when there is a return
/// type, the id of the return type's base type, whatever the number of
/// parameters. So signatures whose return types have different base types
/// have different keys.
pub proof fn lemma_signature_key_parts(s1: Signature, s2: Signature)
    ensures
        signature_key_of(s1.spec_params(), s1.spec_return_type()).0.len() == s1.spec_params().len(),
        forall|i: int|
            0 <= i < s1.spec_params().len() && is_interface(*s1.spec_params()[i]) ==> #[trigger] signature_key_of(
                s1.spec_params(),
                s1.spec_return_type(),
            ).0[i] == shown_param_type(*s1.spec_params()[i]).spec_id(),
        signature_key_of(s1.spec_params(), s1.spec_return_type()).1 == match s1.spec_return_type() {
            Some(ret) => Some((*ret).spec_base_type().spec_id()),
            None => None,
        },
        s1.spec_return_type() matches Some(r1) ==> (s2.spec_return_type() matches Some(r2) ==> ((*r1).spec_base_type().spec_id()
            != (*r2).spec_base_type().spec_id() ==> signature_key_of(s1.spec_params(), s1.spec_return_type())
            != signature_key_of(s2.spec_params(), s2.spec_return_type()))),
{
}

/// Only aliases and subtypes lead elsewhere for their base type: any other
/// entity, an access type or a record type for instance, is its own base
/// type, and an entity that is no alias is its own actual entity.
pub proof fn lemma_base_type_of_other_kinds(e: NamedEntity)
    ensures
        !is_alias(e) && !(e.spec_kind() is Subtype) ==> e.spec_base_type() == e,
        !is_alias(e) ==> e.actual() == e,
{
}

/// Exactly these kinds declare types: incomplete types, protected types,
/// interface types, subtypes, type declarations, access types and record
/// types.
pub proof fn lemma_type_kinds(k: NamedEntityKind)
    ensures
        kind_is_type(k) <==> (k is IncompleteType || k is ProtectedType || k is InterfaceType
            || k is Subtype || k is TypeDeclaration || k is AccessType || k is RecordType),
{
}

/// The texts joined with ", " between them.
pub open spec fn joined(texts: Seq<Seq<char>>) -> Seq<char>
    decreases texts.len(),
{
    if texts.len() == 0 {
        Seq::empty()
    } else if texts.len() == 1 {
        texts[0]
    } else {
        joined(texts.drop_last()) + ", "@ + texts.last()
    }
}

/// The designators under which the parameters are shown.
pub open spec fn shown_param_texts(params: Seq<std::sync::Arc<NamedEntity>>) -> Seq<Seq<char>> {
    params.map_values(|p: std::sync::Arc<NamedEntity>| designator_text(shown_param_type(*p).spec_designator()))
}

proof fn lemma_params_text_joined(params: Seq<std::sync::Arc<NamedEntity>>, has_return: bool, k: nat)
    requires
        k <= params.len(),
        forall|i: int| 0 <= i < params.len() ==> #[trigger] is_interface(*params[i]),
    ensures
        params_text(params, has_return, k) == joined(shown_param_texts(params).take(k as int)) + if k
            > 0 && (k < params.len() || has_return) {
            ", "@
        } else {
            Seq::empty()
        },
    decreases k,
{
    let texts = shown_param_texts(params);
    if k > 0 {
        lemma_params_text_joined(params, has_return, (k - 1) as nat);
        assert(texts.take(k as int).drop_last() =~= texts.take(k - 1));
        assert(texts.take(k as int).last() == texts[k - 1]);
        if k == 1 {
            assert(joined(texts.take(k as int)) == texts[0]);
        }
    }
}

/// A signature is shown as its parameters, each by the designator of the
/// base type it is keyed by, joined with ", ", followed by the return type
/// (after ", " when there are parameters), all between square brackets.
pub proof fn lemma_signature_text_joined(sig: Signature)
    requires
        forall|i: int| 0 <= i < sig.spec_params().len() ==> #[trigger] is_interface(*sig.spec_params()[i]),
    ensures
        signature_text(sig) == "["@ + joined(shown_param_texts(sig.spec_params())) + match sig.spec_return_type() {
            Some(ret) => (if sig.spec_params().len() > 0 {
                ", "@
            } else {
                Seq::empty()
            }) + "return "@ + designator_text((*ret).spec_designator()),
            None => Seq::empty(),
        } + "]"@,
{
    let n = sig.spec_params().len();
    lemma_params_text_joined(sig.spec_params(), sig.spec_return_type() is Some, n);
    assert(shown_param_texts(sig.spec_params()).take(n as int) =~= shown_param_texts(sig.spec_params()));
    if sig.spec_return_type() is Some {
        assert(signature_text(sig) =~= "["@ + joined(shown_param_texts(sig.spec_params())) + ((if n > 0 {
            ", "@
        } else {
            Seq::empty()
        }) + "return "@ + designator_text((*sig.spec_return_type()->0).spec_designator())) + "]"@);
    } else {
        assert(signature_text(sig) =~= "["@ + joined(shown_param_texts(sig.spec_params())) + "]"@);
    }
}

/// Subprograms, subprogram declarations and enumeration literals are
/// described by their kind, designator and signature; other entities that
/// are neither objects nor aliases by their kind and designator.
pub proof fn lemma_entity_descriptions(e: NamedEntity)
    ensures
        kind_signature(e.spec_kind()) matches Some(sig) ==> description(e) == kind_text(e.spec_kind())
            + " '"@ + designator_text(e.spec_designator()) + "' with signature "@ + signature_text(sig),
        kind_signature(e.spec_kind()) is None && !(e.spec_kind() is Object) && !is_alias(e) ==> description(e)
            == kind_text(e.spec_kind()) + " '"@ + designator_text(e.spec_designator()) + "'"@,
{
}

/// The words for kinds of entities.
pub proof fn lemma_kind_words(k: NamedEntityKind)
    ensures
        k is AliasOf || k is OtherAlias ==> kind_text(k) == "alias"@,
        k is File || k is InterfaceFile ==> kind_text(k) == "file"@,
        k is ElementDeclaration ==> kind_text(k) == "element declaration"@,
        k is RecordType ==> kind_text(k) == "record type"@,
        k is Component ==> kind_text(k) == "component"@,
        k is Attribute ==> kind_text(k) == "attribute"@,
        k is EnumLiteral ==> kind_text(k) == "enum literal"@,
        k is TypeDeclaration || k is IncompleteType || k is InterfaceType ==> kind_text(k) == "type"@,
        k is AccessType ==> kind_text(k) == "access type"@,
        k is Subtype ==> kind_text(k) == "subtype"@,
        k is Label ==> kind_text(k) == "label"@,
        k is LoopParameter ==> kind_text(k) == "loop parameter"@,
        k matches NamedEntityKind::Object(obj) ==> kind_text(k) == object_class_text(obj.class),
        k is PhysicalLiteral ==> kind_text(k) == "physical literal"@,
        k is DeferredConstant ==> kind_text(k) == "deferred constant"@,
        k is ProtectedType ==> kind_text(k) == "protected type"@,
        k is Library ==> kind_text(k) == "library"@,
        k is Entity ==> kind_text(k) == "entity"@,
        k is Configuration ==> kind_text(k) == "configuration"@,
        k is Package ==> kind_text(k) == "package"@,
        k is UninstPackage ==> kind_text(k) == "uninstantiated package"@,
        k is PackageInstance || k is LocalPackageInstance ==> kind_text(k) == "package instance"@,
        k matches NamedEntityKind::Subprogram(sig) ==> kind_text(k) == if sig.spec_return_type() is Some {
            "function"@
        } else {
            "procedure"@
        },
        k matches NamedEntityKind::SubprogramDecl(sig) ==> kind_text(k) == if sig.spec_return_type() is Some {
            "function"@
        } else {
            "procedure"@
        },
{
}

/// The words for object classes and the keywords of modes; no two modes
/// share a keyword.
pub proof fn lemma_class_and_mode_words(m1: Mode, m2: Mode)
    ensures
        object_class_text(ObjectClass::Constant) == "constant"@,
        object_class_text(ObjectClass::Variable) == "variable"@,
        object_class_text(ObjectClass::Signal) == "signal"@,
        object_class_text(ObjectClass::SharedVariable) == "shared variable"@,
        mode_text(Mode::In) == "in"@,
        mode_text(Mode::Out) == "out"@,
        mode_text(Mode::InOut) == "inout"@,
        mode_text(Mode::Buffer) == "buffer"@,
        mode_text(Mode::Linkage) == "linkage"@,
        m1 != m2 ==> mode_text(m1) != mode_text(m2),
{
    reveal_strlit("in");
    reveal_strlit("out");
    reveal_strlit("inout");
    reveal_strlit("buffer");
    reveal_strlit("linkage");
    assert(mode_text(m1).len() != mode_text(m2).len() || m1 == m2);
}

/// An identifier is shown as written, an operator symbol between double
/// quotes, a character literal between single quotes.
pub proof fn lemma_designator_texts(d: Designator)
    ensures
        d matches Designator::Identifier(name) ==> designator_text(d) == name@,
        d matches Designator::OperatorSymbol(op) ==> designator_text(d) == seq!['"'] + op@ + seq!['"'],
        d matches Designator::Character(byte) ==> designator_text(d) == seq!['\'', byte as char, '\''],
{
}

/// Only type declarations carry implicit declarations, and they carry the
/// ones they were made with; only subprograms, subprogram declarations and
/// enumeration literals have signatures, the ones they were made with; and
/// the interface entities are the objects with a mode and the interface
/// files.
pub proof fn lemma_kind_contents(k: NamedEntityKind, e: NamedEntity)
    ensures
        k matches NamedEntityKind::TypeDeclaration(v) ==> kind_implicit_declarations(k) == v@,
        !(k is TypeDeclaration) ==> kind_implicit_declarations(k).len() == 0,
        k matches NamedEntityKind::Subprogram(sig) ==> kind_signature(k) == Some(sig),
        k matches NamedEntityKind::SubprogramDecl(sig) ==> kind_signature(k) == Some(sig),
        k matches NamedEntityKind::EnumLiteral(sig) ==> kind_signature(k) == Some(sig),
        !(k is Subprogram || k is SubprogramDecl || k is EnumLiteral) ==> kind_signature(k) is None,
        is_interface(e) <==> (e.spec_kind() is InterfaceFile || (e.spec_kind() matches NamedEntityKind::Object(obj)
            && obj.mode is Some)),
{
}

/// A counter moves on by one, and after its largest value starts again at 0.
pub proof fn lemma_id_successor(n: usize)
    ensures
        n < usize::MAX ==> id_successor(n) == n + 1,
        n == usize::MAX ==> id_successor(n) == 0,
{
}

} // verus!
