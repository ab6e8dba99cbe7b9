//! Named entities: what each declaration introduces, and how aliases,
//! subtypes and subprogram signatures resolve.
use vstd::prelude::*;
use std::sync::Arc;
use vstd::std_specs::cmp::PartialEqSpec;
use crate::ast::{Designator, Mode, ObjectClass, designator_text, mode_text, object_class_text};
use crate::region::Region;
use crate::source::{Diagnostic, Severity, SrcPos};

verus! {

/// Calls `std::sync::Arc::clone`, which makes another pointer to the same
/// allocation; the contract says that the new pointer points to the same
/// value.
#[verifier::external_body]
fn arc_clone<T>(a: &Arc<T>) -> (r: Arc<T>)
    ensures
        r == *a,
{
    Arc::clone(a)
}

/// The full declaration of an incomplete type, which is filled in after the
/// incomplete type is created. It is held without ownership, in an
/// `arc_swap::ArcSwapWeak`, since an incomplete access type can refer to
/// itself through it. Nothing in this library reads or writes the cell; its
/// contents are left to the code that fills it in.
#[verifier::external_body]
#[derive(Debug)]
pub struct FullTypeRef {
    pub inner: arc_swap::ArcSwapWeak<NamedEntity>,
}

/// What a named entity is.
#[derive(Debug)]
pub enum NamedEntityKind {
    AliasOf(Arc<NamedEntity>),
    OtherAlias,
    File,
    InterfaceFile(Arc<NamedEntity>),
    Component,
    Attribute,
    SubprogramDecl(Signature),
    Subprogram(Signature),
    EnumLiteral(Signature),
    /// The implicit declarations that come with the type, such as the
    /// predefined operators of an enumeration type. They are held by strong
    /// pointers: an implicit declaration refers to the type entity as it was
    /// made before its kind was filled in, and `clone_with_kind` makes a new
    /// entity for the filled-in one, so the pointers form no cycle.
    TypeDeclaration(Vec<Arc<NamedEntity>>),
    AccessType(Subtype),
    RecordType(Arc<Region>),
    ElementDeclaration(Subtype),
    Subtype(Subtype),
    /// The full type is filled in after the incomplete one is created.
    IncompleteType(FullTypeRef),
    InterfaceType,
    Label,
    Object(Object),
    LoopParameter,
    PhysicalLiteral,
    DeferredConstant,
    /// The region of the protected type, which the body extends.
    ProtectedType(Arc<Region>),
    Library,
    Entity(Arc<Region>),
    Configuration(Arc<Region>),
    Package(Arc<Region>),
    UninstPackage(Arc<Region>),
    PackageInstance(Arc<Region>),
    Context(Arc<Region>),
    LocalPackageInstance(Arc<Region>),
}

/// An object or an interface object, such as a signal, a variable or a
/// constant. It is an object when `mode` is `None` and an interface object
/// when it is `Some`.
#[derive(Debug)]
pub struct Object {
    pub class: ObjectClass,
    pub mode: Option<Mode>,
    pub subtype: Subtype,
    pub has_default: bool,
}

/// A subtype of a type.
#[derive(Debug)]
pub struct Subtype {
    base: Arc<NamedEntity>,
}

/// The formal parameters of a subprogram: interface objects and interface
/// files.
#[derive(Debug)]
pub struct ParameterList {
    params: Vec<Arc<NamedEntity>>,
}

/// The parameters and the return type of a subprogram.
#[derive(Debug)]
pub struct Signature {
    params: ParameterList,
    return_type: Option<Arc<NamedEntity>>,
}

/// What tells overloaded subprograms apart: the base types of the
/// parameters and of the return value.
#[derive(PartialEq, Eq, Hash, Debug)]
pub struct SignatureKey {
    params: Vec<EntityId>,
    return_type: Option<EntityId>,
}

/// Identifies a named entity: entities with the same id are the same entity.
#[derive(Copy, Clone, PartialEq, Eq, Structural, Hash, Debug)]
pub struct EntityId {
    id: usize,
}

/// A named entity as the language reference defines it: every declaration
/// creates one or more of them.
#[derive(Debug)]
pub struct NamedEntity {
    /// Entities with the same id are the same entity.
    id: EntityId,
    implicit: bool,
    designator: Designator,
    kind: NamedEntityKind,
    /// Where the declaration was made; builtin and implicit declarations
    /// have none.
    decl_pos: Option<SrcPos>,
}

// ---------------------------------------------------------------------
// The model
// ---------------------------------------------------------------------

impl EntityId {
    /// The number behind the id.
    pub closed spec fn value(self) -> usize {
        self.id
    }
}

impl Subtype {
    /// The type that this is a subtype of.
    pub closed spec fn spec_base(self) -> NamedEntity {
        *self.base
    }
}

impl ParameterList {
    /// The parameters in order.
    pub closed spec fn entries(self) -> Seq<Arc<NamedEntity>> {
        self.params@
    }

    /// Every parameter is an interface object or an interface file.
    #[verifier::type_invariant]
    closed spec fn well_formed(self) -> bool {
        forall|i: int| 0 <= i < self.params@.len() ==> #[trigger] is_interface(*self.params@[i])
    }
}

impl Signature {
    /// The parameters in order.
    pub closed spec fn spec_params(self) -> Seq<Arc<NamedEntity>> {
        self.params.params@
    }

    /// The return type; procedures have none.
    pub closed spec fn spec_return_type(self) -> Option<Arc<NamedEntity>> {
        self.return_type
    }
}

impl SignatureKey {
    /// The base type ids of the parameters.
    pub closed spec fn spec_params(self) -> Seq<EntityId> {
        self.params@
    }

    /// The base type id of the return value.
    pub closed spec fn spec_return_type(self) -> Option<EntityId> {
        self.return_type
    }
}

impl NamedEntity {
    pub closed spec fn spec_id(self) -> EntityId {
        self.id
    }

    pub closed spec fn spec_implicit(self) -> bool {
        self.implicit
    }

    pub closed spec fn spec_designator(self) -> Designator {
        self.designator
    }

    pub closed spec fn spec_kind(self) -> NamedEntityKind {
        self.kind
    }

    pub closed spec fn spec_decl_pos(self) -> Option<SrcPos> {
        self.decl_pos
    }

    /// This entity with another kind, and otherwise the same.
    pub closed spec fn with_kind(self, kind: NamedEntityKind) -> NamedEntity {
        NamedEntity { kind, ..self }
    }

    /// The entity with all aliases stripped.
    pub open spec fn actual(self) -> NamedEntity
        decreases self,
    {
        match self.spec_kind() {
            NamedEntityKind::AliasOf(ent) => (*ent).actual(),
            _ => self,
        }
    }

    /// The base type, with aliases and subtypes stripped.
    pub open spec fn spec_base_type(self) -> NamedEntity
        decreases self,
    {
        match self.spec_kind() {
            NamedEntityKind::AliasOf(ent) => (*ent).spec_base_type(),
            NamedEntityKind::Subtype(st) => st.spec_base().spec_base_type(),
            _ => self,
        }
    }

    /// Some entity along the alias chain of `self` (not `self` itself) has
    /// the given id.
    pub open spec fn aliases_id(self, id: EntityId) -> bool
        decreases self,
    {
        match self.spec_kind() {
            NamedEntityKind::AliasOf(ent) => ent.spec_id() == id || (*ent).aliases_id(id),
            _ => false,
        }
    }
}

/// The entity is an interface object (an object with a mode) or an interface
/// file.
pub open spec fn is_interface(e: NamedEntity) -> bool {
    match e.spec_kind() {
        NamedEntityKind::Object(obj) => obj.mode is Some,
        NamedEntityKind::InterfaceFile(_) => true,
        _ => false,
    }
}

/// The kind is one of the kinds that declare a type.
pub open spec fn kind_is_type(k: NamedEntityKind) -> bool {
    match k {
        NamedEntityKind::IncompleteType(..) | NamedEntityKind::ProtectedType(..)
        | NamedEntityKind::InterfaceType | NamedEntityKind::Subtype(..)
        | NamedEntityKind::TypeDeclaration(..) | NamedEntityKind::AccessType(..)
        | NamedEntityKind::RecordType(..) => true,
        _ => false,
    }
}

/// The entity is an alias.
pub open spec fn is_alias(e: NamedEntity) -> bool {
    e.spec_kind() is AliasOf
}

// ---------------------------------------------------------------------
// Resolution of aliases and subtypes
// ---------------------------------------------------------------------

impl NamedEntity {
    /// Strips aliases and returns the actual named entity.
    pub fn as_actual(&self) -> (r: &NamedEntity)
        ensures
            *r == self.actual(),
            !is_alias(*r),
        decreases *self,
    {
        match &self.kind {
            NamedEntityKind::AliasOf(ent) => ent.as_actual(),
            _ => self,
        }
    }

    /// Strips aliases and subtypes down to the base type.
    pub fn base_type(&self) -> (r: &NamedEntity)
        ensures
            *r == self.spec_base_type(),
            !is_alias(*r),
            !(r.spec_kind() is Subtype),
        decreases *self,
    {
        match &self.kind {
            NamedEntityKind::AliasOf(ent) => ent.base_type(),
            NamedEntityKind::Subtype(st) => st.base.base_type(),
            _ => self,
        }
    }

    /// Returns true if `self` is an alias of `other`, directly or through a
    /// chain of aliases.
    pub fn is_alias_of(&self, other: &NamedEntity) -> (r: bool)
        ensures
            r == self.aliases_id(other.spec_id()),
        decreases *self,
    {
        match &self.kind {
            NamedEntityKind::AliasOf(ent) => {
                if ent.id() == other.id() {
                    true
                } else {
                    ent.is_alias_of(other)
                }
            },
            _ => false,
        }
    }

    pub fn id(&self) -> (r: EntityId)
        ensures
            r == self.spec_id(),
    {
        self.id
    }
}

// ---------------------------------------------------------------------
// Kinds
// ---------------------------------------------------------------------

/// How a kind of entity is named in messages.
pub open spec fn kind_text(k: NamedEntityKind) -> Seq<char> {
    match k {
        NamedEntityKind::AliasOf(..) => "alias"@,
        NamedEntityKind::OtherAlias => "alias"@,
        NamedEntityKind::File => "file"@,
        NamedEntityKind::InterfaceFile(..) => "file"@,
        NamedEntityKind::ElementDeclaration(..) => "element declaration"@,
        NamedEntityKind::RecordType(..) => "record type"@,
        NamedEntityKind::Component => "component"@,
        NamedEntityKind::Attribute => "attribute"@,
        NamedEntityKind::SubprogramDecl(signature) | NamedEntityKind::Subprogram(signature) => {
            if signature.spec_return_type() is Some {
                "function"@
            } else {
                "procedure"@
            }
        },
        NamedEntityKind::EnumLiteral(..) => "enum literal"@,
        NamedEntityKind::TypeDeclaration(..) => "type"@,
        NamedEntityKind::AccessType(..) => "access type"@,
        NamedEntityKind::Subtype(..) => "subtype"@,
        NamedEntityKind::IncompleteType(..) => "type"@,
        NamedEntityKind::InterfaceType => "type"@,
        NamedEntityKind::Label => "label"@,
        NamedEntityKind::LoopParameter => "loop parameter"@,
        NamedEntityKind::Object(object) => object_class_text(object.class),
        NamedEntityKind::PhysicalLiteral => "physical literal"@,
        NamedEntityKind::DeferredConstant => "deferred constant"@,
        NamedEntityKind::ProtectedType(..) => "protected type"@,
        NamedEntityKind::Library => "library"@,
        NamedEntityKind::Entity(..) => "entity"@,
        NamedEntityKind::Configuration(..) => "configuration"@,
        NamedEntityKind::Package(..) => "package"@,
        NamedEntityKind::UninstPackage(..) => "uninstantiated package"@,
        NamedEntityKind::PackageInstance(..) => "package instance"@,
        NamedEntityKind::Context(..) => "context"@,
        NamedEntityKind::LocalPackageInstance(..) => "package instance"@,
    }
}

/// The implicit declarations that a kind carries.
pub open spec fn kind_implicit_declarations(k: NamedEntityKind) -> Seq<Arc<NamedEntity>> {
    match k {
        NamedEntityKind::TypeDeclaration(implicit) => implicit@,
        _ => Seq::empty(),
    }
}

impl NamedEntityKind {
    pub fn is_deferred_constant(&self) -> (r: bool)
        ensures
            r == (*self is DeferredConstant),
    {
        match self {
            NamedEntityKind::DeferredConstant => true,
            _ => false,
        }
    }

    /// A constant object that is not an interface object.
    pub fn is_non_deferred_constant(&self) -> (r: bool)
        ensures
            r == (*self matches NamedEntityKind::Object(obj) && obj.class == ObjectClass::Constant
                && obj.mode is None),
    {
        match self {
            NamedEntityKind::Object(obj) => {
                match (obj.class, obj.mode) {
                    (ObjectClass::Constant, None) => true,
                    _ => false,
                }
            },
            _ => false,
        }
    }

    pub fn is_protected_type(&self) -> (r: bool)
        ensures
            r == (*self is ProtectedType),
    {
        match self {
            NamedEntityKind::ProtectedType(..) => true,
            _ => false,
        }
    }

    pub fn is_type(&self) -> (r: bool)
        ensures
            r == kind_is_type(*self),
    {
        match self {
            NamedEntityKind::IncompleteType(..) | NamedEntityKind::ProtectedType(..)
            | NamedEntityKind::InterfaceType | NamedEntityKind::Subtype(..)
            | NamedEntityKind::TypeDeclaration(..) | NamedEntityKind::AccessType(..)
            | NamedEntityKind::RecordType(..) => true,
            _ => false,
        }
    }

    /// The implicit declarations of a type declaration; none for any other
    /// kind.
    pub fn implicit_declarations(&self) -> (r: Vec<Arc<NamedEntity>>)
        ensures
            r@ == kind_implicit_declarations(*self),
    {
        let mut r: Vec<Arc<NamedEntity>> = Vec::new();
        if let NamedEntityKind::TypeDeclaration(implicit) = self {
            let mut i: usize = 0;
            while i < implicit.len()
                invariant
                    i <= implicit@.len(),
                    r@ == implicit@.take(i as int),
                decreases implicit@.len() - i,
            {
                r.push(arc_clone(&implicit[i]));
                i = i + 1;
            }
        }
        r
    }

    /// How this kind of entity is named in messages.
    pub fn describe(&self) -> (r: &'static str)
        ensures
            r@ == kind_text(*self),
    {
        match self {
            NamedEntityKind::AliasOf(..) => "alias",
            NamedEntityKind::OtherAlias => "alias",
            NamedEntityKind::File => "file",
            NamedEntityKind::InterfaceFile(..) => "file",
            NamedEntityKind::ElementDeclaration(..) => "element declaration",
            NamedEntityKind::RecordType(..) => "record type",
            NamedEntityKind::Component => "component",
            NamedEntityKind::Attribute => "attribute",
            NamedEntityKind::SubprogramDecl(signature) | NamedEntityKind::Subprogram(signature) => {
                if signature.return_type.is_some() {
                    "function"
                } else {
                    "procedure"
                }
            },
            NamedEntityKind::EnumLiteral(..) => "enum literal",
            NamedEntityKind::TypeDeclaration(..) => "type",
            NamedEntityKind::AccessType(..) => "access type",
            NamedEntityKind::Subtype(..) => "subtype",
            NamedEntityKind::IncompleteType(..) => "type",
            NamedEntityKind::InterfaceType => "type",
            NamedEntityKind::Label => "label",
            NamedEntityKind::LoopParameter => "loop parameter",
            NamedEntityKind::Object(object) => object.class.describe(),
            NamedEntityKind::PhysicalLiteral => "physical literal",
            NamedEntityKind::DeferredConstant => "deferred constant",
            NamedEntityKind::ProtectedType(..) => "protected type",
            NamedEntityKind::Library => "library",
            NamedEntityKind::Entity(..) => "entity",
            NamedEntityKind::Configuration(..) => "configuration",
            NamedEntityKind::Package(..) => "package",
            NamedEntityKind::UninstPackage(..) => "uninstantiated package",
            NamedEntityKind::PackageInstance(..) => "package instance",
            NamedEntityKind::Context(..) => "context",
            NamedEntityKind::LocalPackageInstance(..) => "package instance",
        }
    }
}

// ---------------------------------------------------------------------
// Subtypes, parameters and signatures
// ---------------------------------------------------------------------

/// The type of a parameter that tells overloads apart: the base type of an
/// interface object's subtype, or the base type of an interface file's type.
pub open spec fn param_type(p: NamedEntity) -> NamedEntity {
    match p.spec_kind() {
        NamedEntityKind::Object(obj) => obj.subtype.spec_base().spec_base_type(),
        NamedEntityKind::InterfaceFile(file_type) => (*file_type).spec_base_type(),
        _ => p,
    }
}

/// The key of a signature with the given parameters and return type.
pub open spec fn signature_key_of(
    params: Seq<Arc<NamedEntity>>,
    return_type: Option<Arc<NamedEntity>>,
) -> (Seq<EntityId>, Option<EntityId>) {
    (
        params.map_values(|p: Arc<NamedEntity>| param_type(*p).spec_id()),
        match return_type {
            Some(ent) => Some((*ent).spec_base_type().spec_id()),
            None => None,
        },
    )
}

/// The text for the parameter at `i`, with the separator that follows it.
pub open spec fn param_item_text(params: Seq<Arc<NamedEntity>>, has_return: bool, i: int) -> Seq<char> {
    designator_text(param_type(*params[i]).spec_designator()) + if i + 1 < params.len()
        || has_return {
        ", "@
    } else {
        Seq::empty()
    }
}

/// The text for the first `n` parameters.
pub open spec fn params_text(params: Seq<Arc<NamedEntity>>, has_return: bool, n: nat) -> Seq<char>
    decreases n,
{
    if n == 0 {
        Seq::empty()
    } else {
        params_text(params, has_return, (n - 1) as nat) + param_item_text(
            params,
            has_return,
            n - 1,
        )
    }
}

/// A signature as messages show it: `[T1, T2, return R]`.
pub open spec fn signature_text(sig: Signature) -> Seq<char> {
    let params = sig.spec_params();
    "["@ + params_text(params, sig.spec_return_type() is Some, params.len()) + match sig.spec_return_type() {
        Some(ret) => "return "@ + designator_text((*ret).spec_designator()),
        None => Seq::empty(),
    } + "]"@
}

impl Subtype {
    /// A subtype of `base`, which must be a type.
    pub fn new(base: Arc<NamedEntity>) -> (r: Subtype)
        requires
            kind_is_type(base.actual().spec_kind()),
        ensures
            r.spec_base() == *base,
    {
        Subtype { base }
    }

    pub fn base(&self) -> (r: &Arc<NamedEntity>)
        ensures
            **r == self.spec_base(),
    {
        &self.base
    }
}

impl Clone for Subtype {
    fn clone(&self) -> (r: Self)
        ensures
            r == *self,
    {
        Subtype { base: arc_clone(&self.base) }
    }
}

impl Clone for Object {
    fn clone(&self) -> (r: Self)
        ensures
            r == *self,
    {
        Object {
            class: self.class,
            mode: self.mode,
            subtype: self.subtype.clone(),
            has_default: self.has_default,
        }
    }
}

/// Copies a list of entity pointers.
fn clone_entities(v: &Vec<Arc<NamedEntity>>) -> (r: Vec<Arc<NamedEntity>>)
    ensures
        r@ == v@,
{
    let mut r: Vec<Arc<NamedEntity>> = Vec::new();
    let mut i: usize = 0;
    while i < v.len()
        invariant
            i <= v@.len(),
            r@ == v@.take(i as int),
        decreases v@.len() - i,
    {
        r.push(arc_clone(&v[i]));
        i = i + 1;
    }
    r
}

impl ParameterList {
    /// Adds a parameter at the end; it must be an interface object or an
    /// interface file.
    pub fn add_param(&mut self, param: Arc<NamedEntity>)
        requires
            is_interface(*param),
        ensures
            final(self).entries() == old(self).entries().push(param),
    {
        proof {
            use_type_invariant(&*self);
        }
        let mut params: Vec<Arc<NamedEntity>> = Vec::new();
        std::mem::swap(&mut params, &mut self.params);
        params.push(param);
        self.params = params;
    }
}

impl Default for ParameterList {
    fn default() -> (r: Self)
        ensures
            r.entries() == Seq::<Arc<NamedEntity>>::empty(),
    {
        ParameterList { params: Vec::new() }
    }
}

impl Clone for ParameterList {
    fn clone(&self) -> (r: Self)
        ensures
            r.entries() == self.entries(),
    {
        proof {
            use_type_invariant(self);
        }
        ParameterList { params: clone_entities(&self.params) }
    }
}

impl Signature {
    /// A signature with the given parameters and return type, which must be
    /// a type.
    pub fn new(params: ParameterList, return_type: Option<Arc<NamedEntity>>) -> (r: Signature)
        requires
            return_type matches Some(ret) ==> kind_is_type(ret.actual().spec_kind()),
        ensures
            r.spec_params() == params.entries(),
            r.spec_return_type() == return_type,
    {
        Signature { params, return_type }
    }

    /// The key that tells this signature apart from those of other
    /// overloads: the ids of the base types of the parameters and of the
    /// return value.
    pub fn key(&self) -> (r: SignatureKey)
        ensures
            (r.spec_params(), r.spec_return_type()) == signature_key_of(
                self.spec_params(),
                self.spec_return_type(),
            ),
    {
        proof {
            use_type_invariant(&self.params);
        }
        let n = self.params.params.len();
        let mut params: Vec<EntityId> = Vec::new();
        let mut i: usize = 0;
        while i < n
            invariant
                n == self.params.params@.len(),
                i <= n,
                forall|j: int| 0 <= j < n ==> #[trigger] is_interface(*self.params.params@[j]),
                params@ == self.params.params@.take(i as int).map_values(
                    |p: Arc<NamedEntity>| param_type(*p).spec_id(),
                ),
            decreases n - i,
        {
            let type_ent = self.params.params[i].param_type();
            params.push(type_ent.id());
            proof {
                assert(self.params.params@.take(i + 1) =~= self.params.params@.take(i as int).push(
                    self.params.params@[i as int],
                ));
            }
            i = i + 1;
        }
        proof {
            assert(self.params.params@.take(n as int) =~= self.params.params@);
        }
        let return_type = match &self.return_type {
            Some(ent) => Some(ent.base_type().id()),
            None => None,
        };
        SignatureKey { params, return_type }
    }

    /// The signature as messages show it, such as `[integer, bit, return
    /// boolean]`.
    pub fn describe(&self) -> (r: String)
        ensures
            r@ == signature_text(*self),
    {
        proof {
            use_type_invariant(&self.params);
        }
        let ghost params = self.params.params@;
        let has_return = self.return_type.is_some();
        let n = self.params.params.len();
        let mut result = String::new();
        result.append("[");
        let mut i: usize = 0;
        while i < n
            invariant
                n == params.len(),
                params == self.params.params@,
                has_return == (self.return_type is Some),
                i <= n,
                forall|j: int| 0 <= j < n ==> #[trigger] is_interface(*params[j]),
                result@ == "["@ + params_text(params, has_return, i as nat),
            decreases n - i,
        {
            let type_ent = self.params.params[i].param_type();
            let text = type_ent.designator().to_string();
            result.append(text.as_str());
            if i + 1 < n || has_return {
                result.append(", ");
            }
            i = i + 1;
        }
        if let Some(return_type) = &self.return_type {
            result.append("return ");
            let text = return_type.designator().to_string();
            result.append(text.as_str());
        }
        result.append("]");
        result
    }
}

impl Default for Signature {
    fn default() -> (r: Self)
        ensures
            r.spec_params() == Seq::<Arc<NamedEntity>>::empty(),
            r.spec_return_type() is None,
    {
        Signature { params: ParameterList::default(), return_type: None }
    }
}

impl Clone for Signature {
    fn clone(&self) -> (r: Self)
        ensures
            r.spec_params() == self.spec_params(),
            r.spec_return_type() == self.spec_return_type(),
    {
        let return_type = match &self.return_type {
            Some(ent) => Some(arc_clone(ent)),
            None => None,
        };
        Signature { params: self.params.clone(), return_type }
    }
}

impl Clone for SignatureKey {
    fn clone(&self) -> (r: Self)
        ensures
            r.spec_params() == self.spec_params(),
            r.spec_return_type() == self.spec_return_type(),
    {
        let mut params: Vec<EntityId> = Vec::new();
        let mut i: usize = 0;
        while i < self.params.len()
            invariant
                i <= self.params@.len(),
                params@ == self.params@.take(i as int),
            decreases self.params@.len() - i,
        {
            params.push(self.params[i]);
            i = i + 1;
        }
        proof {
            assert(self.params@.take(self.params@.len() as int) =~= self.params@);
        }
        SignatureKey { params, return_type: self.return_type }
    }
}

impl SignatureKey {
    pub fn new(params: Vec<EntityId>, return_type: Option<EntityId>) -> (r: SignatureKey)
        ensures
            r.spec_params() == params@,
            r.spec_return_type() == return_type,
    {
        SignatureKey { params, return_type }
    }
}

impl NamedEntity {
    /// The type by which this parameter tells overloads apart.
    fn param_type(&self) -> (r: &NamedEntity)
        requires
            is_interface(*self),
        ensures
            *r == param_type(*self),
    {
        match &self.kind {
            NamedEntityKind::Object(obj) => obj.subtype.base().base_type(),
            NamedEntityKind::InterfaceFile(file_type) => file_type.base_type(),
            _ => self,
        }
    }

    pub fn designator(&self) -> (r: &Designator)
        ensures
            *r == self.spec_designator(),
    {
        &self.designator
    }

    pub fn kind(&self) -> (r: &NamedEntityKind)
        ensures
            *r == self.spec_kind(),
    {
        &self.kind
    }
}

// ---------------------------------------------------------------------
// Ids
// ---------------------------------------------------------------------

/// Hands out entity ids in increasing order, starting at 1.
#[derive(Debug)]
pub struct IdCounter {
    next: usize,
}

impl IdCounter {
    /// The id that the counter hands out next.
    pub closed spec fn next_value(self) -> usize {
        self.next
    }

    pub fn new() -> (r: IdCounter)
        ensures
            r.next_value() == 1,
    {
        IdCounter { next: 1 }
    }
}

/// The value that follows `n`; it wraps around to 0 after the largest one.
pub open spec fn id_successor(n: usize) -> usize {
    if n == usize::MAX {
        0
    } else {
        (n + 1) as usize
    }
}

/// A fresh entity id: the counter's current value, after which the counter
/// moves on by one.
pub fn new_id(counter: &mut IdCounter) -> (r: EntityId)
    ensures
        r.value() == old(counter).next_value(),
        final(counter).next_value() == id_successor(old(counter).next_value()),
{
    let id = counter.next;
    counter.next = if id == usize::MAX {
        0
    } else {
        id + 1
    };
    EntityId { id }
}

// ---------------------------------------------------------------------
// Named entities
// ---------------------------------------------------------------------

/// How messages describe an entity that is not an alias.
pub open spec fn plain_description(e: NamedEntity) -> Seq<char> {
    let d = designator_text(e.spec_designator());
    let kind = e.spec_kind();
    match kind {
        NamedEntityKind::Object(obj) => match obj.mode {
            Some(mode) => if obj.class == ObjectClass::Constant {
                "interface "@ + object_class_text(obj.class) + " '"@ + d + "'"@
            } else {
                "interface "@ + object_class_text(obj.class) + " '"@ + d + "' : "@ + mode_text(mode)
            },
            None => kind_text(kind) + " '"@ + d + "'"@,
        },
        NamedEntityKind::EnumLiteral(sig) | NamedEntityKind::SubprogramDecl(sig)
        | NamedEntityKind::Subprogram(sig) => kind_text(kind) + " '"@ + d + "' with signature "@
            + signature_text(sig),
        _ => kind_text(kind) + " '"@ + d + "'"@,
    }
}

/// How messages describe an entity: an alias names what it stands for.
pub open spec fn description(e: NamedEntity) -> Seq<char> {
    match e.spec_kind() {
        NamedEntityKind::AliasOf(..) => "alias '"@ + designator_text(e.spec_designator()) + "' of "@
            + plain_description(e.actual()),
        _ => plain_description(e),
    }
}

/// The signature of a subprogram or an enumeration literal.
pub open spec fn kind_signature(k: NamedEntityKind) -> Option<Signature> {
    match k {
        NamedEntityKind::Subprogram(sig) | NamedEntityKind::SubprogramDecl(sig)
        | NamedEntityKind::EnumLiteral(sig) => Some(sig),
        _ => None,
    }
}

/// Copies an optional source position.
fn copy_pos(decl_pos: Option<&SrcPos>) -> (r: Option<SrcPos>)
    ensures
        r == match decl_pos {
            Some(pos) => Some(*pos),
            None => None::<SrcPos>,
        },
{
    match decl_pos {
        Some(pos) => Some(*pos),
        None => None,
    }
}

impl NamedEntity {
    /// A new explicit entity with a fresh id.
    pub fn new(
        counter: &mut IdCounter,
        designator: Designator,
        kind: NamedEntityKind,
        decl_pos: Option<&SrcPos>,
    ) -> (r: NamedEntity)
        ensures
            r.spec_id().value() == old(counter).next_value(),
            final(counter).next_value() == id_successor(old(counter).next_value()),
            !r.spec_implicit(),
            r.spec_designator() == designator,
            r.spec_kind() == kind,
            r.spec_decl_pos() == match decl_pos {
                Some(pos) => Some(*pos),
                None => None::<SrcPos>,
            },
    {
        let id = new_id(counter);
        NamedEntity::new_with_id(id, designator, kind, decl_pos)
    }

    /// A new explicit entity with the given id.
    pub fn new_with_id(
        id: EntityId,
        designator: Designator,
        kind: NamedEntityKind,
        decl_pos: Option<&SrcPos>,
    ) -> (r: NamedEntity)
        ensures
            r.spec_id() == id,
            !r.spec_implicit(),
            r.spec_designator() == designator,
            r.spec_kind() == kind,
            r.spec_decl_pos() == match decl_pos {
                Some(pos) => Some(*pos),
                None => None::<SrcPos>,
            },
    {
        NamedEntity { id, implicit: false, decl_pos: copy_pos(decl_pos), designator, kind }
    }

    /// A new explicit entity with the given id, or with a fresh one when
    /// none is given.
    pub fn new_with_opt_id(
        counter: &mut IdCounter,
        id: Option<EntityId>,
        designator: Designator,
        kind: NamedEntityKind,
        decl_pos: Option<&SrcPos>,
    ) -> (r: NamedEntity)
        ensures
            match id {
                Some(id) => {
                    &&& r.spec_id() == id
                    &&& final(counter).next_value() == old(counter).next_value()
                },
                None => {
                    &&& r.spec_id().value() == old(counter).next_value()
                    &&& final(counter).next_value() == id_successor(old(counter).next_value())
                },
            },
            !r.spec_implicit(),
            r.spec_designator() == designator,
            r.spec_kind() == kind,
            r.spec_decl_pos() == match decl_pos {
                Some(pos) => Some(*pos),
                None => None::<SrcPos>,
            },
    {
        let id = match id {
            Some(id) => id,
            None => new_id(counter),
        };
        NamedEntity { id, implicit: false, decl_pos: copy_pos(decl_pos), designator, kind }
    }

    /// A new implicit entity with a fresh id. Implicit declarations have no
    /// source position, so the position passed in is not kept.
    pub fn implicit(
        counter: &mut IdCounter,
        designator: Designator,
        kind: NamedEntityKind,
        _decl_pos: Option<&SrcPos>,
    ) -> (r: NamedEntity)
        ensures
            r.spec_id().value() == old(counter).next_value(),
            final(counter).next_value() == id_successor(old(counter).next_value()),
            r.spec_implicit(),
            r.spec_designator() == designator,
            r.spec_kind() == kind,
            r.spec_decl_pos() is None,
    {
        let id = new_id(counter);
        NamedEntity { id, implicit: true, decl_pos: None, designator, kind }
    }

    pub fn is_implicit(&self) -> (r: bool)
        ensures
            r == self.spec_implicit(),
    {
        self.implicit
    }

    pub fn is_subprogram(&self) -> (r: bool)
        ensures
            r == (self.spec_kind() is Subprogram),
    {
        match self.kind {
            NamedEntityKind::Subprogram(..) => true,
            _ => false,
        }
    }

    pub fn is_subprogram_decl(&self) -> (r: bool)
        ensures
            r == (self.spec_kind() is SubprogramDecl),
    {
        match self.kind {
            NamedEntityKind::SubprogramDecl(..) => true,
            _ => false,
        }
    }

    pub fn is_explicit(&self) -> (r: bool)
        ensures
            r == !self.spec_implicit(),
    {
        !self.implicit
    }

    pub fn decl_pos(&self) -> (r: Option<&SrcPos>)
        ensures
            match self.spec_decl_pos() {
                Some(pos) => r == Some(&pos),
                None => r is None,
            },
    {
        self.decl_pos.as_ref()
    }

    /// A copy of this entity that differs only in its kind: the same id,
    /// designator, position and implicitness. It serves to overwrite an
    /// entity whose full kind cannot be made at first, such as an enumeration
    /// literal that refers to its type while the type refers to its literals.
    pub fn clone_with_kind(&self, kind: NamedEntityKind) -> (r: NamedEntity)
        ensures
            r == self.with_kind(kind),
            r.spec_id() == self.spec_id(),
            r.spec_implicit() == self.spec_implicit(),
            r.spec_designator() == self.spec_designator(),
            r.spec_kind() == kind,
            r.spec_decl_pos() == self.spec_decl_pos(),
    {
        NamedEntity {
            id: self.id,
            implicit: self.implicit,
            decl_pos: copy_pos(self.decl_pos.as_ref()),
            designator: self.designator.clone(),
            kind,
        }
    }

    /// Reports an error with the given message at the declaration, if the
    /// declaration has a position.
    pub fn error(&self, diagnostics: &mut Vec<Diagnostic>, message: String)
        ensures
            final(diagnostics)@ == match self.spec_decl_pos() {
                Some(pos) => old(diagnostics)@.push(
                    Diagnostic { pos, message, severity: Severity::Error },
                ),
                None => old(diagnostics)@,
            },
    {
        if let Some(pos) = &self.decl_pos {
            diagnostics.push(Diagnostic::error(pos, message));
        }
    }

    /// An entity is overloaded when it has a signature.
    pub fn is_overloaded(&self) -> (r: bool)
        ensures
            r == (kind_signature(self.actual().spec_kind()) is Some),
    {
        self.signature().is_some()
    }

    /// The signature of the actual entity, if it is a subprogram or an
    /// enumeration literal.
    pub fn signature(&self) -> (r: Option<&Signature>)
        ensures
            match kind_signature(self.actual().spec_kind()) {
                Some(sig) => r == Some(&sig),
                None => r is None,
            },
    {
        match self.actual_kind() {
            NamedEntityKind::Subprogram(signature) | NamedEntityKind::SubprogramDecl(signature)
            | NamedEntityKind::EnumLiteral(signature) => Some(signature),
            _ => None,
        }
    }

    /// The kind of the actual entity, with aliases stripped.
    pub fn actual_kind(&self) -> (r: &NamedEntityKind)
        ensures
            *r == self.actual().spec_kind(),
            !(*r is AliasOf),
    {
        self.as_actual().kind()
    }

    /// How messages describe this entity, such as `signal 'clk'` or
    /// `alias 'foo' of constant 'bar'`.
    pub fn describe(&self) -> (r: String)
        ensures
            r@ == description(*self),
    {
        match &self.kind {
            NamedEntityKind::AliasOf(..) => {
                let mut r = String::new();
                r.append("alias '");
                let text = self.designator.to_string();
                r.append(text.as_str());
                r.append("' of ");
                let actual = self.as_actual().describe_plain();
                r.append(actual.as_str());
                r
            },
            _ => self.describe_plain(),
        }
    }

    /// The description of an entity as if it were not an alias.
    fn describe_plain(&self) -> (r: String)
        ensures
            r@ == plain_description(*self),
    {
        let text = self.designator.to_string();
        let mut r = String::new();
        match &self.kind {
            NamedEntityKind::Object(Object { class, mode: Some(mode), .. }) => {
                r.append("interface ");
                r.append(class.describe());
                r.append(" '");
                r.append(text.as_str());
                if *class == ObjectClass::Constant {
                    r.append("'");
                } else {
                    r.append("' : ");
                    r.append(mode.describe());
                }
            },
            NamedEntityKind::EnumLiteral(signature) | NamedEntityKind::SubprogramDecl(signature)
            | NamedEntityKind::Subprogram(signature) => {
                r.append(self.kind.describe());
                r.append(" '");
                r.append(text.as_str());
                r.append("' with signature ");
                let sig = signature.describe();
                r.append(sig.as_str());
            },
            _ => {
                r.append(self.kind.describe());
                r.append(" '");
                r.append(text.as_str());
                r.append("'");
            },
        }
        r
    }
}

impl PartialEq for NamedEntity {
    /// Entities are equal when their ids are.
    fn eq(&self, other: &Self) -> (r: bool) {
        self.id == other.id
    }
}

impl vstd::std_specs::cmp::PartialEqSpecImpl for NamedEntity {
    open spec fn obeys_eq_spec() -> bool {
        true
    }

    open spec fn eq_spec(&self, other: &NamedEntity) -> bool {
        self.spec_id() == other.spec_id()
    }
}

// ---------------------------------------------------------------------
// Laws
// ---------------------------------------------------------------------

/// The entity that an alias refers to, or the type that a subtype is a
/// subtype of; any other entity itself.
spec fn referent(e: NamedEntity) -> NamedEntity {
    match e.kind {
        NamedEntityKind::AliasOf(ent) => *ent,
        NamedEntityKind::Subtype(st) => *st.base,
        _ => e,
    }
}

/// Stripping aliases twice gives what stripping them once gives, and the
/// result is no alias.
pub proof fn lemma_actual_idempotent(e: NamedEntity)
    ensures
        e.actual().actual() == e.actual(),
        !is_alias(e.actual()),
    decreases e,
{
    if is_alias(e) {
        lemma_actual_idempotent(referent(e));
    }
}

/// The base type is reached through aliases: an alias has the base type of
/// the entity it stands for, and the base type is its own base type and
/// neither an alias nor a subtype.
pub proof fn lemma_base_type_through_aliases(e: NamedEntity)
    ensures
        e.spec_base_type() == e.actual().spec_base_type(),
        e.spec_base_type().spec_base_type() == e.spec_base_type(),
        !is_alias(e.spec_base_type()),
        !(e.spec_base_type().spec_kind() is Subtype),
    decreases e,
{
    if is_alias(e) || e.kind is Subtype {
        lemma_base_type_through_aliases(referent(e));
    }
}

/// A subtype has the base type of the type it is a subtype of.
pub proof fn lemma_subtype_base_type(e: NamedEntity, st: Subtype)
    requires
        e.spec_kind() == NamedEntityKind::Subtype(st),
    ensures
        e.spec_base_type() == st.spec_base().spec_base_type(),
{
}

/// An alias is an alias of the entity it refers to and of everything that
/// entity is an alias of; only aliases are aliases of anything; and an alias
/// stands for what its target stands for.
pub proof fn lemma_alias_chain(e: NamedEntity, id: EntityId)
    ensures
        e.aliases_id(id) ==> is_alias(e),
        e.spec_kind() matches NamedEntityKind::AliasOf(target) ==> {
            &&& e.aliases_id(target.spec_id())
            &&& (target.aliases_id(id) ==> e.aliases_id(id))
            &&& e.actual() == target.actual()
        },
{
}

/// Every entity along the alias chain of `e` that has the id of `other` is
/// `other` itself: within the chain, equal ids mean the same entity.
pub open spec fn chain_ids_identify(e: NamedEntity, other: NamedEntity) -> bool
    decreases e,
{
    match e.spec_kind() {
        NamedEntityKind::AliasOf(target) => {
            &&& (target.spec_id() == other.spec_id() ==> *target == other)
            &&& chain_ids_identify(*target, other)
        },
        _ => true,
    }
}

/// An alias is an alias of the actual entity it stands for.
pub proof fn lemma_alias_of_actual(e: NamedEntity)
    requires
        is_alias(e),
    ensures
        e.aliases_id(e.actual().spec_id()),
    decreases e,
{
    let target = referent(e);
    assert(e.spec_kind() == NamedEntityKind::AliasOf(Arc::new(target)));
    assert(e.actual() == target.actual());
    if is_alias(target) {
        lemma_alias_of_actual(target);
    }
}

/// An alias of an entity that is itself no alias stands for that entity:
/// when, along the alias chain, equal ids mean the same entity, the actual
/// entity has the other entity's id.
pub proof fn lemma_alias_resolves_to(e: NamedEntity, other: NamedEntity)
    requires
        e.aliases_id(other.spec_id()),
        !is_alias(other),
        chain_ids_identify(e, other),
    ensures
        e.actual().spec_id() == other.spec_id(),
        e.actual() == other,
    decreases e,
{
    let target = referent(e);
    assert(e.spec_kind() == NamedEntityKind::AliasOf(Arc::new(target)));
    assert(e.actual() == target.actual());
    if target.spec_id() != other.spec_id() {
        lemma_alias_resolves_to(target, other);
    }
}

/// The description of an alias names the alias and then describes the
/// entity that it stands for.
pub proof fn lemma_alias_description(e: NamedEntity)
    requires
        is_alias(e),
    ensures
        description(e) == "alias '"@ + designator_text(e.spec_designator()) + "' of "@
            + description(e.actual()),
{
    lemma_actual_idempotent(e);
}

/// A constant is never both deferred and not deferred, a protected type is
/// a type, and an entity is overloaded exactly when its actual kind is a
/// subprogram, a subprogram declaration or an enumeration literal.
pub proof fn lemma_kind_classes(k: NamedEntityKind)
    ensures
        !((k is DeferredConstant) && (k matches NamedEntityKind::Object(obj) && obj.class
            == ObjectClass::Constant && obj.mode is None)),
        (k is ProtectedType) ==> kind_is_type(k),
        (kind_signature(k) is Some) <==> (k is Subprogram || k is SubprogramDecl
            || k is EnumLiteral),
        kind_implicit_declarations(k).len() > 0 ==> kind_is_type(k),
{
}

/// A subprogram is described as a function exactly when it has a return
/// type, and as a procedure otherwise.
pub proof fn lemma_subprogram_kind_text(sig: Signature)
    ensures
        kind_text(NamedEntityKind::Subprogram(sig)) == kind_text(
            NamedEntityKind::SubprogramDecl(sig),
        ),
        kind_text(NamedEntityKind::Subprogram(sig)) == if sig.spec_return_type() is Some {
            "function"@
        } else {
            "procedure"@
        },
{
}

/// A copy with another kind is the same entity as the original: it has the
/// same id and so compares equal, and keeps the designator, the position and
/// the implicitness; copying again replaces the kind again.
pub proof fn lemma_with_kind_same_entity(e: NamedEntity, k1: NamedEntityKind, k2: NamedEntityKind)
    ensures
        e.with_kind(k1).eq_spec(&e),
        e.eq_spec(&e.with_kind(k1)),
        e.with_kind(k1).spec_kind() == k1,
        e.with_kind(k1).spec_designator() == e.spec_designator(),
        e.with_kind(k1).spec_decl_pos() == e.spec_decl_pos(),
        e.with_kind(k1).spec_implicit() == e.spec_implicit(),
        e.with_kind(k1).with_kind(k2) == e.with_kind(k2),
{
}

/// The id that a counter starting at `start` hands out on its `k`-th call,
/// counting from 0.
pub open spec fn nth_id(start: usize, k: nat) -> usize
    decreases k,
{
    if k == 0 {
        start
    } else {
        id_successor(nth_id(start, (k - 1) as nat))
    }
}

/// Until the counter wraps, its `k`-th id is `start + k`.
proof fn lemma_nth_id_value(start: usize, k: nat)
    requires
        start + k <= usize::MAX,
    ensures
        nth_id(start, k) == start + k,
    decreases k,
{
    if k > 0 {
        lemma_nth_id_value(start, (k - 1) as nat);
    }
}

/// The ids that `n` successive calls of `new_id` hand out from one counter
/// are pairwise distinct, as long as the counter does not wrap around: the
/// `k`-th of them is the counter's start value plus `k`.
pub proof fn lemma_successive_ids_distinct(start: usize, n: nat)
    requires
        start + n <= usize::MAX + 1,
    ensures
        forall|k: nat| k < n ==> #[trigger] nth_id(start, k) == start + k,
        forall|i: nat, j: nat| i < j < n ==> #[trigger] nth_id(start, i) != #[trigger] nth_id(
            start,
            j,
        ),
{
    assert forall|k: nat| k < n implies #[trigger] nth_id(start, k) == start + k by {
        lemma_nth_id_value(start, k);
    }
}

/// Equality of entities is an equivalence.
pub proof fn lemma_entity_eq_equivalence(a: NamedEntity, b: NamedEntity, c: NamedEntity)
    ensures
        a.eq_spec(&a),
        a.eq_spec(&b) ==> b.eq_spec(&a),
        a.eq_spec(&b) && b.eq_spec(&c) ==> a.eq_spec(&c),
{
}

/// Ids stay fresh: when every id handed out so far is below the counter and
/// the counter has not reached its largest value, the next id differs from
/// all of them and is again below the counter.
pub proof fn lemma_new_id_fresh(issued: Set<usize>, next: usize)
    requires
        forall|x: usize| issued.contains(x) ==> x < next,
        next < usize::MAX,
    ensures
        !issued.contains(next),
        forall|x: usize| #[trigger] issued.insert(next).contains(x) ==> x < id_successor(next),
{
}

/// A signature key has one id per parameter, and signatures whose
/// parameters and return values have the same base types have the same key,
/// whatever subtypes and aliases they are written with.
pub proof fn lemma_signature_key_by_base_types(s1: Signature, s2: Signature)
    ensures
        signature_key_of(s1.spec_params(), s1.spec_return_type()).0.len()
            == s1.spec_params().len(),
        ({
            &&& s1.spec_params().len() == s2.spec_params().len()
            &&& forall|i: int|
                0 <= i < s1.spec_params().len() ==> #[trigger] param_type(
                    *s1.spec_params()[i],
                ).spec_id() == param_type(*s2.spec_params()[i]).spec_id()
            &&& (s1.spec_return_type() is Some) == (s2.spec_return_type() is Some)
            &&& s1.spec_return_type() is Some ==> (*s1.spec_return_type()->0).spec_base_type().spec_id()
                == (*s2.spec_return_type()->0).spec_base_type().spec_id()
        }) ==> signature_key_of(s1.spec_params(), s1.spec_return_type()) == signature_key_of(
            s2.spec_params(),
            s2.spec_return_type(),
        ),
{
    let k1 = signature_key_of(s1.spec_params(), s1.spec_return_type());
    let k2 = signature_key_of(s2.spec_params(), s2.spec_return_type());
    if s1.spec_params().len() == s2.spec_params().len() && (forall|i: int|
        0 <= i < s1.spec_params().len() ==> #[trigger] param_type(*s1.spec_params()[i]).spec_id()
            == param_type(*s2.spec_params()[i]).spec_id()) {
        assert(k1.0 =~= k2.0);
    }
}

} // verus!
