//! The pieces of VHDL syntax that named entities refer to.
use vstd::prelude::*;

verus! {

/// The name under which something is declared.
#[derive(PartialEq, Eq, Hash, Debug)]
pub enum Designator {
    /// An ordinary identifier such as `foo`.
    Identifier(String),
    /// An operator symbol such as `"+"`, held without its quotes.
    OperatorSymbol(String),
    /// A character literal such as `'a'`, held as its Latin-1 code.
    Character(u8),
}

/// The text of a designator: an identifier as written, an operator symbol
/// in double quotes, a character literal in single quotes.
pub open spec fn designator_text(d: Designator) -> Seq<char> {
    match d {
        Designator::Identifier(name) => name@,
        Designator::OperatorSymbol(op) => seq!['"'] + op@ + seq!['"'],
        Designator::Character(byte) => seq!['\'', byte as char, '\''],
    }
}

/// Calls `String::push`, which appends the character at the end of the
/// string, as the contract says.
#[verifier::external_body]
fn push_char(s: &mut String, c: char)
    ensures
        final(s)@ == old(s)@.push(c),
{
    s.push(c);
}

impl Designator {
    /// The text of the designator, as `designator_text` gives it.
    pub fn to_string(&self) -> (r: String)
        ensures
            r@ == designator_text(*self),
    {
        match self {
            Designator::Identifier(name) => name.clone(),
            Designator::OperatorSymbol(op) => {
                let mut r = String::new();
                push_char(&mut r, '"');
                r.append(op.as_str());
                push_char(&mut r, '"');
                r
            },
            Designator::Character(byte) => {
                let mut r = String::new();
                push_char(&mut r, '\'');
                push_char(&mut r, *byte as char);
                push_char(&mut r, '\'');
                r
            },
        }
    }
}

impl Clone for Designator {
    fn clone(&self) -> (r: Self)
        ensures
            r == *self,
    {
        match self {
            Designator::Identifier(name) => Designator::Identifier(name.clone()),
            Designator::OperatorSymbol(op) => Designator::OperatorSymbol(op.clone()),
            Designator::Character(byte) => Designator::Character(*byte),
        }
    }
}

/// The class of an object.
#[derive(Clone, Copy, PartialEq, Eq, Structural, Hash, Debug)]
pub enum ObjectClass {
    Signal,
    Constant,
    Variable,
    SharedVariable,
}

/// The word that names an object class.
pub open spec fn object_class_text(class: ObjectClass) -> Seq<char> {
    match class {
        ObjectClass::Constant => "constant"@,
        ObjectClass::Variable => "variable"@,
        ObjectClass::Signal => "signal"@,
        ObjectClass::SharedVariable => "shared variable"@,
    }
}

impl ObjectClass {
    /// The word that names this class, such as "shared variable".
    pub fn describe(&self) -> (r: &'static str)
        ensures
            r@ == object_class_text(*self),
    {
        match self {
            ObjectClass::Constant => "constant",
            ObjectClass::Variable => "variable",
            ObjectClass::Signal => "signal",
            ObjectClass::SharedVariable => "shared variable",
        }
    }
}

/// The mode of an interface object.
#[derive(Clone, Copy, PartialEq, Eq, Structural, Hash, Debug)]
pub enum Mode {
    In,
    Out,
    InOut,
    Buffer,
    Linkage,
}

/// The keyword of a mode.
pub open spec fn mode_text(mode: Mode) -> Seq<char> {
    match mode {
        Mode::In => "in"@,
        Mode::Out => "out"@,
        Mode::InOut => "inout"@,
        Mode::Buffer => "buffer"@,
        Mode::Linkage => "linkage"@,
    }
}

impl Mode {
    /// The keyword of this mode, such as "inout".
    pub fn describe(&self) -> (r: &'static str)
        ensures
            r@ == mode_text(*self),
    {
        match self {
            Mode::In => "in",
            Mode::Out => "out",
            Mode::InOut => "inout",
            Mode::Buffer => "buffer",
            Mode::Linkage => "linkage",
        }
    }
}

} // verus!
