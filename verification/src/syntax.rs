//! The syntax that a pass reads and writes.
//!
//! These types describe a parsed program as far as the pass looks at it:
//! classes, their members, constructor parameters with their binding
//! patterns, and the type annotations on identifiers. Everything else in a
//! program is an opaque [`Node`] with children. For what a pass adds there
//! are methods, with the few kinds of statement and expression that the pass
//! writes itself. The shapes of parameters, patterns and annotations are
//! closed unions, so that a shape the pass does not know cannot slip through
//! a match unnoticed.
//!
//! The types are plain data without invariants. Specifications read them as
//! they are, and take the view of a string where they reach one.

use vstd::prelude::*;

verus! {

/// The name that a type reference points at.
#[derive(Debug, PartialEq, Eq)]
pub enum TsEntityName {
    /// A simple name, `Foo`.
    Ident(String),
    /// A qualified name such as `ns.Foo`, by its segments from left to right.
    Qualified(Vec<String>),
}

/// A reference to a type by name: `Foo`, `ns.Foo` or `Foo<Bar>`.
#[derive(Debug, PartialEq, Eq)]
pub struct TsTypeRef {
    pub name: TsEntityName,
    /// The number of generic arguments, where an argument list is written.
    pub type_params: Option<usize>,
}

/// A type as written in an annotation.
#[derive(Debug, PartialEq, Eq)]
pub enum TsType {
    /// A reference to a type by name.
    TypeRef(TsTypeRef),
    /// A primitive keyword: `string`, `number`, `any` ...
    Keyword,
    /// A function or constructor type.
    Function,
    /// An array type, `Foo[]`.
    Array,
    /// A tuple type, `[Foo, Bar]`.
    Tuple,
    /// A union or an intersection, `Foo | Bar`, `Foo & Bar`.
    UnionOrIntersection,
    /// A literal type: `"on"`, `42`, `{ x: Foo }`.
    Literal,
    /// Any other type syntax.
    Other,
}

/// An identifier that binds a name, with the annotation written on it.
#[derive(Debug, PartialEq, Eq)]
pub struct BindingIdent {
    pub sym: String,
    pub type_ann: Option<TsType>,
}

/// A binding pattern.
#[derive(Debug, PartialEq, Eq)]
pub enum Pat {
    /// `a` or `a: Foo`
    Ident(BindingIdent),
    /// `[a, , b]`
    Array(ArrayPat),
    /// `...rest`
    Rest(RestPat),
    /// `{ a: b, c }`
    Object(ObjectPat),
    /// `a = 1`
    Assign(AssignPat),
    /// A pattern that did not parse.
    Invalid,
    /// An expression in pattern position.
    Expr,
}

/// An array-destructuring pattern. A slot that is `None` is an elision.
#[derive(Debug, PartialEq, Eq)]
pub struct ArrayPat {
    pub elems: Vec<Option<Pat>>,
    /// The annotation on the pattern as a whole.
    pub type_ann: Option<TsType>,
}

/// An object-destructuring pattern.
#[derive(Debug, PartialEq, Eq)]
pub struct ObjectPat {
    pub props: Vec<ObjectPatProp>,
    /// The annotation on the pattern as a whole.
    pub type_ann: Option<TsType>,
}

/// A rest element, `...arg`.
#[derive(Debug, PartialEq, Eq)]
pub struct RestPat {
    pub arg: Box<Pat>,
    pub type_ann: Option<TsType>,
}

/// A pattern with a default value, `left = value`.
#[derive(Debug, PartialEq, Eq)]
pub struct AssignPat {
    pub left: Box<Pat>,
}

/// One property of an object-destructuring pattern.
#[derive(Debug, PartialEq, Eq)]
pub enum ObjectPatProp {
    /// `key: value`
    KeyValue(KeyValuePatProp),
    /// The shorthand `key`, or `key = default`.
    Assign(AssignPatProp),
    /// `...rest`
    Rest(RestPat),
}

/// `key: value` inside an object pattern.
#[derive(Debug, PartialEq, Eq)]
pub struct KeyValuePatProp {
    pub key: String,
    pub value: Box<Pat>,
}

/// The shorthand `key` inside an object pattern, with or without a default.
#[derive(Debug, PartialEq, Eq)]
pub struct AssignPatProp {
    pub key: BindingIdent,
    pub has_default: bool,
}

/// An ordinary parameter.
#[derive(Debug, PartialEq, Eq)]
pub struct Param {
    pub pat: Pat,
}

/// What a parameter that is promoted to a field binds.
#[derive(Debug, PartialEq, Eq)]
pub enum TsParamPropParam {
    /// `private a: Foo`
    Ident(BindingIdent),
    /// `private a: Foo = value`
    Assign(AssignPat),
}

/// A constructor parameter that also declares an instance field,
/// `private readonly a: Foo`.
#[derive(Debug, PartialEq, Eq)]
pub struct TsParamProp {
    pub readonly: bool,
    pub param: TsParamPropParam,
}

/// One parameter of a constructor.
#[derive(Debug, PartialEq, Eq)]
pub enum ParamOrTsParamProp {
    TsParamProp(TsParamProp),
    Param(Param),
}

/// An expression, as far as the pass writes expressions itself.
#[derive(Debug, PartialEq, Eq)]
pub enum Expr {
    /// A reference to a binding, `Symbol`.
    Ident(String),
    /// A property access, `obj.prop`.
    Member(MemberExpr),
    /// A call, `callee(args)`.
    Call(CallExpr),
    /// A string literal, `"text"`.
    Str(String),
    /// An array literal, `[a, b]`.
    Array(Vec<Expr>),
}

/// `obj.prop`
#[derive(Debug, PartialEq, Eq)]
pub struct MemberExpr {
    pub obj: Box<Expr>,
    pub prop: String,
}

/// `callee(args)`
#[derive(Debug, PartialEq, Eq)]
pub struct CallExpr {
    pub callee: Box<Expr>,
    pub args: Vec<Expr>,
}

/// A statement, as far as the pass writes statements itself.
#[derive(Debug, PartialEq, Eq)]
pub enum Stmt {
    /// `return arg;`
    Return(Expr),
}

/// The key of a class member.
#[derive(Debug, PartialEq, Eq)]
pub enum PropName {
    /// An ordinary name, `key`.
    Ident(String),
    /// A key that is computed when the class is defined, `[expr]`.
    Computed(Expr),
}

/// What kind of method a method is.
#[derive(Debug, Clone, Copy, PartialEq, Eq, Structural)]
pub enum MethodKind {
    Method,
    Getter,
    Setter,
}

/// A method as the pass writes it: a method without parameters, with its key
/// and the statements of its body.
#[derive(Debug, PartialEq, Eq)]
pub struct ClassMethod {
    pub key: PropName,
    pub kind: MethodKind,
    pub is_static: bool,
    pub body: Vec<Stmt>,
}

/// A constructor, with the syntax nested in its body.
#[derive(Debug, PartialEq, Eq)]
pub struct Constructor {
    pub params: Vec<ParamOrTsParamProp>,
    pub body: Vec<Node>,
}

/// A member that the pass neither reads nor writes: a method, field,
/// accessor or static block of the source, with the syntax nested in it.
#[derive(Debug, PartialEq, Eq)]
pub struct Member {
    pub key: String,
    pub children: Vec<Node>,
}

/// One member of a class body.
#[derive(Debug, PartialEq, Eq)]
pub enum ClassMember {
    Constructor(Constructor),
    /// A method that a pass has written.
    Method(ClassMethod),
    Other(Member),
}

/// A class: its members in source order.
#[derive(Debug, PartialEq, Eq)]
pub struct Class {
    pub body: Vec<ClassMember>,
}

/// `class Name { .. }` as a declaration.
#[derive(Debug, PartialEq, Eq)]
pub struct ClassDecl {
    pub ident: String,
    pub class: Class,
}

/// `class { .. }` or `class Name { .. }` as an expression.
#[derive(Debug, PartialEq, Eq)]
pub struct ClassExpr {
    pub ident: Option<String>,
    pub class: Class,
}

/// A node of the program tree.
#[derive(Debug, PartialEq, Eq)]
pub enum Node {
    ClassDecl(ClassDecl),
    ClassExpr(ClassExpr),
    /// Any other syntax, with its children in source order.
    Other(Vec<Node>),
}

/// A parsed source unit.
#[derive(Debug, PartialEq, Eq)]
pub struct Program {
    pub body: Vec<Node>,
}

} // verus!
