//! The two members that a pass adds to a class.
//!
//! Both are static accessors, keyed by a symbol from the host's global
//! symbol registry, so that they cannot collide with a member the class
//! declares under an ordinary name. One returns the type names of the
//! constructor's parameters as an array of string literals, the other the
//! name of the class as a string literal.

use crate::syntax::{
    CallExpr, ClassMember, ClassMethod, Expr, MemberExpr, MethodKind, PropName, Stmt,
};
use vstd::prelude::*;

verus! {

/// The registry key of the symbol under which a class exposes the type names
/// of its constructor's parameters.
pub const CTOR_ARGS: &'static str = "___CTOR_ARGS___";

/// The registry key of the symbol under which a class exposes its own name.
pub const CTOR_NAME: &'static str = "___CTOR_NAME___";

/// The value of a literal that a pass writes.
pub enum Literal {
    /// An array of string literals.
    StringList(Seq<Seq<char>>),
    /// A single string literal.
    Text(Seq<char>),
}

/// `key` is `[Symbol.for("name")]`: it is computed by a call of the host's
/// global symbol lookup on the one string literal `name`.
pub open spec fn is_symbol_key(key: PropName, name: Seq<char>) -> bool {
    &&& key matches PropName::Computed(Expr::Call(call))
    &&& *call.callee matches Expr::Member(lookup)
    &&& *lookup.obj matches Expr::Ident(registry)
    &&& registry@ == "Symbol"@
    &&& lookup.prop@ == "for"@
    &&& call.args@.len() == 1
    &&& call.args@[0] matches Expr::Str(arg)
    &&& arg@ == name
}

/// The value that an expression evaluates to, if the expression is a string
/// literal or an array of nothing but string literals.
pub open spec fn literal_of(expr: Expr) -> Option<Literal> {
    match expr {
        Expr::Str(text) => Some(Literal::Text(text@)),
        Expr::Array(items) => if forall|i: int|
            0 <= i < items@.len() ==> #[trigger] items@[i] is Str {
            Some(Literal::StringList(Seq::new(items@.len(), |i: int| items@[i]->Str_0@)))
        } else {
            None
        },
        _ => None,
    }
}

/// What reading a method from its class yields: `Some(value)` exactly for an
/// accessor whose body is the single statement that returns the literal
/// `value`.
pub open spec fn yields(method: ClassMethod) -> Option<Literal> {
    if method.kind == MethodKind::Getter && method.body@.len() == 1 {
        match method.body@[0] {
            Stmt::Return(arg) => literal_of(arg),
        }
    } else {
        None
    }
}

/// `member` is the static accessor that yields `value` under the symbol
/// registered as `symbol`. This fixes every part of the member.
pub open spec fn exposes(member: ClassMember, symbol: Seq<char>, value: Literal) -> bool {
    &&& member matches ClassMember::Method(method)
    &&& method.is_static
    &&& is_symbol_key(method.key, symbol)
    &&& yields(method) == Some(value)
}

/// The key that looks `name` up in the host's global symbol registry,
/// `[Symbol.for("name")]`.
pub fn symbol_for(name: &str) -> (key: PropName)
    ensures
        is_symbol_key(key, name@),
{
    let mut args: Vec<Expr> = Vec::new();
    args.push(Expr::Str(name.to_string()));
    PropName::Computed(
        Expr::Call(
            CallExpr {
                callee: Box::new(
                    Expr::Member(
                        MemberExpr {
                            obj: Box::new(Expr::Ident("Symbol".to_string())),
                            prop: "for".to_string(),
                        },
                    ),
                ),
                args,
            },
        ),
    )
}

/// The array literal of the string literals `items`, in order.
pub fn string_array(items: &Vec<String>) -> (expr: Expr)
    ensures
        literal_of(expr) == Some(Literal::StringList(items.deep_view())),
{
    let mut elems: Vec<Expr> = Vec::new();
    let mut i: usize = 0;
    while i < items.len()
        invariant
            i <= items.len(),
            elems@.len() == i,
            forall|j: int|
                0 <= j < i ==> (#[trigger] elems@[j] matches Expr::Str(text) && text@
                    == items@[j]@),
        decreases items.len() - i,
    {
        elems.push(Expr::Str(items[i].clone()));
        i += 1;
    }
    let expr = Expr::Array(elems);
    assert(literal_of(expr)->Some_0->StringList_0 =~= items.deep_view());
    expr
}

/// Builds the static accessor whose key is the symbol that the host's global
/// registry holds under `name`, and whose body is `body`.
pub fn class_method(name: &str, body: Vec<Stmt>) -> (method: ClassMethod)
    ensures
        is_symbol_key(method.key, name@),
        method.kind == MethodKind::Getter,
        method.is_static,
        method.body == body,
{
    ClassMethod { key: symbol_for(name), kind: MethodKind::Getter, is_static: true, body }
}

} // verus!
