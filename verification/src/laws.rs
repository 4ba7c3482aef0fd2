//! What holds of every pass, proved from the definitions.

use crate::extract::{
    constructor_params, ctor_arg_types, ident_types, param_types, params_types, pat_types,
    prop_types, slot_types,
};
use crate::metadata::{exposes, is_symbol_key, yields, Literal, CTOR_ARGS, CTOR_NAME};
use crate::syntax::{
    BindingIdent, Class, ClassExpr, ClassMember, MethodKind, ObjectPatProp, ParamOrTsParamProp,
    Pat,
};
use crate::visitor::{expr_visited, processed};
use vstd::prelude::*;
use vstd::seq_lib::lemma_flatten_concat;

verus! {

/// No member of `body` is a constructor.
pub open spec fn no_constructor(body: Seq<ClassMember>) -> bool {
    forall|i: int| 0 <= i < body.len() ==> !(#[trigger] body[i] is Constructor)
}

/// A class body without a constructor gives rise to no type names.
pub proof fn lemma_no_constructor_no_types(body: Seq<ClassMember>)
    requires
        no_constructor(body),
    ensures
        constructor_params(body) is None,
        ctor_arg_types(body) == Seq::<Seq<char>>::empty(),
    decreases body.len(),
{
    if body.len() > 0 {
        assert(!(body[0] is Constructor));
        assert forall|i: int| 0 <= i < body.drop_first().len() implies !(
        #[trigger] body.drop_first()[i] is Constructor) by {
            assert(body.drop_first()[i] == body[i + 1]);
        }
        lemma_no_constructor_no_types(body.drop_first());
    }
}

/// The constructor that is read is the first one in the body: whatever
/// follows it, a second constructor included, is not looked at.
pub proof fn law_first_constructor_is_read(body: Seq<ClassMember>, at: int)
    requires
        0 <= at < body.len(),
        body[at] is Constructor,
        forall|i: int| 0 <= i < at ==> !(#[trigger] body[i] is Constructor),
    ensures
        constructor_params(body) == Some(body[at]->Constructor_0.params@),
        ctor_arg_types(body) == params_types(body[at]->Constructor_0.params@),
    decreases at,
{
    if at > 0 {
        assert(!(body[0] is Constructor));
        assert forall|i: int| 0 <= i < at - 1 implies !(
        #[trigger] body.drop_first()[i] is Constructor) by {
            assert(body.drop_first()[i] == body[i + 1]);
        }
        law_first_constructor_is_read(body.drop_first(), at - 1);
    }
}

/// Members that are not constructors, added behind a class body, do not
/// change which parameter list the body's constructor has.
pub proof fn lemma_constructor_params_extended(body: Seq<ClassMember>, more: Seq<ClassMember>)
    requires
        no_constructor(more),
    ensures
        constructor_params(body + more) == constructor_params(body),
    decreases body.len(),
{
    if body.len() == 0 {
        assert(body + more =~= more);
        lemma_no_constructor_no_types(more);
    } else {
        assert((body + more).first() == body.first());
        assert((body + more).drop_first() =~= body.drop_first() + more);
        lemma_constructor_params_extended(body.drop_first(), more);
    }
}

/// A named class always gains exactly two members, behind all the members
/// it had: first the one that yields the type names under the symbol
/// `___CTOR_ARGS___`, then the one that yields the class name under the
/// symbol `___CTOR_NAME___`.
pub proof fn law_named_class_gains_two_members(before: Class, after: Class, name: Seq<char>)
    requires
        processed(before, after, Some(name)),
    ensures
        after.body@.len() == before.body@.len() + 2,
        forall|i: int| 0 <= i < before.body@.len() ==> after.body@[i] == before.body@[i],
        exposes(
            after.body@[before.body@.len() as int],
            CTOR_ARGS@,
            Literal::StringList(ctor_arg_types(before.body@)),
        ),
        exposes(after.body@[before.body@.len() as int + 1], CTOR_NAME@, Literal::Text(name)),
{
    let len = before.body@.len() as int;
    assert forall|i: int| 0 <= i < len implies after.body@[i] == before.body@[i] by {
        assert(after.body@.take(len)[i] == after.body@[i]);
    }
}

/// A class without a name is left exactly as it was.
pub proof fn law_anonymous_class_unchanged(before: Class, after: Class)
    requires
        processed(before, after, None),
    ensures
        after == before,
        after.body@ == before.body@,
{
}

/// Visiting an anonymous class expression changes nothing at all: not its
/// members, and not what is nested in them.
pub proof fn law_anonymous_expression_unchanged(before: ClassExpr, after: ClassExpr)
    requires
        expr_visited(before, after),
        before.ident is None,
    ensures
        after == before,
{
}

/// What a synthesized member is: a static accessor, keyed by the symbol it is
/// exposed under, that returns the exposed literal and does nothing else.
pub proof fn law_exposed_member_shape(member: ClassMember, symbol: Seq<char>, value: Literal)
    requires
        exposes(member, symbol, value),
    ensures
        member matches ClassMember::Method(method) && method.is_static && method.kind
            == MethodKind::Getter && is_symbol_key(method.key, symbol) && method.body@.len() == 1
            && yields(method) == Some(value),
{
}

/// A named class without a constructor still gains both members: the list
/// of type names is empty, and the name is the class's name.
pub proof fn law_no_constructor_empty_list(before: Class, after: Class, name: Seq<char>)
    requires
        processed(before, after, Some(name)),
        no_constructor(before.body@),
    ensures
        after.body@.len() == before.body@.len() + 2,
        exposes(
            after.body@[before.body@.len() as int],
            CTOR_ARGS@,
            Literal::StringList(Seq::empty()),
        ),
        exposes(after.body@[before.body@.len() as int + 1], CTOR_NAME@, Literal::Text(name)),
{
    lemma_no_constructor_no_types(before.body@);
}

/// Processing is not idempotent. A class that is processed twice under the
/// same name ends with four synthesized members behind its own: the pair of
/// the first pass, then the same pair again. The second pass reads the same
/// constructor as the first, so both lists of type names are equal.
pub proof fn law_processing_twice_duplicates(
    before: Class,
    once: Class,
    twice: Class,
    name: Seq<char>,
)
    requires
        processed(before, once, Some(name)),
        processed(once, twice, Some(name)),
    ensures
        twice.body@.len() == before.body@.len() + 4,
        twice.body@.take(before.body@.len() as int) == before.body@,
        ({
            let len = before.body@.len() as int;
            let types = ctor_arg_types(before.body@);
            &&& exposes(twice.body@[len], CTOR_ARGS@, Literal::StringList(types))
            &&& exposes(twice.body@[len + 1], CTOR_NAME@, Literal::Text(name))
            &&& exposes(twice.body@[len + 2], CTOR_ARGS@, Literal::StringList(types))
            &&& exposes(twice.body@[len + 3], CTOR_NAME@, Literal::Text(name))
        }),
{
    let len = before.body@.len() as int;
    let added = once.body@.skip(len);
    assert(once.body@ =~= before.body@ + added) by {
        assert(once.body@.take(len) == before.body@);
    }
    assert(no_constructor(added)) by {
        assert(added[0] == once.body@[len]);
        assert(added[1] == once.body@[len + 1]);
    }
    lemma_constructor_params_extended(before.body@, added);
    assert(ctor_arg_types(once.body@) == ctor_arg_types(before.body@));
    assert(twice.body@.take(len) =~= before.body@) by {
        assert forall|i: int| 0 <= i < len implies twice.body@[i] == before.body@[i] by {
            assert(twice.body@.take(len + 2)[i] == once.body@[i]);
            assert(once.body@.take(len)[i] == before.body@[i]);
        }
    }
    assert(twice.body@[len] == once.body@[len]) by {
        assert(twice.body@.take(len + 2)[len] == once.body@[len]);
    }
    assert(twice.body@[len + 1] == once.body@[len + 1]) by {
        assert(twice.body@.take(len + 2)[len + 1] == once.body@[len + 1]);
    }
}

/// The type names of a parameter list come in the order of the parameters:
/// those of a list made of two parts are those of the first part followed by
/// those of the second. A parameter without a recognised annotation adds
/// nothing and leaves no gap.
pub proof fn law_params_in_order(first: Seq<ParamOrTsParamProp>, second: Seq<ParamOrTsParamProp>)
    ensures
        params_types(first + second) == params_types(first) + params_types(second),
{
    let f = |param: ParamOrTsParamProp| param_types(param);
    assert((first + second).map_values(f) =~= first.map_values(f) + second.map_values(f));
    lemma_flatten_concat(first.map_values(f), second.map_values(f));
}

/// An identifier without an annotation adds nothing, wherever it stands.
pub proof fn law_unannotated_ident_adds_nothing(ident: BindingIdent)
    requires
        ident.type_ann is None,
    ensures
        ident_types(ident) == Seq::<Seq<char>>::empty(),
        pat_types(Pat::Ident(ident)) == Seq::<Seq<char>>::empty(),
        slot_types(Some(Pat::Ident(ident))) == Seq::<Seq<char>>::empty(),
{
}

/// The annotation on a destructuring pattern as a whole is never read: two
/// patterns with the same inner bindings give the same type names whatever
/// each is annotated with, so an outer annotation cannot stand in for a
/// missing inner one.
pub proof fn law_outer_annotation_not_read(first: Pat, second: Pat)
    requires
        match (first, second) {
            (Pat::Object(a), Pat::Object(b)) => a.props@ == b.props@,
            (Pat::Array(a), Pat::Array(b)) => a.elems@ == b.elems@,
            _ => false,
        },
    ensures
        pat_types(first) == pat_types(second),
{
}

/// Destructuring is followed for one level only. In an array pattern, a slot
/// that is not itself an identifier adds nothing; in an object pattern, a
/// property adds nothing unless it is `key: value` with an identifier as its
/// value.
pub proof fn law_single_level_only(slot: Option<Pat>, prop: ObjectPatProp)
    ensures
        !(slot matches Some(Pat::Ident(_))) ==> slot_types(slot) == Seq::<Seq<char>>::empty(),
        !(prop matches ObjectPatProp::KeyValue(key_value) && *key_value.value is Ident)
            ==> prop_types(prop) == Seq::<Seq<char>>::empty(),
{
}

} // verus!
