//! From a constructor's parameters to the names of their types.
//!
//! An annotation is recognised only when it is a direct, unparameterised
//! reference to one type by its simple name. A parameter contributes the
//! recognised annotations of the identifiers it binds at its top level, in
//! source order; whatever carries no recognised annotation contributes
//! nothing, so the list may be shorter than the parameter list.

use crate::syntax::{
    BindingIdent, ClassMember, ObjectPatProp, ParamOrTsParamProp, Pat, TsEntityName,
    TsParamPropParam, TsType,
};
use vstd::prelude::*;

verus! {

/// The type name that an annotation stands for, if it is a plain reference to
/// a named type: no qualification and no generic arguments. Every other
/// shape, and a missing annotation, stands for no name.
pub open spec fn named_type(type_ann: Option<TsType>) -> Option<Seq<char>> {
    match type_ann {
        Some(TsType::TypeRef(type_ref)) => match type_ref.name {
            TsEntityName::Ident(sym) => if type_ref.type_params is None {
                Some(sym@)
            } else {
                None
            },
            TsEntityName::Qualified(_) => None,
        },
        _ => None,
    }
}

/// What an identifier contributes: the name its annotation stands for, or
/// nothing.
pub open spec fn ident_types(ident: BindingIdent) -> Seq<Seq<char>> {
    match named_type(ident.type_ann) {
        Some(name) => seq![name],
        None => Seq::empty(),
    }
}

/// What one slot of an array pattern contributes. Only a slot that is itself
/// an identifier counts: elisions, rest elements and nested patterns do not.
pub open spec fn slot_types(slot: Option<Pat>) -> Seq<Seq<char>> {
    match slot {
        Some(Pat::Ident(ident)) => ident_types(ident),
        _ => Seq::empty(),
    }
}

/// What one property of an object pattern contributes. Only `key: value`
/// with an identifier as its value counts: shorthand properties, defaults,
/// rest elements and nested patterns do not.
pub open spec fn prop_types(prop: ObjectPatProp) -> Seq<Seq<char>> {
    match prop {
        ObjectPatProp::KeyValue(key_value) => match *key_value.value {
            Pat::Ident(ident) => ident_types(ident),
            _ => Seq::empty(),
        },
        _ => Seq::empty(),
    }
}

/// What the slots of an array pattern contribute, in slot order.
pub open spec fn array_types(elems: Seq<Option<Pat>>) -> Seq<Seq<char>> {
    elems.map_values(|slot: Option<Pat>| slot_types(slot)).flatten()
}

/// What the properties of an object pattern contribute, in property order.
pub open spec fn object_types(props: Seq<ObjectPatProp>) -> Seq<Seq<char>> {
    props.map_values(|prop: ObjectPatProp| prop_types(prop)).flatten()
}

/// What a pattern in parameter position contributes. Destructuring is
/// followed for one level only, and the annotation on a destructuring
/// pattern as a whole is never read.
pub open spec fn pat_types(pat: Pat) -> Seq<Seq<char>> {
    match pat {
        Pat::Ident(ident) => ident_types(ident),
        Pat::Array(array) => array_types(array.elems@),
        Pat::Object(object) => object_types(object.props@),
        _ => Seq::empty(),
    }
}

/// What one constructor parameter contributes. A parameter promoted to a
/// field is read like the identifier it binds.
pub open spec fn param_types(param: ParamOrTsParamProp) -> Seq<Seq<char>> {
    match param {
        ParamOrTsParamProp::TsParamProp(prop) => match prop.param {
            TsParamPropParam::Ident(ident) => ident_types(ident),
            TsParamPropParam::Assign(_) => Seq::empty(),
        },
        ParamOrTsParamProp::Param(param) => pat_types(param.pat),
    }
}

/// What a parameter list contributes: the contributions of its parameters,
/// concatenated in declared order.
pub open spec fn params_types(params: Seq<ParamOrTsParamProp>) -> Seq<Seq<char>> {
    params.map_values(|param: ParamOrTsParamProp| param_types(param)).flatten()
}

/// The parameter list of the first constructor among `body`, if there is a
/// constructor at all.
pub open spec fn constructor_params(body: Seq<ClassMember>) -> Option<Seq<ParamOrTsParamProp>>
    decreases body.len(),
{
    if body.len() == 0 {
        None
    } else {
        match body.first() {
            ClassMember::Constructor(constructor) => Some(constructor.params@),
            _ => constructor_params(body.drop_first()),
        }
    }
}

/// The type names that the members of a class give rise to: those of the
/// first constructor's parameters, or none where there is no constructor.
pub open spec fn ctor_arg_types(body: Seq<ClassMember>) -> Seq<Seq<char>> {
    match constructor_params(body) {
        Some(params) => params_types(params),
        None => Seq::empty(),
    }
}

/// Mapping and flattening a sequence extended by one item appends that
/// item's image.
proof fn lemma_flat_map_push<T>(items: Seq<T>, item: T, f: spec_fn(T) -> Seq<Seq<char>>)
    ensures
        items.push(item).map_values(f).flatten() == items.map_values(f).flatten() + f(item),
{
    assert(items.push(item).map_values(f) =~= items.map_values(f).push(f(item)));
    items.map_values(f).lemma_flatten_push(f(item));
}

/// The name of the type that an identifier is annotated with.
///
/// Returns a name exactly when the annotation is a direct reference to a
/// single named type; an absent annotation, or one of any other shape, gives
/// `None`.
pub fn extract_ident_type_ann(type_ann: &Option<TsType>) -> (name: Option<String>)
    ensures
        name.deep_view() == named_type(*type_ann),
{
    if let Some(TsType::TypeRef(type_ref)) = type_ann {
        if let TsEntityName::Ident(sym) = &type_ref.name {
            if type_ref.type_params.is_none() {
                return Some(sym.clone());
            }
        }
    }
    None
}

/// Appends what `ident` contributes to `types`.
fn collect_ident(ident: &BindingIdent, types: &mut Vec<String>)
    ensures
        final(types).deep_view() == old(types).deep_view() + ident_types(*ident),
{
    if let Some(name) = extract_ident_type_ann(&ident.type_ann) {
        let ghost before = types.deep_view();
        let ghost found = name@;
        types.push(name);
        assert(types.deep_view() =~= before + seq![found]);
    }
}

/// Appends what the slots of an array pattern contribute to `types`.
fn collect_array(elems: &Vec<Option<Pat>>, types: &mut Vec<String>)
    ensures
        final(types).deep_view() == old(types).deep_view() + array_types(elems@),
{
    let ghost before = types.deep_view();
    let mut i: usize = 0;
    while i < elems.len()
        invariant
            i <= elems.len(),
            types.deep_view() == before + array_types(elems@.take(i as int)),
        decreases elems.len() - i,
    {
        proof {
            lemma_flat_map_push(
                elems@.take(i as int),
                elems@[i as int],
                |slot: Option<Pat>| slot_types(slot),
            );
            assert(elems@.take(i as int).push(elems@[i as int]) =~= elems@.take(i + 1));
        }
        if let Some(Pat::Ident(ident)) = &elems[i] {
            collect_ident(ident, types);
        }
        i += 1;
    }
    assert(elems@.take(elems.len() as int) =~= elems@);
}

/// Appends what the properties of an object pattern contribute to `types`.
fn collect_object(props: &Vec<ObjectPatProp>, types: &mut Vec<String>)
    ensures
        final(types).deep_view() == old(types).deep_view() + object_types(props@),
{
    let ghost before = types.deep_view();
    let mut i: usize = 0;
    while i < props.len()
        invariant
            i <= props.len(),
            types.deep_view() == before + object_types(props@.take(i as int)),
        decreases props.len() - i,
    {
        proof {
            lemma_flat_map_push(
                props@.take(i as int),
                props@[i as int],
                |prop: ObjectPatProp| prop_types(prop),
            );
            assert(props@.take(i as int).push(props@[i as int]) =~= props@.take(i + 1));
        }
        if let ObjectPatProp::KeyValue(key_value) = &props[i] {
            if let Pat::Ident(ident) = &*key_value.value {
                collect_ident(ident, types);
            }
        }
        i += 1;
    }
    assert(props@.take(props.len() as int) =~= props@);
}

/// Appends what one constructor parameter contributes to `types`.
fn collect_param(param: &ParamOrTsParamProp, types: &mut Vec<String>)
    ensures
        final(types).deep_view() == old(types).deep_view() + param_types(*param),
{
    match param {
        ParamOrTsParamProp::TsParamProp(prop) => {
            if let TsParamPropParam::Ident(ident) = &prop.param {
                collect_ident(ident, types);
            }
        },
        ParamOrTsParamProp::Param(param) => match &param.pat {
            Pat::Ident(ident) => {
                collect_ident(ident, types);
            },
            Pat::Array(array) => {
                collect_array(&array.elems, types);
            },
            Pat::Object(object) => {
                collect_object(&object.props, types);
            },
            _ => {},
        },
    }
}

/// The type names that one constructor parameter contributes, in the order
/// in which the parameter binds them.
pub fn resolve_param(param: &ParamOrTsParamProp) -> (types: Vec<String>)
    ensures
        types.deep_view() == param_types(*param),
{
    let mut types: Vec<String> = Vec::new();
    assert(types.deep_view() =~= Seq::<Seq<char>>::empty());
    collect_param(param, &mut types);
    types
}

/// The type names that a parameter list contributes, in declared order.
pub fn resolve_params(params: &Vec<ParamOrTsParamProp>) -> (types: Vec<String>)
    ensures
        types.deep_view() == params_types(params@),
{
    let mut types: Vec<String> = Vec::new();
    assert(types.deep_view() =~= Seq::<Seq<char>>::empty());
    let mut i: usize = 0;
    while i < params.len()
        invariant
            i <= params.len(),
            types.deep_view() == params_types(params@.take(i as int)),
        decreases params.len() - i,
    {
        proof {
            lemma_flat_map_push(
                params@.take(i as int),
                params@[i as int],
                |param: ParamOrTsParamProp| param_types(param),
            );
            assert(params@.take(i as int).push(params@[i as int]) =~= params@.take(i + 1));
        }
        collect_param(&params[i], &mut types);
        i += 1;
    }
    assert(params@.take(params.len() as int) =~= params@);
    types
}

/// The parameter list of the first constructor in a class body, or `None`
/// where the body declares no constructor. Later constructors are not looked
/// at.
pub fn find_constructor_params(body: &Vec<ClassMember>) -> (found: Option<
    &Vec<ParamOrTsParamProp>,
>)
    ensures
        match found {
            Some(params) => constructor_params(body@) == Some(params@),
            None => constructor_params(body@) is None,
        },
{
    let mut i: usize = 0;
    assert(body@.skip(0) =~= body@);
    while i < body.len()
        invariant
            i <= body.len(),
            constructor_params(body@) == constructor_params(body@.skip(i as int)),
        decreases body.len() - i,
    {
        assert(body@.skip(i as int).first() == body@[i as int]);
        assert(body@.skip(i as int).drop_first() =~= body@.skip(i + 1));
        if let ClassMember::Constructor(constructor) = &body[i] {
            return Some(&constructor.params);
        }
        i += 1;
    }
    None
}

/// The type names recorded for a class with the members `body`: those of the
/// first constructor's parameters, or an empty list where there is no
/// constructor.
pub fn extract_ctor_args(body: &Vec<ClassMember>) -> (types: Vec<String>)
    ensures
        types.deep_view() == ctor_arg_types(body@),
{
    match find_constructor_params(body) {
        Some(params) => resolve_params(params),
        None => {
            let types: Vec<String> = Vec::new();
            assert(types.deep_view() =~= Seq::<Seq<char>>::empty());
            types
        },
    }
}

} // verus!
