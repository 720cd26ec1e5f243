//! Resolvability checking: a discovered C++ item can only be turned into a
//! Rust binding once every type it transitively references already has a
//! known representation in the registry.

use vstd::prelude::*;
use vstd::string::StringExecFns;
use crate::cpp_data::all_involved_types;
use crate::cpp_data::item_short_text;
use crate::cpp_data::CppItemData;
use crate::cpp_data::CppTypeDataKind;
use crate::cpp_type::CppClassType;
use crate::cpp_type::CppName;
use crate::cpp_type::CppType;
use crate::database::DatabaseItem;
use crate::processor::ProcessingStep;

verus! {

/// `item` registers a class declaration under `name`.
pub open spec fn declares_class(item: DatabaseItem, name: Seq<char>) -> bool {
    match item.cpp_data {
        CppItemData::Type(t) => t.kind is Class && t.name.name@ == name,
        _ => false,
    }
}

/// `item` registers an enum declaration under `name`.
pub open spec fn declares_enum(item: DatabaseItem, name: Seq<char>) -> bool {
    match item.cpp_data {
        CppItemData::Type(t) => t.kind is Enum && t.name.name@ == name,
        _ => false,
    }
}

/// Some registry entry declares a class named `name`.
pub open spec fn registry_has_class(reg: Seq<DatabaseItem>, name: Seq<char>) -> bool {
    exists|i: int| 0 <= i < reg.len() && declares_class(reg[i], name)
}

/// Some registry entry declares an enum named `name`.
pub open spec fn registry_has_enum(reg: Seq<DatabaseItem>, name: Seq<char>) -> bool {
    exists|i: int| 0 <= i < reg.len() && declares_enum(reg[i], name)
}

/// A class or enum leaf of a type expression is backed by a matching
/// registry entry.
pub open spec fn leaf_resolvable(reg: Seq<DatabaseItem>, leaf: CppType) -> bool {
    match leaf {
        CppType::Class(ct) => registry_has_class(reg, ct.name.name@),
        CppType::Enum { name } => registry_has_enum(reg, name.name@),
        _ => true,
    }
}

/// The first class or enum leaf of `t`, in pre-order, that has no matching
/// registry entry; `None` when every leaf is resolvable.
pub open spec fn first_unresolved(reg: Seq<DatabaseItem>, t: CppType) -> Option<CppType>
    decreases t,
{
    match t {
        CppType::Void => None,
        CppType::BuiltInNumeric { .. } => None,
        CppType::Class(ct) => if !registry_has_class(reg, ct.name.name@) {
            Some(t)
        } else {
            match ct.template_arguments {
                Option::Some(args) => first_unresolved_in_list(reg, args@),
                Option::None => None,
            }
        },
        CppType::Enum { name } => if !registry_has_enum(reg, name.name@) {
            Some(t)
        } else {
            None
        },
        CppType::PointerLike { target, .. } => first_unresolved(reg, *target),
        CppType::FunctionPointer(f) => match first_unresolved(reg, *f.return_type) {
            Option::Some(leaf) => Some(leaf),
            Option::None => first_unresolved_in_list(reg, f.arguments@),
        },
    }
}

/// The first unresolved leaf over a list of type expressions, checking the
/// expressions in order.
pub open spec fn first_unresolved_in_list(reg: Seq<DatabaseItem>, ts: Seq<CppType>) -> Option<
    CppType,
>
    decreases ts,
{
    if ts.len() == 0 {
        None
    } else {
        match first_unresolved(reg, ts[0]) {
            Option::Some(leaf) => Some(leaf),
            Option::None => first_unresolved_in_list(reg, ts.drop_first()),
        }
    }
}

/// The first unresolved leaf among all types an item involves.
pub open spec fn item_first_unresolved(reg: Seq<DatabaseItem>, item: CppItemData) -> Option<
    CppType,
> {
    first_unresolved_in_list(reg, all_involved_types(item))
}

/// The diagnostic text reported for an unresolved leaf.
pub open spec fn unresolved_message(leaf: CppType) -> Seq<char> {
    match leaf {
        CppType::Class(ct) => "class not found: "@ + ct.name.name@,
        CppType::Enum { name } => "enum not found: "@ + name.name@,
        _ => Seq::empty(),
    }
}

/// The result of a check against `first_unresolved`-style specs: `Ok` when
/// no leaf is unresolved, and otherwise the diagnostic for the first one.
pub open spec fn check_result_matches(outcome: Option<CppType>, r: Result<(), String>) -> bool {
    match outcome {
        Option::None => r is Ok,
        Option::Some(leaf) => r matches Err(m) && m@ == unresolved_message(leaf),
    }
}

/// When the first `i` expressions of `ts` have no unresolved leaf, the
/// result over the whole list is the result over the remaining suffix.
proof fn lemma_list_skip_resolved_prefix(reg: Seq<DatabaseItem>, ts: Seq<CppType>, i: int)
    requires
        0 <= i <= ts.len(),
        first_unresolved_in_list(reg, ts.take(i)) is None,
    ensures
        first_unresolved_in_list(reg, ts) == first_unresolved_in_list(reg, ts.skip(i)),
    decreases i,
{
    if i == 0 {
        assert(ts.skip(0) =~= ts);
    } else {
        assert(ts.take(i)[0] == ts[0]);
        assert(first_unresolved(reg, ts[0]) is None);
        assert(ts.take(i).drop_first() =~= ts.drop_first().take(i - 1));
        assert(ts.skip(i) =~= ts.drop_first().skip(i - 1));
        lemma_list_skip_resolved_prefix(reg, ts.drop_first(), i - 1);
    }
}



/// All class and enum references of a type expression, in pre-order: a
/// class node comes before the references inside its template arguments,
/// and a function pointer's return type comes before its argument types.
pub open spec fn type_leaves(t: CppType) -> Seq<CppType>
    decreases t,
{
    match t {
        CppType::Void => Seq::empty(),
        CppType::BuiltInNumeric { .. } => Seq::empty(),
        CppType::Class(ct) => seq![t] + (match ct.template_arguments {
            Option::Some(args) => list_leaves(args@),
            Option::None => Seq::empty(),
        }),
        CppType::Enum { .. } => seq![t],
        CppType::PointerLike { target, .. } => type_leaves(*target),
        CppType::FunctionPointer(f) => type_leaves(*f.return_type) + list_leaves(f.arguments@),
    }
}

/// Pre-order class and enum references of a list of type expressions.
pub open spec fn list_leaves(ts: Seq<CppType>) -> Seq<CppType>
    decreases ts,
{
    if ts.len() == 0 {
        Seq::empty()
    } else {
        type_leaves(ts[0]) + list_leaves(ts.drop_first())
    }
}

/// `outcome` names the first leaf of `ls` without a matching registry
/// entry, or is `None` when every leaf of `ls` has one.
pub open spec fn names_first_unresolvable_leaf(
    reg: Seq<DatabaseItem>,
    ls: Seq<CppType>,
    outcome: Option<CppType>,
) -> bool {
    match outcome {
        Option::None => forall|k: int| 0 <= k < ls.len() ==> leaf_resolvable(reg, #[trigger] ls[k]),
        Option::Some(leaf) => exists|k: int|
            {
                &&& 0 <= k < ls.len()
                &&& ls[k] == leaf
                &&& !leaf_resolvable(reg, leaf)
                &&& forall|j: int| 0 <= j < k ==> leaf_resolvable(reg, #[trigger] ls[j])
            },
    }
}

proof fn lemma_names_first_concat(
    reg: Seq<DatabaseItem>,
    ls1: Seq<CppType>,
    ls2: Seq<CppType>,
    o1: Option<CppType>,
    o2: Option<CppType>,
)
    requires
        names_first_unresolvable_leaf(reg, ls1, o1),
        names_first_unresolvable_leaf(reg, ls2, o2),
    ensures
        names_first_unresolvable_leaf(
            reg,
            ls1 + ls2,
            match o1 {
                Option::Some(leaf) => Some(leaf),
                Option::None => o2,
            },
        ),
{
    let ls = ls1 + ls2;
    match o1 {
        Option::Some(leaf) => {
            let k = choose|k: int|
                0 <= k < ls1.len() && ls1[k] == leaf && !leaf_resolvable(reg, leaf) && (forall|
                    j: int,
                | 0 <= j < k ==> leaf_resolvable(reg, #[trigger] ls1[j]));
            assert(ls[k] == leaf);
            assert(forall|j: int| 0 <= j < k ==> leaf_resolvable(reg, #[trigger] ls[j]));
        },
        Option::None => {
            match o2 {
                Option::Some(leaf) => {
                    let k = choose|k: int|
                        0 <= k < ls2.len() && ls2[k] == leaf && !leaf_resolvable(reg, leaf) && (
                        forall|j: int| 0 <= j < k ==> leaf_resolvable(reg, #[trigger] ls2[j]));
                    let kk = ls1.len() + k;
                    assert(ls[kk] == leaf);
                    assert(forall|j: int|
                        0 <= j < kk ==> leaf_resolvable(reg, #[trigger] ls[j])) by {
                        assert forall|j: int| 0 <= j < kk implies leaf_resolvable(
                            reg,
                            #[trigger] ls[j],
                        ) by {
                            if j < ls1.len() {
                                assert(ls[j] == ls1[j]);
                            } else {
                                assert(ls[j] == ls2[j - ls1.len()]);
                            }
                        }
                    }
                },
                Option::None => {
                    assert forall|k: int| 0 <= k < ls.len() implies leaf_resolvable(
                        reg,
                        #[trigger] ls[k],
                    ) by {
                        if k < ls1.len() {
                            assert(ls[k] == ls1[k]);
                        } else {
                            assert(ls[k] == ls2[k - ls1.len()]);
                        }
                    }
                },
            }
        },
    }
}

/// The checker succeeds exactly when every class and enum reference of the
/// expression has a matching registry entry, and otherwise reports the
/// first reference without one, in pre-order.
pub proof fn lemma_first_unresolved_names_first_leaf(reg: Seq<DatabaseItem>, t: CppType)
    ensures
        names_first_unresolvable_leaf(reg, type_leaves(t), first_unresolved(reg, t)),
    decreases t,
{
    match t {
        CppType::Void => {},
        CppType::BuiltInNumeric { .. } => {},
        CppType::Class(ct) => {
            let rest = match ct.template_arguments {
                Option::Some(args) => list_leaves(args@),
                Option::None => Seq::<CppType>::empty(),
            };
            if !registry_has_class(reg, ct.name.name@) {
                assert(type_leaves(t)[0] == t);
            } else {
                match ct.template_arguments {
                    Option::Some(args) => {
                        lemma_list_leaves(reg, args@);
                        lemma_names_first_concat(
                            reg,
                            seq![t],
                            rest,
                            None,
                            first_unresolved_in_list(reg, args@),
                        );
                    },
                    Option::None => {
                        assert(type_leaves(t) =~= seq![t]);
                    },
                }
            }
        },
        CppType::Enum { name } => {},
        CppType::PointerLike { target, .. } => {
            lemma_first_unresolved_names_first_leaf(reg, *target);
        },
        CppType::FunctionPointer(f) => {
            lemma_first_unresolved_names_first_leaf(reg, *f.return_type);
            lemma_list_leaves(reg, f.arguments@);
            lemma_names_first_concat(
                reg,
                type_leaves(*f.return_type),
                list_leaves(f.arguments@),
                first_unresolved(reg, *f.return_type),
                first_unresolved_in_list(reg, f.arguments@),
            );
        },
    }
}

proof fn lemma_list_leaves(reg: Seq<DatabaseItem>, ts: Seq<CppType>)
    ensures
        names_first_unresolvable_leaf(reg, list_leaves(ts), first_unresolved_in_list(reg, ts)),
    decreases ts,
{
    if ts.len() == 0 {
    } else {
        lemma_first_unresolved_names_first_leaf(reg, ts[0]);
        lemma_list_leaves(reg, ts.drop_first());
        lemma_names_first_concat(
            reg,
            type_leaves(ts[0]),
            list_leaves(ts.drop_first()),
            first_unresolved(reg, ts[0]),
            first_unresolved_in_list(reg, ts.drop_first()),
        );
    }
}

/// An item's resolvability check names the first unresolvable class or
/// enum reference among all the types the item involves, in order.
pub proof fn lemma_item_check_names_first_leaf(reg: Seq<DatabaseItem>, item: CppItemData)
    ensures
        names_first_unresolvable_leaf(
            reg,
            list_leaves(all_involved_types(item)),
            item_first_unresolved(reg, item),
        ),
{
    lemma_list_leaves(reg, all_involved_types(item));
}

/// The outcome of a check depends only on which class and enum names the
/// registry declares, not on other entries, their multiplicity or their
/// order.
pub proof fn lemma_check_depends_only_on_declared_names(
    reg1: Seq<DatabaseItem>,
    reg2: Seq<DatabaseItem>,
    t: CppType,
)
    requires
        forall|name: Seq<char>|
            #[trigger] registry_has_class(reg1, name) == registry_has_class(reg2, name),
        forall|name: Seq<char>|
            #[trigger] registry_has_enum(reg1, name) == registry_has_enum(reg2, name),
    ensures
        first_unresolved(reg1, t) == first_unresolved(reg2, t),
    decreases t,
{
    match t {
        CppType::Class(ct) => {
            match ct.template_arguments {
                Option::Some(args) => {
                    lemma_list_check_depends_only_on_declared_names(reg1, reg2, args@);
                },
                Option::None => {},
            }
        },
        CppType::PointerLike { target, .. } => {
            lemma_check_depends_only_on_declared_names(reg1, reg2, *target);
        },
        CppType::FunctionPointer(f) => {
            lemma_check_depends_only_on_declared_names(reg1, reg2, *f.return_type);
            lemma_list_check_depends_only_on_declared_names(reg1, reg2, f.arguments@);
        },
        _ => {},
    }
}

proof fn lemma_list_check_depends_only_on_declared_names(
    reg1: Seq<DatabaseItem>,
    reg2: Seq<DatabaseItem>,
    ts: Seq<CppType>,
)
    requires
        forall|name: Seq<char>|
            #[trigger] registry_has_class(reg1, name) == registry_has_class(reg2, name),
        forall|name: Seq<char>|
            #[trigger] registry_has_enum(reg1, name) == registry_has_enum(reg2, name),
    ensures
        first_unresolved_in_list(reg1, ts) == first_unresolved_in_list(reg2, ts),
    decreases ts,
{
    if ts.len() == 0 {
    } else {
        lemma_check_depends_only_on_declared_names(reg1, reg2, ts[0]);
        lemma_list_check_depends_only_on_declared_names(reg1, reg2, ts.drop_first());
    }
}

/// An item's outcome depends only on the declared class and enum names.
pub proof fn lemma_item_check_depends_only_on_declared_names(
    reg1: Seq<DatabaseItem>,
    reg2: Seq<DatabaseItem>,
    item: CppItemData,
)
    requires
        forall|name: Seq<char>|
            #[trigger] registry_has_class(reg1, name) == registry_has_class(reg2, name),
        forall|name: Seq<char>|
            #[trigger] registry_has_enum(reg1, name) == registry_has_enum(reg2, name),
    ensures
        item_first_unresolved(reg1, item) == item_first_unresolved(reg2, item),
{
    lemma_list_check_depends_only_on_declared_names(reg1, reg2, all_involved_types(item));
}

/// Growing the registry never makes a resolvable expression unresolvable.
pub proof fn lemma_resolvable_monotone(
    reg1: Seq<DatabaseItem>,
    reg2: Seq<DatabaseItem>,
    t: CppType,
)
    requires
        forall|name: Seq<char>|
            #[trigger] registry_has_class(reg1, name) ==> registry_has_class(reg2, name),
        forall|name: Seq<char>|
            #[trigger] registry_has_enum(reg1, name) ==> registry_has_enum(reg2, name),
        first_unresolved(reg1, t) is None,
    ensures
        first_unresolved(reg2, t) is None,
    decreases t,
{
    match t {
        CppType::Class(ct) => {
            match ct.template_arguments {
                Option::Some(args) => {
                    lemma_list_resolvable_monotone(reg1, reg2, args@);
                },
                Option::None => {},
            }
        },
        CppType::PointerLike { target, .. } => {
            lemma_resolvable_monotone(reg1, reg2, *target);
        },
        CppType::FunctionPointer(f) => {
            lemma_resolvable_monotone(reg1, reg2, *f.return_type);
            lemma_list_resolvable_monotone(reg1, reg2, f.arguments@);
        },
        _ => {},
    }
}

proof fn lemma_list_resolvable_monotone(
    reg1: Seq<DatabaseItem>,
    reg2: Seq<DatabaseItem>,
    ts: Seq<CppType>,
)
    requires
        forall|name: Seq<char>|
            #[trigger] registry_has_class(reg1, name) ==> registry_has_class(reg2, name),
        forall|name: Seq<char>|
            #[trigger] registry_has_enum(reg1, name) ==> registry_has_enum(reg2, name),
        first_unresolved_in_list(reg1, ts) is None,
    ensures
        first_unresolved_in_list(reg2, ts) is None,
    decreases ts,
{
    if ts.len() == 0 {
    } else {
        lemma_resolvable_monotone(reg1, reg2, ts[0]);
        lemma_list_resolvable_monotone(reg1, reg2, ts.drop_first());
    }
}

/// A resolvable item stays resolvable when the registry grows.
pub proof fn lemma_item_resolvable_monotone(
    reg1: Seq<DatabaseItem>,
    reg2: Seq<DatabaseItem>,
    item: CppItemData,
)
    requires
        forall|name: Seq<char>|
            #[trigger] registry_has_class(reg1, name) ==> registry_has_class(reg2, name),
        forall|name: Seq<char>|
            #[trigger] registry_has_enum(reg1, name) ==> registry_has_enum(reg2, name),
        item_first_unresolved(reg1, item) is None,
    ensures
        item_first_unresolved(reg2, item) is None,
{
    lemma_list_resolvable_monotone(reg1, reg2, all_involved_types(item));
}

/// Appending entries that declare no type at all (functions, say) never
/// changes the outcome of a check: only the declared class and enum names
/// matter.
pub proof fn lemma_appending_non_type_entries_preserves_outcome(
    reg: Seq<DatabaseItem>,
    more: Seq<DatabaseItem>,
    item: CppItemData,
)
    requires
        forall|i: int| 0 <= i < more.len() ==> !((#[trigger] more[i].cpp_data) is Type),
    ensures
        item_first_unresolved(reg + more, item) == item_first_unresolved(reg, item),
{
    assert forall|name: Seq<char>|
        #[trigger] registry_has_class(reg + more, name) == registry_has_class(reg, name) by {
        if registry_has_class(reg + more, name) {
            let i = choose|i: int| 0 <= i < (reg + more).len() && declares_class((reg + more)[i], name);
            if i < reg.len() {
                assert((reg + more)[i] == reg[i]);
            } else {
                assert((reg + more)[i] == more[i - reg.len()]);
                assert(!(more[i - reg.len()].cpp_data is Type));
                assert(false);
            }
        }
        if registry_has_class(reg, name) {
            let i = choose|i: int| 0 <= i < reg.len() && declares_class(reg[i], name);
            assert((reg + more)[i] == reg[i]);
            assert(declares_class((reg + more)[i], name));
        }
    }
    assert forall|name: Seq<char>|
        #[trigger] registry_has_enum(reg + more, name) == registry_has_enum(reg, name) by {
        if registry_has_enum(reg + more, name) {
            let i = choose|i: int| 0 <= i < (reg + more).len() && declares_enum((reg + more)[i], name);
            if i < reg.len() {
                assert((reg + more)[i] == reg[i]);
            } else {
                assert((reg + more)[i] == more[i - reg.len()]);
                assert(!(more[i - reg.len()].cpp_data is Type));
                assert(false);
            }
        }
        if registry_has_enum(reg, name) {
            let i = choose|i: int| 0 <= i < reg.len() && declares_enum(reg[i], name);
            assert((reg + more)[i] == reg[i]);
            assert(declares_enum((reg + more)[i], name));
        }
    }
    lemma_item_check_depends_only_on_declared_names(reg + more, reg, item);
}

/// Entries appended to the registry only add declared names.
pub proof fn lemma_registry_append_keeps_names(reg: Seq<DatabaseItem>, more: Seq<DatabaseItem>)
    ensures
        forall|name: Seq<char>|
            #[trigger] registry_has_class(reg, name) ==> registry_has_class(reg + more, name),
        forall|name: Seq<char>|
            #[trigger] registry_has_enum(reg, name) ==> registry_has_enum(reg + more, name),
{
    assert forall|name: Seq<char>| #[trigger] registry_has_class(reg, name) implies
        registry_has_class(reg + more, name) by {
        let i = choose|i: int| 0 <= i < reg.len() && declares_class(reg[i], name);
        assert((reg + more)[i] == reg[i]);
    }
    assert forall|name: Seq<char>| #[trigger] registry_has_enum(reg, name) implies
        registry_has_enum(reg + more, name) by {
        let i = choose|i: int| 0 <= i < reg.len() && declares_enum(reg[i], name);
        assert((reg + more)[i] == reg[i]);
    }
}

proof fn lemma_list_singleton(reg: Seq<DatabaseItem>, t: CppType)
    ensures
        first_unresolved_in_list(reg, seq![t]) == first_unresolved(reg, t),
{
    assert(seq![t].drop_first() =~= Seq::<CppType>::empty());
    assert(first_unresolved_in_list(reg, Seq::<CppType>::empty()) is None);
}

/// A resolved prefix extends by one more resolved expression.
proof fn lemma_list_extend_resolved(reg: Seq<DatabaseItem>, ts: Seq<CppType>, i: int)
    requires
        0 <= i < ts.len(),
        first_unresolved_in_list(reg, ts.take(i)) is None,
        first_unresolved(reg, ts[i]) is None,
    ensures
        first_unresolved_in_list(reg, ts.take(i + 1)) is None,
{
    assert(ts.take(i + 1).take(i) =~= ts.take(i));
    lemma_list_skip_resolved_prefix(reg, ts.take(i + 1), i);
    assert(ts.take(i + 1).skip(i) =~= seq![ts[i]]);
    lemma_list_singleton(reg, ts[i]);
}

/// After a resolved prefix, the first failing expression decides the list.
proof fn lemma_list_fail_at(reg: Seq<DatabaseItem>, ts: Seq<CppType>, i: int)
    requires
        0 <= i < ts.len(),
        first_unresolved_in_list(reg, ts.take(i)) is None,
        first_unresolved(reg, ts[i]) is Some,
    ensures
        first_unresolved_in_list(reg, ts) == first_unresolved(reg, ts[i]),
{
    lemma_list_skip_resolved_prefix(reg, ts, i);
    assert(ts.skip(i)[0] == ts[i]);
    assert(ts.skip(i).len() > 0);
}

#[verifier::loop_isolation(false)]
fn registry_contains_class(all_items: &Vec<DatabaseItem>, name: &CppName) -> (r: bool)
    ensures
        r == registry_has_class(all_items@, name.name@),
{
    let mut i: usize = 0;
    while i < all_items.len()
        invariant
            0 <= i <= all_items.len(),
            forall|j: int| 0 <= j < i ==> !declares_class(all_items@[j], name.name@),
        decreases all_items.len() - i,
    {
        match &all_items[i].cpp_data {
            CppItemData::Type(t) => {
                if t.kind.is_class() && t.name.name == name.name {
                    assert(declares_class(all_items@[i as int], name.name@));
                    return true;
                }
            },
            _ => {},
        }
        i = i + 1;
    }
    false
}

#[verifier::loop_isolation(false)]
fn registry_contains_enum(all_items: &Vec<DatabaseItem>, name: &CppName) -> (r: bool)
    ensures
        r == registry_has_enum(all_items@, name.name@),
{
    let mut i: usize = 0;
    while i < all_items.len()
        invariant
            0 <= i <= all_items.len(),
            forall|j: int| 0 <= j < i ==> !declares_enum(all_items@[j], name.name@),
        decreases all_items.len() - i,
    {
        match &all_items[i].cpp_data {
            CppItemData::Type(t) => {
                if t.kind.is_enum() && t.name.name == name.name {
                    assert(declares_enum(all_items@[i as int], name.name@));
                    return true;
                }
            },
            _ => {},
        }
        i = i + 1;
    }
    false
}

fn class_not_found_error(name: &CppName) -> (r: String)
    ensures
        r@ == "class not found: "@ + name.name@,
{
    let mut m = String::from_str("class not found: ");
    m.append(name.name.as_str());
    m
}

fn enum_not_found_error(name: &CppName) -> (r: String)
    ensures
        r@ == "enum not found: "@ + name.name@,
{
    let mut m = String::from_str("enum not found: ");
    m.append(name.name.as_str());
    m
}

/// Checks a class type: the class itself must be registered, and then every
/// template argument must check in order.
#[verifier::loop_isolation(false)]
fn check_class_type(all_items: &Vec<DatabaseItem>, ct: &CppClassType) -> (r: Result<(), String>)
    ensures
        check_result_matches(first_unresolved(all_items@, CppType::Class(*ct)), r),
    decreases *ct,
{
    if !registry_contains_class(all_items, &ct.name) {
        return Err(class_not_found_error(&ct.name));
    }
    match &ct.template_arguments {
        Option::Some(args) => {
            let mut i: usize = 0;
            while i < args.len()
                invariant
                    0 <= i <= args.len(),
                    first_unresolved_in_list(all_items@, args@.take(i as int)) is None,
                decreases args.len() - i,
            {
                proof {
                    assert(decreases_to!(*ct => args@[i as int]));
                }
                let res = check_type(all_items, &args[i]);
                match res {
                    Result::Ok(_) => {
                        proof {
                            lemma_list_extend_resolved(all_items@, args@, i as int);
                        }
                    },
                    Result::Err(m) => {
                        proof {
                            lemma_list_fail_at(all_items@, args@, i as int);
                        }
                        return Err(m);
                    },
                }
                i = i + 1;
            }
            proof {
                assert(args@.take(args@.len() as int) =~= args@);
            }
            Ok(())
        },
        Option::None => Ok(()),
    }
}

/// Checks that every class or enum leaf of a type expression has a matching
/// registry entry, failing with the diagnostic for the first missing leaf
/// in pre-order.
#[verifier::loop_isolation(false)]
pub fn check_type(all_items: &Vec<DatabaseItem>, cpp_type: &CppType) -> (r: Result<(), String>)
    ensures
        check_result_matches(first_unresolved(all_items@, *cpp_type), r),
    decreases *cpp_type,
{
    match cpp_type {
        CppType::Void => Ok(()),
        CppType::BuiltInNumeric { .. } => Ok(()),
        CppType::Class(ct) => check_class_type(all_items, ct),
        CppType::Enum { name } => {
            if !registry_contains_enum(all_items, name) {
                Err(enum_not_found_error(name))
            } else {
                Ok(())
            }
        },
        CppType::PointerLike { target, .. } => check_type(all_items, target),
        CppType::FunctionPointer(f) => {
            let res = check_type(all_items, &f.return_type);
            if let Result::Err(m) = res {
                return Err(m);
            }
            let mut i: usize = 0;
            while i < f.arguments.len()
                invariant
                    0 <= i <= f.arguments.len(),
                    first_unresolved_in_list(all_items@, f.arguments@.take(i as int)) is None,
                decreases f.arguments.len() - i,
            {
                proof {
                    assert(decreases_to!(*cpp_type => f.arguments@[i as int]));
                }
                let res = check_type(all_items, &f.arguments[i]);
                match res {
                    Result::Ok(_) => {
                        proof {
                            lemma_list_extend_resolved(all_items@, f.arguments@, i as int);
                        }
                    },
                    Result::Err(m) => {
                        proof {
                            lemma_list_fail_at(all_items@, f.arguments@, i as int);
                        }
                        return Err(m);
                    },
                }
                i = i + 1;
            }
            proof {
                assert(f.arguments@.take(f.arguments@.len() as int) =~= f.arguments@);
            }
            Ok(())
        },
    }
}

/// Checks every type an item involves, in declaration order, propagating
/// the first failure's diagnostic unchanged.
#[verifier::loop_isolation(false)]
pub fn is_cpp_item_resolvable(all_items: &Vec<DatabaseItem>, item: &CppItemData) -> (r: Result<
    (),
    String,
>)
    ensures
        check_result_matches(item_first_unresolved(all_items@, *item), r),
{
    match item {
        CppItemData::Type(t) => {
            match &t.kind {
                CppTypeDataKind::Class { type_base } => {
                    let r = check_class_type(all_items, type_base);
                    proof {
                        lemma_list_singleton(all_items@, CppType::Class(*type_base));
                        assert(all_involved_types(*item) == seq![CppType::Class(*type_base)]);
                    }
                    r
                },
                CppTypeDataKind::Enum => {
                    proof {
                        lemma_list_singleton(all_items@, CppType::Enum { name: t.name });
                        assert(all_involved_types(*item) == seq![CppType::Enum { name: t.name }]);
                    }
                    if !registry_contains_enum(all_items, &t.name) {
                        Err(enum_not_found_error(&t.name))
                    } else {
                        Ok(())
                    }
                },
            }
        },
        CppItemData::Function(f) => {
            let ghost ts = all_involved_types(*item);
            proof {
                assert(ts[0] == f.return_type);
            }
            let res = check_type(all_items, &f.return_type);
            if let Result::Err(m) = res {
                proof {
                    assert(ts.take(0) =~= Seq::<CppType>::empty());
                    lemma_list_fail_at(all_items@, ts, 0);
                }
                return Err(m);
            }
            proof {
                assert(ts.take(0) =~= Seq::<CppType>::empty());
                lemma_list_extend_resolved(all_items@, ts, 0);
            }
            let mut i: usize = 0;
            while i < f.arguments.len()
                invariant
                    0 <= i <= f.arguments.len(),
                    ts == all_involved_types(*item),
                    *item matches CppItemData::Function(ff) && ff == *f,
                    first_unresolved_in_list(all_items@, ts.take(i + 1)) is None,
                decreases f.arguments.len() - i,
        {
                let res = check_type(all_items, &f.arguments[i].argument_type);
                proof {
                    assert(ts[i + 1] == f.arguments@.map_values(
                        |a: crate::cpp_function::CppFunctionArgument| a.argument_type,
                    )[i as int]);
                    assert(ts[i + 1] == f.arguments@[i as int].argument_type);
                }
                match res {
                    Result::Ok(_) => {
                        proof {
                            lemma_list_extend_resolved(all_items@, ts, i + 1);
                        }
                    },
                    Result::Err(m) => {
                        proof {
                            lemma_list_fail_at(all_items@, ts, i + 1);
                        }
                        return Err(m);
                    },
                }
                i = i + 1;
            }
            proof {
                assert(ts.take(ts.len() as int) =~= ts);
                assert(ts.len() == 1 + f.arguments@.len());
            }
            Ok(())
        },
    }
}

/// A database item still waits for a Rust binding.
pub open spec fn pending(item: DatabaseItem) -> bool {
    item.rust_item is None
}

/// The skip diagnostic logged for an unresolvable pending item.
pub open spec fn skip_message(item: CppItemData, leaf: CppType) -> Seq<char> {
    "skipping item: "@ + item_short_text(item) + ": "@ + unresolved_message(leaf)
}

/// Indices of the pending items among the first `n` that are resolvable
/// against the registry, in order.
pub open spec fn resolvable_indices(reg: Seq<DatabaseItem>, n: int) -> Seq<int>
    decreases n,
{
    if n <= 0 {
        Seq::empty()
    } else {
        let prefix = resolvable_indices(reg, n - 1);
        if pending(reg[n - 1]) && item_first_unresolved(reg, reg[n - 1].cpp_data) is None {
            prefix.push(n - 1)
        } else {
            prefix
        }
    }
}

/// Skip diagnostics for the pending, unresolvable items among the first
/// `n`, in order.
pub open spec fn skip_diagnostics(reg: Seq<DatabaseItem>, n: int) -> Seq<Seq<char>>
    decreases n,
{
    if n <= 0 {
        Seq::empty()
    } else {
        let prefix = skip_diagnostics(reg, n - 1);
        match item_first_unresolved(reg, reg[n - 1].cpp_data) {
            Option::Some(leaf) => if pending(reg[n - 1]) {
                prefix.push(skip_message(reg[n - 1].cpp_data, leaf))
            } else {
                prefix
            },
            Option::None => prefix,
        }
    }
}

/// The pass is a complete, best-effort fold: an index is handed off
/// exactly when its item still lacks a binding and checks as resolvable,
/// so no failure stops the items after it from being considered.
pub proof fn lemma_pass_covers_every_pending_item(reg: Seq<DatabaseItem>, n: int, j: int)
    requires
        0 <= n <= reg.len(),
    ensures
        resolvable_indices(reg, n).contains(j) <==> (0 <= j < n && pending(reg[j])
            && item_first_unresolved(reg, reg[j].cpp_data) is None),
    decreases n,
{
    if n > 0 {
        lemma_pass_covers_every_pending_item(reg, n - 1, j);
        let prefix = resolvable_indices(reg, n - 1);
        let whole = resolvable_indices(reg, n);
        if whole.contains(j) {
            let k = choose|k: int| 0 <= k < whole.len() && whole[k] == j;
            if k < prefix.len() {
                assert(prefix[k] == j);
                assert(prefix.contains(j));
            }
        }
        if 0 <= j < n && pending(reg[j]) && item_first_unresolved(reg, reg[j].cpp_data) is None {
            if j < n - 1 {
                let k = choose|k: int| 0 <= k < prefix.len() && prefix[k] == j;
                assert(whole[k] == j);
            } else {
                assert(whole.last() == j);
            }
        }
    }
}

/// Outcome of one batch resolution pass: the indices of pending items found
/// resolvable (to be handed to the binding synthesis collaborator) and one
/// skip diagnostic per pending item that was not.
pub struct ResolutionPassOutcome {
    pub resolvable: Vec<usize>,
    pub diagnostics: Vec<String>,
}

fn skip_diagnostic_text(item: &CppItemData, reason: String) -> (r: String)
    ensures
        r@ == "skipping item: "@ + item_short_text(*item) + ": "@ + reason@,
{
    let mut m = String::from_str("skipping item: ");
    let text = item.short_text();
    m.append(text.as_str());
    m.append(": ");
    m.append(reason.as_str());
    m
}

/// Runs one batch resolution pass over the declaration database.
///
/// Every item that already has a Rust binding is left alone. Every other
/// item is checked against the registry formed by all items; resolvable
/// items are reported for hand-off and each unresolvable item yields one
/// non-fatal skip diagnostic, so a single failure never aborts the pass.
#[verifier::loop_isolation(false)]
pub fn run(all_items: &Vec<DatabaseItem>) -> (r: ResolutionPassOutcome)
    ensures
        r.resolvable@.map_values(|u: usize| u as int) == resolvable_indices(
            all_items@,
            all_items@.len() as int,
        ),
        r.diagnostics.deep_view() == skip_diagnostics(all_items@, all_items@.len() as int),
{
    let mut resolvable: Vec<usize> = Vec::new();
    let mut diagnostics: Vec<String> = Vec::new();
    let mut i: usize = 0;
    while i < all_items.len()
        invariant
            0 <= i <= all_items.len(),
            resolvable@.map_values(|u: usize| u as int) == resolvable_indices(
                all_items@,
                i as int,
            ),
            diagnostics.deep_view() == skip_diagnostics(all_items@, i as int),
        decreases all_items.len() - i,
    {
        let item = &all_items[i];
        if item.rust_item.is_none() {
            match is_cpp_item_resolvable(all_items, &item.cpp_data) {
                Result::Ok(_) => {
                    resolvable.push(i);
                    proof {
                        assert(resolvable@.map_values(|u: usize| u as int) =~= resolvable_indices(
                            all_items@,
                            i + 1,
                        ));
                    }
                },
                Result::Err(reason) => {
                    let diag = skip_diagnostic_text(&item.cpp_data, reason);
                    diagnostics.push(diag);
                    proof {
                        assert(diagnostics.deep_view() =~= skip_diagnostics(all_items@, i + 1));
                    }
                },
            }
        }
        i = i + 1;
    }
    ResolutionPassOutcome { resolvable, diagnostics }
}

/// The processing step that runs the resolver pass, with no dependencies on
/// other steps.
pub fn rust_name_resolver_step() -> (r: ProcessingStep)
    ensures
        r.name@ == "rust_name_resolver"@,
        r.dependencies.deep_view() == Seq::<Seq<char>>::empty(),
{
    ProcessingStep::new("rust_name_resolver", Vec::new())
}

} // verus!
