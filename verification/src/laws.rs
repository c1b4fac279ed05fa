//! The generator's stated laws, each proved from the contracts of the
//! pipeline's own functions: how names and argument counts decide a
//! member's role and block, how renaming behaves, when failure is
//! propagated, and what the visibility filter excludes.
use crate::assemble::{
    field_reg_matches, fielded_of, method_reg_matches, plains_of, strip_prefix4,
};
use crate::rename::rename_spec;
use crate::bridge::{bridge_matches, BridgeOutputView};
use crate::classify::{
    is_get_name, is_set_name, spec_classify, spec_consts, spec_exported, spec_value_arg_count,
    ExportedFnView,
};
use crate::config::{Config, RenameRule};
use crate::model::{FnDeclView, ImplBlockView, MemberView, TyShapeView};
use vstd::prelude::*;

verus! {

/// A function named with the getter prefix that supplies no script-supplied
/// argument is classified as a field getter whenever field inference is on.
pub proof fn lemma_get_prefix_classifies_getter(f: FnDeclView)
    requires
        is_get_name(f.name),
        spec_value_arg_count(f.inputs) == 0,
    ensures
        spec_classify(f, false).role is Getter,
{
}

/// A function named with the setter prefix that supplies exactly one
/// script-supplied argument is classified as a field setter whenever field
/// inference is on.
pub proof fn lemma_set_prefix_classifies_setter(f: FnDeclView)
    requires
        is_set_name(f.name),
        spec_value_arg_count(f.inputs) == 1,
    ensures
        spec_classify(f, false).role is Setter,
{
}

/// A function whose name carries a field prefix but whose script-supplied
/// argument count violates the role is demoted to a plain callable — never
/// a field, never an error — under every configuration.
pub proof fn lemma_prefix_mismatch_demotes(f: FnDeclView, no_auto_fields: bool)
    requires
        (is_get_name(f.name) && spec_value_arg_count(f.inputs) != 0) || (is_set_name(f.name)
            && spec_value_arg_count(f.inputs) != 1),
    ensures
        spec_classify(f, no_auto_fields).role is Plain,
{
}

/// The callables block takes exactly the plain classified functions and the
/// fields block exactly the rest: each classified function lands in the one
/// block its role selects, and in no other.
pub proof fn lemma_role_decides_block(e: Seq<ExportedFnView>)
    ensures
        forall|i: int| 0 <= i < plains_of(e).len() ==> (#[trigger] plains_of(e)[i]).role is Plain,
        forall|i: int|
            0 <= i < fielded_of(e).len() ==> !((#[trigger] fielded_of(e)[i]).role is Plain),
        forall|i: int|
            #![trigger e[i]]
            0 <= i < e.len() ==> if e[i].role is Plain {
                plains_of(e).contains(e[i])
            } else {
                fielded_of(e).contains(e[i])
            },
    decreases e.len(),
{
    if e.len() > 0 {
        lemma_role_decides_block(e.drop_last());
        let p = plains_of(e.drop_last());
        let q = fielded_of(e.drop_last());
        assert forall|i: int| 0 <= i < plains_of(e).len() implies (#[trigger] plains_of(
            e,
        )[i]).role is Plain by {
            if i < p.len() {
                assert(plains_of(e)[i] == p[i]);
            }
        }
        assert forall|i: int| 0 <= i < fielded_of(e).len() implies !((#[trigger] fielded_of(
            e,
        )[i]).role is Plain) by {
            if i < q.len() {
                assert(fielded_of(e)[i] == q[i]);
            }
        }
        assert forall|i: int| 0 <= i < e.len() implies (if e[i].role is Plain {
            plains_of(e).contains(e[i])
        } else {
            fielded_of(e).contains(e[i])
        }) by {
            if i < e.len() - 1 {
                assert(e[i] == e.drop_last()[i]);
                if e[i].role is Plain {
                    let k = choose|k: int| 0 <= k < p.len() && p[k] == e[i];
                    assert(plains_of(e)[k] == p[k]);
                    assert(plains_of(e).contains(e[i]));
                } else {
                    let k = choose|k: int| 0 <= k < q.len() && q[k] == e[i];
                    assert(fielded_of(e)[k] == q[k]);
                    assert(fielded_of(e).contains(e[i]));
                }
            } else {
                if e[i].role is Plain {
                    assert(plains_of(e)[p.len() as int] == e[i]);
                    assert(plains_of(e).contains(e[i]));
                } else {
                    assert(fielded_of(e)[q.len() as int] == e[i]);
                    assert(fielded_of(e).contains(e[i]));
                }
            }
        }
    }
}

/// The identity rule returns every name unchanged, so applying it twice is
/// the same as applying it once.
pub proof fn lemma_identity_rename_idempotent(s: Seq<char>)
    ensures
        rename_spec(RenameRule::Identity, s) == s,
        rename_spec(RenameRule::Identity, rename_spec(RenameRule::Identity, s)) == rename_spec(
            RenameRule::Identity,
            s,
        ),
{
}

/// Constant accessors carry the constant's own declared name whatever
/// renaming rules the two configurations set.
pub proof fn lemma_const_names_never_renamed(
    out1: BridgeOutputView,
    out2: BridgeOutputView,
    cfg1: Config,
    cfg2: Config,
    block: ImplBlockView,
)
    requires
        bridge_matches(out1, cfg1, block),
        bridge_matches(out2, cfg2, block),
    ensures
        out1.consts.len() == out2.consts.len(),
        forall|i: int|
            0 <= i < out1.consts.len() ==> (#[trigger] out1.consts[i]).name == out2.consts[i].name
                && out1.consts[i].name == spec_consts(block.members)[i].name,
{
}

/// A callable registration propagates failure exactly when the declared
/// return type's outermost named type is the fallible-result wrapper; a
/// plain or void return never propagates.
pub proof fn lemma_callable_failure_propagation(
    g: FnDeclView,
    no_auto_fields: bool,
    r: crate::assemble::MethodRegView,
    cfg: Config,
)
    requires
        method_reg_matches(r, spec_classify(g, no_auto_fields), cfg),
    ensures
        r.propagate <==> (g.output matches Option::Some(TyShapeView::Path { last, .. }) && last
            == "Result"@),
{
}

/// A field registration propagates failure exactly when the accessor's
/// declared return type is the fallible-result wrapper.
pub proof fn lemma_field_failure_propagation(
    g: FnDeclView,
    no_auto_fields: bool,
    r: crate::assemble::FieldRegView,
    cfg: Config,
)
    requires
        field_reg_matches(r, spec_classify(g, no_auto_fields), cfg),
    ensures
        r.propagate <==> (g.output matches Option::Some(TyShapeView::Path { last, .. }) && last
            == "Result"@),
{
}

/// With the visibility filter on, every classified function is public.
pub proof fn lemma_pub_only_classifies_public(members: Seq<MemberView>, no_auto_fields: bool)
    ensures
        forall|i: int|
            0 <= i < spec_exported(members, true, no_auto_fields).len() ==> (
            #[trigger] spec_exported(members, true, no_auto_fields)[i]).sig.is_pub,
    decreases members.len(),
{
    if members.len() > 0 {
        lemma_pub_only_classifies_public(members.drop_last(), no_auto_fields);
        let e = spec_exported(members, true, no_auto_fields);
        let p = spec_exported(members.drop_last(), true, no_auto_fields);
        assert forall|i: int| 0 <= i < e.len() implies (#[trigger] e[i]).sig.is_pub by {
            if i < p.len() {
                assert(e[i] == p[i]);
            }
        }
    }
}

/// With the visibility filter on, a non-public function is entirely absent
/// from the classified list, and so from both generated blocks; the
/// original block, which the generator never touches, still holds it.
pub proof fn lemma_private_fn_absent(members: Seq<MemberView>, no_auto_fields: bool, f: FnDeclView)
    requires
        !f.is_pub,
    ensures
        forall|i: int|
            0 <= i < spec_exported(members, true, no_auto_fields).len() ==> (
            #[trigger] spec_exported(members, true, no_auto_fields)[i]).sig != f,
{
    lemma_pub_only_classifies_public(members, no_auto_fields);
}

/// A member of the annotated block appears in the classified list whenever
/// it is a function the visibility filter admits.
pub proof fn lemma_member_fn_exported(
    members: Seq<MemberView>,
    pub_only: bool,
    no_auto_fields: bool,
    i: int,
    f: FnDeclView,
)
    requires
        0 <= i < members.len(),
        members[i] == MemberView::Func(f),
        !pub_only || f.is_pub,
    ensures
        spec_exported(members, pub_only, no_auto_fields).contains(
            spec_classify(f, no_auto_fields),
        ),
    decreases members.len(),
{
    let e = spec_exported(members, pub_only, no_auto_fields);
    let p = spec_exported(members.drop_last(), pub_only, no_auto_fields);
    if i == members.len() - 1 {
        assert(members.last() == MemberView::Func(f));
        assert(e[p.len() as int] == spec_classify(f, no_auto_fields));
        assert(e.contains(spec_classify(f, no_auto_fields)));
    } else {
        assert(members.drop_last()[i] == members[i]);
        lemma_member_fn_exported(members.drop_last(), pub_only, no_auto_fields, i, f);
        let k = choose|k: int|
            0 <= k < p.len() && p[k] == spec_classify(f, no_auto_fields);
        assert(e[k] == p[k]);
        assert(e.contains(spec_classify(f, no_auto_fields)));
    }
}

/// End to end: under a configuration with field inference on, a member
/// function the filter admits, named with the getter prefix and supplying
/// no script-supplied argument, yields a getter registration in the fields
/// block — registered under the renamed, prefix-stripped name, invoking the
/// declared identifier.
pub proof fn lemma_getter_lands_in_fields_block(
    out: BridgeOutputView,
    cfg: Config,
    block: ImplBlockView,
    i: int,
    f: FnDeclView,
)
    requires
        bridge_matches(out, cfg, block),
        !cfg.no_auto_fields,
        0 <= i < block.members.len(),
        block.members[i] == MemberView::Func(f),
        !cfg.pub_only || f.is_pub,
        is_get_name(f.name),
        spec_value_arg_count(f.inputs) == 0,
    ensures
        exists|j: int|
            0 <= j < out.fields.len() && !(#[trigger] out.fields[j]).is_set && out.fields[j].target
                == f.name && out.fields[j].public_name == rename_spec(
                cfg.rename_fields,
                strip_prefix4(f.name),
            ),
{
    let e = spec_exported(block.members, cfg.pub_only, cfg.no_auto_fields);
    let c = spec_classify(f, cfg.no_auto_fields);
    lemma_member_fn_exported(block.members, cfg.pub_only, cfg.no_auto_fields, i, f);
    lemma_role_decides_block(e);
    let k = choose|k: int| 0 <= k < e.len() && e[k] == c;
    assert(fielded_of(e).contains(c));
    let j = choose|j: int| 0 <= j < fielded_of(e).len() && fielded_of(e)[j] == c;
    assert(field_reg_matches(out.fields[j], fielded_of(e)[j], cfg));
    assert(!out.fields[j].is_set && out.fields[j].target == f.name && out.fields[j].public_name
        == rename_spec(cfg.rename_fields, strip_prefix4(f.name)));
}

/// End to end: a member function the filter admits, named with the setter
/// prefix and supplying exactly one script-supplied argument, yields a
/// setter registration in the fields block under the renamed,
/// prefix-stripped name.
pub proof fn lemma_setter_lands_in_fields_block(
    out: BridgeOutputView,
    cfg: Config,
    block: ImplBlockView,
    i: int,
    f: FnDeclView,
)
    requires
        bridge_matches(out, cfg, block),
        !cfg.no_auto_fields,
        0 <= i < block.members.len(),
        block.members[i] == MemberView::Func(f),
        !cfg.pub_only || f.is_pub,
        is_set_name(f.name),
        spec_value_arg_count(f.inputs) == 1,
    ensures
        exists|j: int|
            0 <= j < out.fields.len() && (#[trigger] out.fields[j]).is_set && out.fields[j].target
                == f.name && out.fields[j].public_name == rename_spec(
                cfg.rename_fields,
                strip_prefix4(f.name),
            ),
{
    let e = spec_exported(block.members, cfg.pub_only, cfg.no_auto_fields);
    let c = spec_classify(f, cfg.no_auto_fields);
    lemma_member_fn_exported(block.members, cfg.pub_only, cfg.no_auto_fields, i, f);
    lemma_role_decides_block(e);
    let k = choose|k: int| 0 <= k < e.len() && e[k] == c;
    assert(fielded_of(e).contains(c));
    let j = choose|j: int| 0 <= j < fielded_of(e).len() && fielded_of(e)[j] == c;
    assert(field_reg_matches(out.fields[j], fielded_of(e)[j], cfg));
    assert(out.fields[j].is_set && out.fields[j].target == f.name && out.fields[j].public_name
        == rename_spec(cfg.rename_fields, strip_prefix4(f.name)));
}

/// The renamed public name is only script-facing: every callable
/// registration invokes the function by its original declared identifier,
/// whatever the renaming rule.
pub proof fn lemma_rename_is_public_facing_only(
    r: crate::assemble::MethodRegView,
    f: ExportedFnView,
    cfg: Config,
)
    requires
        method_reg_matches(r, f, cfg),
    ensures
        r.target == f.sig.name,
        r.public_name == rename_spec(cfg.rename_funcs, f.sig.name),
{
}

} // verus!
