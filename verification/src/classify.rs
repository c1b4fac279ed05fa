//! The member classifier: walks the declared members of the annotated block
//! and classifies each function by return shape, receiver shape and field
//! role, honouring the visibility filter. Constants are collected alongside;
//! other members are never classified and pass through untouched.
use crate::model::{
    arg_views, member_views, output_view, ConstDecl, ConstDeclView, FnArg, FnArgView, FnDecl,
    FnDeclView, Member, MemberView, TyShapeView,
};
use crate::strutil::str_eq;
use vstd::prelude::*;
use vstd::string::StrSliceExecFns;

verus! {

/// How a bridged function's declared return type is classified: no return
/// type at all, a plain value, or the runtime's fallible-result wrapper.
#[derive(Clone, Copy, PartialEq, Eq, Structural, Debug)]
pub enum RetKind {
    Void,
    Primitive,
    Fallible,
}

/// The receiver shape of a declared function: no receiver, a shared
/// reference, or an exclusive reference.
#[derive(Clone, Copy, PartialEq, Eq, Structural, Debug)]
pub enum TakesSelf {
    No,
    Yes,
    Mut,
}

/// The role a function plays in the generated object: a plain callable, a
/// field getter, or a field setter.
#[derive(Clone, Copy, PartialEq, Eq, Structural, Debug)]
pub enum FieldRole {
    Plain,
    Getter,
    Setter,
}

/// The return shape: none declared is void; a path type whose last segment
/// is the fallible-result wrapper's name is fallible; everything else is a
/// plain value. This is a structural test on the declared type's name.
pub open spec fn spec_ret_kind(output: Option<TyShapeView>) -> RetKind {
    match output {
        Option::None => RetKind::Void,
        Option::Some(t) => match t {
            TyShapeView::Path { last, .. } => if last == "Result"@ {
                RetKind::Fallible
            } else {
                RetKind::Primitive
            },
            _ => RetKind::Primitive,
        },
    }
}

/// Classifies the declared return type.
pub fn ret_kind(output: &Option<crate::model::TyShape>) -> (r: RetKind)
    ensures
        r == spec_ret_kind(output_view(*output)),
{
    match output {
        Option::None => RetKind::Void,
        Option::Some(crate::model::TyShape::Path { last, .. }) => {
            if str_eq(last.as_str(), "Result") {
                RetKind::Fallible
            } else {
                RetKind::Primitive
            }
        },
        Option::Some(_) => RetKind::Primitive,
    }
}

/// The receiver shape, read from the first parameter alone.
pub open spec fn spec_takes_self(inputs: Seq<FnArgView>) -> TakesSelf {
    if inputs.len() == 0 {
        TakesSelf::No
    } else {
        match inputs[0] {
            FnArgView::Receiver { mutable } => if mutable {
                TakesSelf::Mut
            } else {
                TakesSelf::Yes
            },
            FnArgView::Typed(_) => TakesSelf::No,
        }
    }
}

/// Classifies the receiver shape.
pub fn takes_self(inputs: &Vec<FnArg>) -> (r: TakesSelf)
    ensures
        r == spec_takes_self(arg_views(inputs@)),
{
    if inputs.len() == 0 {
        TakesSelf::No
    } else {
        match &inputs[0] {
            FnArg::Receiver { mutable } => {
                if *mutable {
                    TakesSelf::Mut
                } else {
                    TakesSelf::Yes
                }
            },
            FnArg::Typed(_) => TakesSelf::No,
        }
    }
}

/// A script-supplied ("value") argument: a typed parameter whose type is not
/// a reference. Reference-typed parameters are context-sourced instead.
pub open spec fn is_value_arg(a: FnArgView) -> bool {
    match a {
        FnArgView::Typed(p) => !(p.ty is Ref),
        _ => false,
    }
}

/// How many of the declared parameters are script-supplied.
pub open spec fn spec_value_arg_count(inputs: Seq<FnArgView>) -> int
    decreases inputs.len(),
{
    if inputs.len() == 0 {
        0
    } else {
        spec_value_arg_count(inputs.drop_last()) + if is_value_arg(inputs.last()) {
            1int
        } else {
            0int
        }
    }
}

/// Counts the script-supplied parameters.
pub fn value_arg_count(inputs: &Vec<FnArg>) -> (r: usize)
    ensures
        r as int == spec_value_arg_count(arg_views(inputs@)),
{
    let ghost all = arg_views(inputs@);
    let mut r: usize = 0;
    let mut i: usize = 0;
    proof {
        assert(all.subrange(0, 0) =~= Seq::<FnArgView>::empty());
    }
    while i < inputs.len()
        invariant
            0 <= i <= inputs.len(),
            all == arg_views(inputs@),
            all.len() == inputs.len(),
            r <= i,
            r as int == spec_value_arg_count(all.subrange(0, i as int)),
        decreases inputs.len() - i,
    {
        let is_value = match &inputs[i] {
            FnArg::Typed(p) => !matches!(p.ty, crate::model::TyShape::Ref { .. }),
            _ => false,
        };
        proof {
            let pre = all.subrange(0, i as int + 1);
            assert(pre.drop_last() =~= all.subrange(0, i as int));
            assert(pre.last() == inputs@[i as int]@);
            assert(is_value == is_value_arg(all[i as int]));
        }
        if is_value {
            r += 1;
        }
        i += 1;
    }
    proof {
        assert(all.subrange(0, inputs@.len() as int) =~= all);
    }
    r
}

/// The name begins with the field getter prefix and goes on past it.
pub open spec fn is_get_name(s: Seq<char>) -> bool {
    s.len() > 4 && s[0] == 'g' && s[1] == 'e' && s[2] == 't' && s[3] == '_'
}

/// The name begins with the field setter prefix and goes on past it.
pub open spec fn is_set_name(s: Seq<char>) -> bool {
    s.len() > 4 && s[0] == 's' && s[1] == 'e' && s[2] == 't' && s[3] == '_'
}

/// The field role of a function, decided by its name and its count of
/// script-supplied arguments: a getter takes none, a setter exactly one.
/// A name that matches a prefix but violates the count is demoted to a
/// plain callable, never rejected. Suppressing field inference makes every
/// function a plain callable.
pub open spec fn spec_field_role(name: Seq<char>, no_auto_fields: bool, vc: int) -> FieldRole {
    if !no_auto_fields && (is_get_name(name) || is_set_name(name)) {
        if is_get_name(name) && vc == 0 {
            FieldRole::Getter
        } else if is_set_name(name) && vc == 1 {
            FieldRole::Setter
        } else {
            FieldRole::Plain
        }
    } else {
        FieldRole::Plain
    }
}

/// Decides the field role of a declared name.
pub fn field_role(name: &str, no_auto_fields: bool, vc: usize) -> (r: FieldRole)
    ensures
        r == spec_field_role(name@, no_auto_fields, vc as int),
{
    if no_auto_fields {
        return FieldRole::Plain;
    }
    let n = name.unicode_len();
    if n <= 4 {
        return FieldRole::Plain;
    }
    let c0 = name.get_char(0);
    let c1 = name.get_char(1);
    let c2 = name.get_char(2);
    let c3 = name.get_char(3);
    let tail = c1 == 'e' && c2 == 't' && c3 == '_';
    let get_p = c0 == 'g' && tail;
    let set_p = c0 == 's' && tail;
    if get_p && vc == 0 {
        FieldRole::Getter
    } else if set_p && vc == 1 {
        FieldRole::Setter
    } else {
        FieldRole::Plain
    }
}

/// A classified function: its three classifications, and the original,
/// unmodified signature they were derived from.
#[derive(Debug)]
pub struct ExportedFn {
    pub ret: RetKind,
    pub takes_self: TakesSelf,
    pub role: FieldRole,
    pub sig: FnDecl,
}

pub ghost struct ExportedFnView {
    pub ret: RetKind,
    pub takes_self: TakesSelf,
    pub role: FieldRole,
    pub sig: FnDeclView,
}

impl View for ExportedFn {
    type V = ExportedFnView;

    open spec fn view(&self) -> ExportedFnView {
        ExportedFnView {
            ret: self.ret,
            takes_self: self.takes_self,
            role: self.role,
            sig: self.sig@,
        }
    }
}

/// The classification of one declared function.
pub open spec fn spec_classify(f: FnDeclView, no_auto_fields: bool) -> ExportedFnView {
    ExportedFnView {
        ret: spec_ret_kind(f.output),
        takes_self: spec_takes_self(f.inputs),
        role: spec_field_role(f.name, no_auto_fields, spec_value_arg_count(f.inputs)),
        sig: f,
    }
}

/// Classifies one declared function, keeping its signature unmodified.
pub fn classify_fn(f: &FnDecl, no_auto_fields: bool) -> (e: ExportedFn)
    ensures
        e@ == spec_classify(f@, no_auto_fields),
{
    let ret = ret_kind(&f.output);
    let ts = takes_self(&f.inputs);
    let vc = value_arg_count(&f.inputs);
    let role = field_role(f.name.as_str(), no_auto_fields, vc);
    ExportedFn { ret, takes_self: ts, role, sig: f.clone() }
}

/// The classified functions of a member list, in declaration order. A
/// configured visibility filter excludes non-public functions entirely;
/// constants and other members are never classified here.
pub open spec fn spec_exported(
    members: Seq<MemberView>,
    pub_only: bool,
    no_auto_fields: bool,
) -> Seq<ExportedFnView>
    decreases members.len(),
{
    if members.len() == 0 {
        Seq::empty()
    } else {
        spec_exported(members.drop_last(), pub_only, no_auto_fields) + (match members.last() {
            MemberView::Func(f) => if !pub_only || f.is_pub {
                seq![spec_classify(f, no_auto_fields)]
            } else {
                Seq::empty()
            },
            _ => Seq::empty(),
        })
    }
}

/// The declared constants of a member list, in declaration order. The
/// visibility filter does not apply to constants.
pub open spec fn spec_consts(members: Seq<MemberView>) -> Seq<ConstDeclView>
    decreases members.len(),
{
    if members.len() == 0 {
        Seq::empty()
    } else {
        spec_consts(members.drop_last()) + (match members.last() {
            MemberView::Constant(c) => seq![c],
            _ => Seq::empty(),
        })
    }
}

pub open spec fn exported_views(e: Seq<ExportedFn>) -> Seq<ExportedFnView> {
    e.map_values(|x: ExportedFn| x@)
}

pub open spec fn const_views(c: Seq<ConstDecl>) -> Seq<ConstDeclView> {
    c.map_values(|x: ConstDecl| x@)
}

/// Classifies the members of the annotated block: the classified functions
/// and the declared constants, each list in declaration order.
pub fn classify_block(members: &Vec<Member>, pub_only: bool, no_auto_fields: bool) -> (r: (
    Vec<ExportedFn>,
    Vec<ConstDecl>,
))
    ensures
        exported_views(r.0@) == spec_exported(member_views(members@), pub_only, no_auto_fields),
        const_views(r.1@) == spec_consts(member_views(members@)),
{
    let ghost all = member_views(members@);
    let mut fns: Vec<ExportedFn> = Vec::new();
    let mut consts: Vec<ConstDecl> = Vec::new();
    let mut i: usize = 0;
    proof {
        assert(all.subrange(0, 0) =~= Seq::<MemberView>::empty());
        assert(exported_views(fns@) =~= spec_exported(all.subrange(0, 0), pub_only, no_auto_fields));
        assert(const_views(consts@) =~= spec_consts(all.subrange(0, 0)));
    }
    while i < members.len()
        invariant
            0 <= i <= members.len(),
            all == member_views(members@),
            all.len() == members.len(),
            exported_views(fns@) == spec_exported(
                all.subrange(0, i as int),
                pub_only,
                no_auto_fields,
            ),
            const_views(consts@) == spec_consts(all.subrange(0, i as int)),
        decreases members.len() - i,
    {
        let ghost pre = all.subrange(0, i as int + 1);
        proof {
            assert(pre.drop_last() =~= all.subrange(0, i as int));
            assert(pre.last() == members@[i as int]@);
        }
        match &members[i] {
            Member::Func(f) => {
                if !pub_only || f.is_pub {
                    let e = classify_fn(f, no_auto_fields);
                    fns.push(e);
                    proof {
                        assert(exported_views(fns@) =~= spec_exported(
                            pre,
                            pub_only,
                            no_auto_fields,
                        ));
                    }
                } else {
                    proof {
                        assert(exported_views(fns@) =~= spec_exported(
                            pre,
                            pub_only,
                            no_auto_fields,
                        ));
                    }
                }
            },
            Member::Constant(c) => {
                consts.push(c.clone());
                proof {
                    assert(const_views(consts@) =~= spec_consts(pre));
                }
            },
            Member::Other => {},
        }
        proof {
            assert(exported_views(fns@) =~= spec_exported(pre, pub_only, no_auto_fields));
            assert(const_views(consts@) =~= spec_consts(pre));
        }
        i += 1;
    }
    proof {
        assert(all.subrange(0, members@.len() as int) =~= all);
    }
    (fns, consts)
}

} // verus!
