//! The code assembler: turns every classified member into exactly one
//! registration entry for the embedding runtime, split over the two output
//! blocks (callables, fields). A registration entry carries everything the
//! final emission needs: the registration kind, the derived public name, the
//! original identifier to invoke, the script-supplied parameters, the
//! context-sourced parameters to resolve at call time, the full call
//! argument order, and whether failure is propagated.
use crate::classify::{
    is_get_name, is_set_name, spec_value_arg_count, ExportedFn, ExportedFnView, FieldRole, RetKind,
    TakesSelf,
};
use crate::config::{Config, RenameRule};
use crate::model::{arg_views, param_views, ConstDecl, ConstDeclView, Param, ParamView};
use crate::partition::{
    appdata_of, lemma_value_count_is_values_len, split_appdata_args, typed_args, typed_params,
    values_of,
};
use crate::rename::{camel_ok, rename_ident, rename_spec};
use vstd::prelude::*;
use vstd::string::StrSliceExecFns;

verus! {

/// The registration kind of a callable, decided by its receiver shape.
#[derive(Clone, Copy, PartialEq, Eq, Structural, Debug)]
pub enum RegKind {
    /// No receiver: registered as a static function.
    FunctionMut,
    /// Shared receiver.
    Method,
    /// Exclusive receiver.
    MethodMut,
}

/// One context-sourced parameter of a registration: its pattern, the
/// referenced type used as the context store's key, and whether the access
/// is exclusive.
#[derive(Debug)]
pub struct AppDataArg {
    pub pat: String,
    pub ty: String,
    pub mutable: bool,
}

pub ghost struct AppDataArgView {
    pub pat: Seq<char>,
    pub ty: Seq<char>,
    pub mutable: bool,
}

impl View for AppDataArg {
    type V = AppDataArgView;

    open spec fn view(&self) -> AppDataArgView {
        AppDataArgView { pat: self.pat@, ty: self.ty@, mutable: self.mutable }
    }
}

pub open spec fn appdata_views(args: Seq<AppDataArg>) -> Seq<AppDataArgView> {
    args.map_values(|a: AppDataArg| a@)
}

pub open spec fn string_views(strs: Seq<String>) -> Seq<Seq<char>> {
    strs.map_values(|s: String| s@)
}

/// One registration in the callables block.
#[derive(Debug)]
pub struct MethodReg {
    pub kind: RegKind,
    /// The script-facing name, after the configured renaming.
    pub public_name: String,
    /// The declared identifier, always invoked unrenamed.
    pub target: String,
    /// The script-supplied parameters, in declaration order.
    pub lua_args: Vec<Param>,
    /// The context-sourced parameters to resolve before the call.
    pub app_data: Vec<AppDataArg>,
    /// All typed parameters' patterns, in the original interleaving.
    pub call_args: Vec<String>,
    /// Whether the invoked function's failure is propagated.
    pub propagate: bool,
    /// Whether the call goes through the receiver.
    pub use_self: bool,
}

pub ghost struct MethodRegView {
    pub kind: RegKind,
    pub public_name: Seq<char>,
    pub target: Seq<char>,
    pub lua_args: Seq<ParamView>,
    pub app_data: Seq<AppDataArgView>,
    pub call_args: Seq<Seq<char>>,
    pub propagate: bool,
    pub use_self: bool,
}

impl View for MethodReg {
    type V = MethodRegView;

    open spec fn view(&self) -> MethodRegView {
        MethodRegView {
            kind: self.kind,
            public_name: self.public_name@,
            target: self.target@,
            lua_args: param_views(self.lua_args@),
            app_data: appdata_views(self.app_data@),
            call_args: string_views(self.call_args@),
            propagate: self.propagate,
            use_self: self.use_self,
        }
    }
}

/// One registration in the fields block: a getter or a setter.
#[derive(Debug)]
pub struct FieldReg {
    pub is_set: bool,
    /// Registered as a field function (no receiver) or a field method.
    pub is_static: bool,
    pub public_name: String,
    pub target: String,
    /// The setter's sole script-supplied pattern; empty for a getter.
    pub value_pat: String,
    pub app_data: Vec<AppDataArg>,
    pub call_args: Vec<String>,
    pub propagate: bool,
    pub use_self: bool,
}

pub ghost struct FieldRegView {
    pub is_set: bool,
    pub is_static: bool,
    pub public_name: Seq<char>,
    pub target: Seq<char>,
    pub value_pat: Seq<char>,
    pub app_data: Seq<AppDataArgView>,
    pub call_args: Seq<Seq<char>>,
    pub propagate: bool,
    pub use_self: bool,
}

impl View for FieldReg {
    type V = FieldRegView;

    open spec fn view(&self) -> FieldRegView {
        FieldRegView {
            is_set: self.is_set,
            is_static: self.is_static,
            public_name: self.public_name@,
            target: self.target@,
            value_pat: self.value_pat@,
            app_data: appdata_views(self.app_data@),
            call_args: string_views(self.call_args@),
            propagate: self.propagate,
            use_self: self.use_self,
        }
    }
}

/// One constant accessor in the fields block; the constant's own name,
/// never renamed.
#[derive(Debug)]
pub struct ConstReg {
    pub name: String,
}

pub ghost struct ConstRegView {
    pub name: Seq<char>,
}

impl View for ConstReg {
    type V = ConstRegView;

    open spec fn view(&self) -> ConstRegView {
        ConstRegView { name: self.name@ }
    }
}

/// The classified functions that stay plain callables, in order.
pub open spec fn plains_of(e: Seq<ExportedFnView>) -> Seq<ExportedFnView>
    decreases e.len(),
{
    if e.len() == 0 {
        Seq::empty()
    } else {
        plains_of(e.drop_last()) + (if e.last().role is Plain {
            seq![e.last()]
        } else {
            Seq::empty()
        })
    }
}

/// The classified functions that become field accessors, in order.
pub open spec fn fielded_of(e: Seq<ExportedFnView>) -> Seq<ExportedFnView>
    decreases e.len(),
{
    if e.len() == 0 {
        Seq::empty()
    } else {
        fielded_of(e.drop_last()) + (if !(e.last().role is Plain) {
            seq![e.last()]
        } else {
            Seq::empty()
        })
    }
}

/// The context-store resolution entries of a parameter list: one per
/// reference-typed parameter, keyed by the referenced type.
pub open spec fn appdata_args_of(params: Seq<ParamView>) -> Seq<AppDataArgView>
    decreases params.len(),
{
    if params.len() == 0 {
        Seq::empty()
    } else {
        appdata_args_of(params.drop_last()) + (match params.last().ty {
            crate::model::TyShapeView::Ref { mutable, elem } => seq![
                AppDataArgView { pat: params.last().pat, ty: elem, mutable },
            ],
            _ => Seq::empty(),
        })
    }
}

/// Resolution entries of the reference-typed partition alone are the same
/// as those of the full list.
pub proof fn lemma_appdata_args_of_filtered(params: Seq<ParamView>)
    ensures
        appdata_args_of(appdata_of(params)) == appdata_args_of(params),
    decreases params.len(),
{
    if params.len() > 0 {
        lemma_appdata_args_of_filtered(params.drop_last());
        let prev = appdata_of(params.drop_last());
        if params.last().ty is Ref {
            assert((prev + seq![params.last()]).drop_last() =~= prev);
            assert((prev + seq![params.last()]).last() == params.last());
        } else {
            assert(appdata_of(params) =~= prev);
            assert(appdata_args_of(params) =~= appdata_args_of(params.drop_last()));
        }
    }
}

/// The patterns of a parameter list, in order.
pub open spec fn pats_of(params: Seq<ParamView>) -> Seq<Seq<char>> {
    params.map_values(|p: ParamView| p.pat)
}

/// A name without its four-character field prefix.
pub open spec fn strip_prefix4(s: Seq<char>) -> Seq<char> {
    s.subrange(4, s.len() as int)
}

/// The registration kind a receiver shape selects.
pub open spec fn spec_method_kind(ts: TakesSelf) -> RegKind {
    match ts {
        TakesSelf::No => RegKind::FunctionMut,
        TakesSelf::Yes => RegKind::Method,
        TakesSelf::Mut => RegKind::MethodMut,
    }
}

/// The one registration a plain callable produces.
pub open spec fn method_reg_matches(r: MethodRegView, f: ExportedFnView, cfg: Config) -> bool {
    let tp = typed_params(f.sig.inputs);
    &&& r.kind == spec_method_kind(f.takes_self)
    &&& r.public_name == rename_spec(cfg.rename_funcs, f.sig.name)
    &&& r.target == f.sig.name
    &&& r.lua_args == values_of(tp)
    &&& r.app_data == appdata_args_of(tp)
    &&& r.call_args == pats_of(tp)
    &&& r.propagate == (f.ret is Fallible)
    &&& r.use_self == !(f.takes_self is No)
}

/// The one registration a field accessor produces.
pub open spec fn field_reg_matches(r: FieldRegView, f: ExportedFnView, cfg: Config) -> bool {
    let tp = typed_params(f.sig.inputs);
    &&& r.is_set == (f.role is Setter)
    &&& r.is_static == (f.takes_self is No)
    &&& r.public_name == rename_spec(cfg.rename_fields, strip_prefix4(f.sig.name))
    &&& r.target == f.sig.name
    &&& r.value_pat == (if f.role is Setter {
        values_of(tp)[0].pat
    } else {
        Seq::<char>::empty()
    })
    &&& r.app_data == appdata_args_of(tp)
    &&& r.call_args == pats_of(tp)
    &&& r.propagate == (f.ret is Fallible)
    &&& r.use_self == !(f.takes_self is No)
}

/// A classified function is internally consistent: a field role implies the
/// matching name prefix and script-supplied argument count.
pub open spec fn exported_wf(f: ExportedFnView) -> bool {
    &&& (f.role is Getter ==> is_get_name(f.sig.name) && spec_value_arg_count(f.sig.inputs) == 0)
    &&& (f.role is Setter ==> is_set_name(f.sig.name) && spec_value_arg_count(f.sig.inputs) == 1)
}

/// Classification always yields an internally consistent result.
pub proof fn lemma_classify_wf(f: crate::model::FnDeclView, no_auto_fields: bool)
    ensures
        exported_wf(crate::classify::spec_classify(f, no_auto_fields)),
{
}

/// The camelCase transform's precondition on one name.
pub open spec fn name_rename_ok(rule: RenameRule, s: Seq<char>) -> bool {
    rule is Camel ==> vstd::utf8::is_ascii_chars(s) && camel_ok(s)
}

/// Every derived public name can be produced: the camelCase rule, where
/// configured, gets names it is defined on.
pub open spec fn rename_inputs_ok(cfg: Config, e: Seq<ExportedFnView>) -> bool {
    forall|i: int|
        #![trigger e[i]]
        0 <= i < e.len() ==> {
            &&& (e[i].role is Plain ==> name_rename_ok(cfg.rename_funcs, e[i].sig.name))
            &&& (!(e[i].role is Plain) ==> name_rename_ok(
                cfg.rename_fields,
                strip_prefix4(e[i].sig.name),
            ))
        }
}

/// Builds the context-store resolution entries of a parameter list.
pub fn appdata_args(params: &Vec<Param>) -> (r: Vec<AppDataArg>)
    ensures
        appdata_views(r@) == appdata_args_of(param_views(params@)),
{
    let ghost all = param_views(params@);
    let mut r: Vec<AppDataArg> = Vec::new();
    let mut i: usize = 0;
    proof {
        assert(all.subrange(0, 0) =~= Seq::<ParamView>::empty());
        assert(appdata_views(r@) =~= appdata_args_of(all.subrange(0, 0)));
    }
    while i < params.len()
        invariant
            0 <= i <= params.len(),
            all == param_views(params@),
            all.len() == params.len(),
            appdata_views(r@) == appdata_args_of(all.subrange(0, i as int)),
        decreases params.len() - i,
    {
        let ghost pre = all.subrange(0, i as int + 1);
        proof {
            assert(pre.drop_last() =~= all.subrange(0, i as int));
            assert(pre.last() == params@[i as int]@);
        }
        let p = &params[i];
        match &p.ty {
            crate::model::TyShape::Ref { mutable, elem } => {
                r.push(AppDataArg { pat: p.pat.clone(), ty: elem.clone(), mutable: *mutable });
            },
            _ => {},
        }
        proof {
            assert(appdata_views(r@) =~= appdata_args_of(pre));
        }
        i += 1;
    }
    proof {
        assert(all.subrange(0, params@.len() as int) =~= all);
    }
    r
}

/// Collects the patterns of a parameter list.
pub fn pat_strings(params: &Vec<Param>) -> (r: Vec<String>)
    ensures
        string_views(r@) == pats_of(param_views(params@)),
{
    let mut r: Vec<String> = Vec::new();
    let mut i: usize = 0;
    while i < params.len()
        invariant
            0 <= i <= params.len(),
            r@.len() == i,
            forall|j: int| 0 <= j < i ==> #[trigger] r@[j]@ == params@[j]@.pat,
        decreases params.len() - i,
    {
        r.push(params[i].pat.clone());
        i += 1;
    }
    proof {
        assert(string_views(r@) =~= pats_of(param_views(params@)));
    }
    r
}

/// Strips the field prefix off a getter or setter name.
pub fn strip_field_name(name: &str) -> (r: String)
    requires
        name@.len() > 4,
    ensures
        r@ == strip_prefix4(name@),
{
    let n = name.unicode_len();
    let s = name.substring_char(4, n);
    s.to_owned()
}

/// Assembles the registration entries: one callable registration per plain
/// classified function, one field registration per getter or setter, and
/// one constant accessor per declared constant, each list in order. The
/// public name is the renamed declared name (the field name first loses its
/// prefix); the invoked identifier is always the declared one; constants
/// keep their own name untouched by any renaming rule.
pub fn assemble(cfg: &Config, exported: &Vec<ExportedFn>, consts: &Vec<ConstDecl>) -> (r: (
    Vec<MethodReg>,
    Vec<FieldReg>,
    Vec<ConstReg>,
))
    requires
        forall|i: int|
            #![trigger exported@[i]]
            0 <= i < exported@.len() ==> exported_wf(exported@[i]@),
        rename_inputs_ok(*cfg, crate::classify::exported_views(exported@)),
    ensures
        r.0@.len() == plains_of(crate::classify::exported_views(exported@)).len(),
        forall|i: int|
            #![trigger r.0@[i]]
            0 <= i < r.0@.len() ==> method_reg_matches(
                r.0@[i]@,
                plains_of(crate::classify::exported_views(exported@))[i],
                *cfg,
            ),
        r.1@.len() == fielded_of(crate::classify::exported_views(exported@)).len(),
        forall|i: int|
            #![trigger r.1@[i]]
            0 <= i < r.1@.len() ==> field_reg_matches(
                r.1@[i]@,
                fielded_of(crate::classify::exported_views(exported@))[i],
                *cfg,
            ),
        r.2@.len() == consts@.len(),
        forall|i: int| #![trigger r.2@[i]] 0 <= i < consts@.len() ==> r.2@[i]@.name == consts@[i]@.name,
{
    let ghost ev = crate::classify::exported_views(exported@);
    let mut methods: Vec<MethodReg> = Vec::new();
    let mut fields: Vec<FieldReg> = Vec::new();
    let mut i: usize = 0;
    proof {
        assert(ev.subrange(0, 0) =~= Seq::<ExportedFnView>::empty());
    }
    while i < exported.len()
        invariant
            0 <= i <= exported.len(),
            ev == crate::classify::exported_views(exported@),
            ev.len() == exported.len(),
            forall|j: int|
                #![trigger exported@[j]]
                0 <= j < exported@.len() ==> exported_wf(exported@[j]@),
            rename_inputs_ok(*cfg, ev),
            methods@.len() == plains_of(ev.subrange(0, i as int)).len(),
            forall|j: int|
                #![trigger methods@[j]]
                0 <= j < methods@.len() ==> method_reg_matches(
                    methods@[j]@,
                    plains_of(ev.subrange(0, i as int))[j],
                    *cfg,
                ),
            fields@.len() == fielded_of(ev.subrange(0, i as int)).len(),
            forall|j: int|
                #![trigger fields@[j]]
                0 <= j < fields@.len() ==> field_reg_matches(
                    fields@[j]@,
                    fielded_of(ev.subrange(0, i as int))[j],
                    *cfg,
                ),
        decreases exported.len() - i,
    {
        let ghost pre = ev.subrange(0, i as int + 1);
        let ghost prev = ev.subrange(0, i as int);
        proof {
            assert(pre.drop_last() =~= prev);
            assert(pre.last() == exported@[i as int]@);
        }
        let e = &exported[i];
        let ghost f = exported@[i as int]@;
        let ghost tp = typed_params(arg_views(e.sig.inputs@));
        let typed = typed_args(&e.sig.inputs);
        let pair = split_appdata_args(&e.sig);
        let app_data = appdata_args(&pair.0);
        proof {
            lemma_appdata_args_of_filtered(tp);
        }
        let call_args = pat_strings(&typed);
        let target = e.sig.name.clone();
        let propagate = matches!(e.ret, RetKind::Fallible);
        let use_self = !matches!(e.takes_self, TakesSelf::No);
        if matches!(e.role, FieldRole::Plain) {
            let public_name = rename_ident(&cfg.rename_funcs, e.sig.name.as_str());
            let kind = match e.takes_self {
                TakesSelf::No => RegKind::FunctionMut,
                TakesSelf::Yes => RegKind::Method,
                TakesSelf::Mut => RegKind::MethodMut,
            };
            let reg = MethodReg {
                kind,
                public_name,
                target,
                lua_args: pair.1,
                app_data,
                call_args,
                propagate,
                use_self,
            };
            proof {
                assert(method_reg_matches(reg@, f, *cfg));
                assert(plains_of(pre) =~= plains_of(prev).push(f));
                assert(fielded_of(pre) =~= fielded_of(prev));
            }
            methods.push(reg);
        } else {
            proof {
                assert(exported_wf(f));
                assert(f.sig.name.len() > 4);
                lemma_value_count_is_values_len(f.sig.inputs);
            }
            let stripped = strip_field_name(e.sig.name.as_str());
            let public_name = rename_ident(&cfg.rename_fields, stripped.as_str());
            let is_set = matches!(e.role, FieldRole::Setter);
            let value_pat = if is_set {
                pair.1[0].pat.clone()
            } else {
                String::new()
            };
            let reg = FieldReg {
                is_set,
                is_static: !use_self,
                public_name,
                target,
                value_pat,
                app_data,
                call_args,
                propagate,
                use_self,
            };
            proof {
                assert(field_reg_matches(reg@, f, *cfg));
                assert(fielded_of(pre) =~= fielded_of(prev).push(f));
                assert(plains_of(pre) =~= plains_of(prev));
            }
            fields.push(reg);
        }
        i += 1;
    }
    proof {
        assert(ev.subrange(0, exported@.len() as int) =~= ev);
    }
    let mut const_regs: Vec<ConstReg> = Vec::new();
    let mut k: usize = 0;
    while k < consts.len()
        invariant
            0 <= k <= consts.len(),
            const_regs@.len() == k,
            forall|j: int|
                #![trigger const_regs@[j]]
                0 <= j < k ==> const_regs@[j]@.name == consts@[j]@.name,
        decreases consts.len() - k,
    {
        const_regs.push(ConstReg { name: consts[k].name.clone() });
        k += 1;
    }
    (methods, fields, const_regs)
}

} // verus!
