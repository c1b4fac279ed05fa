//! The emitter: renders the assembled registration entries into the source
//! text of the generated trait implementation. The caller parses this text
//! back into tokens and appends it after the original, untouched block.
//! Every template — including the context-store lookup that turns a missing
//! entry into a catchable runtime error — is pinned here by the contracts.
use crate::assemble::{
    pats_of, AppDataArg, AppDataArgView, ConstReg, ConstRegView, FieldReg, FieldRegView, MethodReg,
    MethodRegView, RegKind,
};
use crate::bridge::{BridgeOutput, BridgeOutputView};
use crate::model::{param_views, Param, ParamView, TyShape, TyShapeView};
use vstd::prelude::*;
use vstd::string::StrSliceExecFns;

verus! {

/// The registration method a callable's kind selects.
pub open spec fn spec_kind_text(k: RegKind) -> Seq<char> {
    match k {
        RegKind::FunctionMut => "add_function_mut"@,
        RegKind::Method => "add_method"@,
        RegKind::MethodMut => "add_method_mut"@,
    }
}

fn kind_text(k: RegKind) -> (r: &'static str)
    ensures
        r@ == spec_kind_text(k),
{
    match k {
        RegKind::FunctionMut => "add_function_mut",
        RegKind::Method => "add_method",
        RegKind::MethodMut => "add_method_mut",
    }
}

/// The items joined with a comma between each pair.
pub open spec fn spec_join_comma(items: Seq<Seq<char>>) -> Seq<char>
    decreases items.len(),
{
    if items.len() == 0 {
        Seq::empty()
    } else if items.len() == 1 {
        items[0]
    } else {
        spec_join_comma(items.drop_last()) + ", "@ + items.last()
    }
}

/// Joins strings with a comma between each pair.
pub fn join_comma(items: &Vec<String>) -> (r: String)
    ensures
        r@ == spec_join_comma(crate::assemble::string_views(items@)),
{
    let ghost all = crate::assemble::string_views(items@);
    let mut out = String::new();
    if items.len() == 0 {
        proof {
            assert(all.len() == 0);
        }
        return out;
    }
    out.append(items[0].as_str());
    proof {
        assert(out@ =~= spec_join_comma(all.subrange(0, 1)));
    }
    let mut i: usize = 1;
    while i < items.len()
        invariant
            1 <= i <= items.len(),
            all == crate::assemble::string_views(items@),
            all.len() == items.len(),
            out@ == spec_join_comma(all.subrange(0, i as int)),
        decreases items.len() - i,
    {
        let ghost pre = all.subrange(0, i as int + 1);
        proof {
            assert(pre.drop_last() =~= all.subrange(0, i as int));
            assert(pre.last() == items@[i as int]@);
        }
        out.append(", ");
        out.append(items[i].as_str());
        proof {
            assert(out@ =~= spec_join_comma(pre));
        }
        i += 1;
    }
    proof {
        assert(all.subrange(0, items@.len() as int) =~= all);
    }
    out
}

/// The type text a script-supplied parameter carries.
pub open spec fn spec_ty_text(t: TyShapeView) -> Seq<char> {
    match t {
        TyShapeView::Path { text, .. } => text,
        TyShapeView::Ref { elem, .. } => elem,
        TyShapeView::Other { text } => text,
    }
}

pub open spec fn spec_ty_texts(params: Seq<ParamView>) -> Seq<Seq<char>> {
    params.map_values(|p: ParamView| spec_ty_text(p.ty))
}

/// Collects the type texts of a parameter list.
pub fn ty_texts(params: &Vec<Param>) -> (r: Vec<String>)
    ensures
        crate::assemble::string_views(r@) == spec_ty_texts(param_views(params@)),
{
    let mut r: Vec<String> = Vec::new();
    let mut i: usize = 0;
    while i < params.len()
        invariant
            0 <= i <= params.len(),
            r@.len() == i,
            forall|j: int|
                0 <= j < i ==> #[trigger] r@[j]@ == spec_ty_text(params@[j]@.ty),
        decreases params.len() - i,
    {
        let t = match &params[i].ty {
            TyShape::Path { text, .. } => text.clone(),
            TyShape::Ref { elem, .. } => elem.clone(),
            TyShape::Other { text } => text.clone(),
        };
        r.push(t);
        i += 1;
    }
    proof {
        assert(crate::assemble::string_views(r@) =~= spec_ty_texts(param_views(params@)));
    }
    r
}

/// Collects the patterns of a parameter list.
pub fn pat_texts(params: &Vec<Param>) -> (r: Vec<String>)
    ensures
        crate::assemble::string_views(r@) == pats_of(param_views(params@)),
{
    crate::assemble::pat_strings(params)
}

/// One context-store resolution line: fetch the entry keyed by the
/// referenced type, exclusively for a mutable reference, and turn a missing
/// entry into a catchable runtime error naming the problem.
pub open spec fn spec_appdata_line(a: AppDataArgView) -> Seq<char> {
    "let "@ + a.pat + (if a.mutable {
        " = &mut *_lua.app_data_mut::<"@
    } else {
        " = &*_lua.app_data_ref::<"@
    }) + a.ty + ">().ok_or(mlua::Error::external(\"AppData not set\"))?; "@
}

pub open spec fn spec_appdata_lines(args: Seq<AppDataArgView>) -> Seq<char>
    decreases args.len(),
{
    if args.len() == 0 {
        Seq::empty()
    } else {
        spec_appdata_lines(args.drop_last()) + spec_appdata_line(args.last())
    }
}

/// Renders the context-store resolution lines of a registration.
pub fn appdata_lines(args: &Vec<AppDataArg>) -> (r: String)
    ensures
        r@ == spec_appdata_lines(crate::assemble::appdata_views(args@)),
{
    let ghost all = crate::assemble::appdata_views(args@);
    let mut out = String::new();
    let mut i: usize = 0;
    proof {
        assert(out@ =~= spec_appdata_lines(all.subrange(0, 0)));
    }
    while i < args.len()
        invariant
            0 <= i <= args.len(),
            all == crate::assemble::appdata_views(args@),
            all.len() == args.len(),
            out@ == spec_appdata_lines(all.subrange(0, i as int)),
        decreases args.len() - i,
    {
        let ghost pre = all.subrange(0, i as int + 1);
        proof {
            assert(pre.drop_last() =~= all.subrange(0, i as int));
            assert(pre.last() == args@[i as int]@);
        }
        let a = &args[i];
        out.append("let ");
        out.append(a.pat.as_str());
        if a.mutable {
            out.append(" = &mut *_lua.app_data_mut::<");
        } else {
            out.append(" = &*_lua.app_data_ref::<");
        }
        out.append(a.ty.as_str());
        out.append(">().ok_or(mlua::Error::external(\"AppData not set\"))?; ");
        proof {
            assert(out@ =~= spec_appdata_lines(pre));
        }
        i += 1;
    }
    proof {
        assert(all.subrange(0, args@.len() as int) =~= all);
    }
    out
}

/// The invocation of the declared function: through the receiver or the
/// type, with every typed parameter in its original position, propagating
/// failure when the registration says so.
pub open spec fn spec_call_text(
    target: Seq<char>,
    call_args: Seq<Seq<char>>,
    use_self: bool,
    propagate: bool,
) -> Seq<char> {
    (if use_self {
        "s."@
    } else {
        "Self::"@
    }) + target + "("@ + spec_join_comma(call_args) + ")"@ + (if propagate {
        "?"@
    } else {
        Seq::<char>::empty()
    })
}

/// One callable registration statement.
pub open spec fn spec_method_stmt(m: MethodRegView) -> Seq<char> {
    "methods."@ + spec_kind_text(m.kind) + "(\""@ + m.public_name + "\", |_lua, "@ + (if m.use_self {
        "s, "@
    } else {
        Seq::<char>::empty()
    }) + "("@ + spec_join_comma(pats_of(m.lua_args)) + "): ("@ + spec_join_comma(
        spec_ty_texts(m.lua_args),
    ) + ")| { "@ + spec_appdata_lines(m.app_data) + "Ok("@ + spec_call_text(
        m.target,
        m.call_args,
        m.use_self,
        m.propagate,
    ) + ") });"@
}

/// Renders one callable registration statement.
pub fn render_method_stmt(m: &MethodReg) -> (r: String)
    ensures
        r@ == spec_method_stmt(m@),
{
    let mut out = String::new();
    out.append("methods.");
    out.append(kind_text(m.kind));
    out.append("(\"");
    out.append(m.public_name.as_str());
    out.append("\", |_lua, ");
    if m.use_self {
        out.append("s, ");
    }
    out.append("(");
    let pats = pat_texts(&m.lua_args);
    let joined_pats = join_comma(&pats);
    out.append(joined_pats.as_str());
    out.append("): (");
    let tys = ty_texts(&m.lua_args);
    let joined_tys = join_comma(&tys);
    out.append(joined_tys.as_str());
    out.append(")| { ");
    let resolve = appdata_lines(&m.app_data);
    out.append(resolve.as_str());
    out.append("Ok(");
    if m.use_self {
        out.append("s.");
    } else {
        out.append("Self::");
    }
    out.append(m.target.as_str());
    out.append("(");
    let joined_args = join_comma(&m.call_args);
    out.append(joined_args.as_str());
    out.append(")");
    if m.propagate {
        out.append("?");
    }
    out.append(") });");
    proof {
        assert(out@ =~= spec_method_stmt(m@));
    }
    out
}

/// The registration method a field accessor selects: a set or get binding,
/// against the object (method) or the type (function).
pub open spec fn spec_field_kind_text(is_static: bool, is_set: bool) -> Seq<char> {
    if is_static {
        if is_set {
            "add_field_function_set"@
        } else {
            "add_field_function_get"@
        }
    } else {
        if is_set {
            "add_field_method_set"@
        } else {
            "add_field_method_get"@
        }
    }
}

/// One field registration statement: a setter's closure takes the new value
/// as its sole script-supplied parameter, a getter's takes none.
pub open spec fn spec_field_stmt(f: FieldRegView) -> Seq<char> {
    "fields."@ + spec_field_kind_text(f.is_static, f.is_set) + "(\""@ + f.public_name
        + "\", |_lua, "@ + (if f.is_static {
        "_"@
    } else {
        "s"@
    }) + (if f.is_set {
        ", "@ + f.value_pat
    } else {
        Seq::<char>::empty()
    }) + "| { "@ + spec_appdata_lines(f.app_data) + "Ok("@ + spec_call_text(
        f.target,
        f.call_args,
        f.use_self,
        f.propagate,
    ) + ") });"@
}

/// Renders one field registration statement.
pub fn render_field_stmt(f: &FieldReg) -> (r: String)
    ensures
        r@ == spec_field_stmt(f@),
{
    let mut out = String::new();
    out.append("fields.");
    if f.is_static {
        if f.is_set {
            out.append("add_field_function_set");
        } else {
            out.append("add_field_function_get");
        }
    } else {
        if f.is_set {
            out.append("add_field_method_set");
        } else {
            out.append("add_field_method_get");
        }
    }
    out.append("(\"");
    out.append(f.public_name.as_str());
    out.append("\", |_lua, ");
    if f.is_static {
        out.append("_");
    } else {
        out.append("s");
    }
    if f.is_set {
        out.append(", ");
        out.append(f.value_pat.as_str());
    }
    out.append("| { ");
    let resolve = appdata_lines(&f.app_data);
    out.append(resolve.as_str());
    out.append("Ok(");
    if f.use_self {
        out.append("s.");
    } else {
        out.append("Self::");
    }
    out.append(f.target.as_str());
    out.append("(");
    let joined_args = join_comma(&f.call_args);
    out.append(joined_args.as_str());
    out.append(")");
    if f.propagate {
        out.append("?");
    }
    out.append(") });");
    proof {
        assert(out@ =~= spec_field_stmt(f@));
    }
    out
}

/// One constant accessor statement, under the constant's own name.
pub open spec fn spec_const_stmt(c: ConstRegView) -> Seq<char> {
    "fields.add_field_function_get(stringify!("@ + c.name + "), |_lua, _| Ok(Self::"@ + c.name
        + "));"@
}

/// Renders one constant accessor statement.
pub fn render_const_stmt(c: &ConstReg) -> (r: String)
    ensures
        r@ == spec_const_stmt(c@),
{
    let mut out = String::new();
    out.append("fields.add_field_function_get(stringify!(");
    out.append(c.name.as_str());
    out.append("), |_lua, _| Ok(Self::");
    out.append(c.name.as_str());
    out.append("));");
    proof {
        assert(out@ =~= spec_const_stmt(c@));
    }
    out
}

pub open spec fn spec_method_block(ms: Seq<MethodRegView>) -> Seq<char>
    decreases ms.len(),
{
    if ms.len() == 0 {
        Seq::empty()
    } else {
        spec_method_block(ms.drop_last()) + spec_method_stmt(ms.last())
    }
}

pub open spec fn spec_field_block(fs: Seq<FieldRegView>) -> Seq<char>
    decreases fs.len(),
{
    if fs.len() == 0 {
        Seq::empty()
    } else {
        spec_field_block(fs.drop_last()) + spec_field_stmt(fs.last())
    }
}

pub open spec fn spec_const_block(cs: Seq<ConstRegView>) -> Seq<char>
    decreases cs.len(),
{
    if cs.len() == 0 {
        Seq::empty()
    } else {
        spec_const_block(cs.drop_last()) + spec_const_stmt(cs.last())
    }
}

/// The whole generated trait implementation: the callables block, then the
/// fields block with the constant accessors after the field accessors.
pub open spec fn spec_trait_impl(out: BridgeOutputView) -> Seq<char> {
    "impl ::mlua::UserData for "@ + out.self_ty
        + " { fn add_methods<M: ::mlua::UserDataMethods<Self>>(methods: &mut M) { "@
        + spec_method_block(out.methods)
        + " } fn add_fields<F: mlua::UserDataFields<Self>>(fields: &mut F) { "@ + spec_field_block(
        out.fields,
    ) + spec_const_block(out.consts) + " } }"@
}

/// Renders the generated trait implementation's source text.
pub fn render_trait_impl(out: &BridgeOutput) -> (r: String)
    ensures
        r@ == spec_trait_impl(out@),
{
    let mut s = String::new();
    s.append("impl ::mlua::UserData for ");
    s.append(out.self_ty.as_str());
    s.append(" { fn add_methods<M: ::mlua::UserDataMethods<Self>>(methods: &mut M) { ");
    let ghost ms = out@.methods;
    let mut i: usize = 0;
    let mut methods_text = String::new();
    proof {
        assert(methods_text@ =~= spec_method_block(ms.subrange(0, 0)));
    }
    while i < out.methods.len()
        invariant
            0 <= i <= out.methods.len(),
            ms == out@.methods,
            ms.len() == out.methods.len(),
            methods_text@ == spec_method_block(ms.subrange(0, i as int)),
        decreases out.methods.len() - i,
    {
        let ghost pre = ms.subrange(0, i as int + 1);
        proof {
            assert(pre.drop_last() =~= ms.subrange(0, i as int));
            assert(pre.last() == out.methods@[i as int]@);
        }
        let stmt = render_method_stmt(&out.methods[i]);
        methods_text.append(stmt.as_str());
        proof {
            assert(methods_text@ =~= spec_method_block(pre));
        }
        i += 1;
    }
    proof {
        assert(ms.subrange(0, out.methods@.len() as int) =~= ms);
    }
    s.append(methods_text.as_str());
    s.append(" } fn add_fields<F: mlua::UserDataFields<Self>>(fields: &mut F) { ");
    let ghost fs = out@.fields;
    let mut k: usize = 0;
    let mut fields_text = String::new();
    proof {
        assert(fields_text@ =~= spec_field_block(fs.subrange(0, 0)));
    }
    while k < out.fields.len()
        invariant
            0 <= k <= out.fields.len(),
            fs == out@.fields,
            fs.len() == out.fields.len(),
            fields_text@ == spec_field_block(fs.subrange(0, k as int)),
        decreases out.fields.len() - k,
    {
        let ghost pre = fs.subrange(0, k as int + 1);
        proof {
            assert(pre.drop_last() =~= fs.subrange(0, k as int));
            assert(pre.last() == out.fields@[k as int]@);
        }
        let stmt = render_field_stmt(&out.fields[k]);
        fields_text.append(stmt.as_str());
        proof {
            assert(fields_text@ =~= spec_field_block(pre));
        }
        k += 1;
    }
    proof {
        assert(fs.subrange(0, out.fields@.len() as int) =~= fs);
    }
    s.append(fields_text.as_str());
    let ghost cs = out@.consts;
    let mut n: usize = 0;
    let mut consts_text = String::new();
    proof {
        assert(consts_text@ =~= spec_const_block(cs.subrange(0, 0)));
    }
    while n < out.consts.len()
        invariant
            0 <= n <= out.consts.len(),
            cs == out@.consts,
            cs.len() == out.consts.len(),
            consts_text@ == spec_const_block(cs.subrange(0, n as int)),
        decreases out.consts.len() - n,
    {
        let ghost pre = cs.subrange(0, n as int + 1);
        proof {
            assert(pre.drop_last() =~= cs.subrange(0, n as int));
            assert(pre.last() == out.consts@[n as int]@);
        }
        let stmt = render_const_stmt(&out.consts[n]);
        consts_text.append(stmt.as_str());
        proof {
            assert(consts_text@ =~= spec_const_block(pre));
        }
        n += 1;
    }
    proof {
        assert(cs.subrange(0, out.consts@.len() as int) =~= cs);
    }
    s.append(consts_text.as_str());
    s.append(" } }");
    proof {
        assert(s@ =~= spec_trait_impl(out@));
    }
    s
}

} // verus!
