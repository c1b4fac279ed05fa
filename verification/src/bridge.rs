//! The generator's entry point: parse the configuration attribute, classify
//! the annotated block's members, and assemble the registration entries for
//! the embedding runtime. The caller emits the original block unchanged and
//! renders the returned registration entries after it.
use crate::assemble::{
    assemble, exported_wf, field_reg_matches, fielded_of, lemma_classify_wf, method_reg_matches,
    plains_of, rename_inputs_ok, ConstReg, ConstRegView, FieldReg, FieldRegView, MethodReg,
    MethodRegView,
};
use crate::classify::{classify_block, exported_views, spec_consts, spec_exported};
use crate::config::{attr_views, parse_config, spec_parse_config, AttrArg, Config, ConfigError};
use crate::model::{member_views, ImplBlock, ImplBlockView, MemberView};
use vstd::prelude::*;

verus! {

/// Everything the emission needs: the bridged type's text and the two
/// registration blocks (callables; fields, then constant accessors).
#[derive(Debug)]
pub struct BridgeOutput {
    pub self_ty: String,
    pub methods: Vec<MethodReg>,
    pub fields: Vec<FieldReg>,
    pub consts: Vec<ConstReg>,
}

pub ghost struct BridgeOutputView {
    pub self_ty: Seq<char>,
    pub methods: Seq<MethodRegView>,
    pub fields: Seq<FieldRegView>,
    pub consts: Seq<ConstRegView>,
}

impl View for BridgeOutput {
    type V = BridgeOutputView;

    open spec fn view(&self) -> BridgeOutputView {
        BridgeOutputView {
            self_ty: self.self_ty@,
            methods: self.methods@.map_values(|m: MethodReg| m@),
            fields: self.fields@.map_values(|f: FieldReg| f@),
            consts: self.consts@.map_values(|c: ConstReg| c@),
        }
    }
}

/// Every element of the classified list is internally consistent.
pub proof fn lemma_spec_exported_wf(members: Seq<MemberView>, pub_only: bool, no_auto_fields: bool)
    ensures
        forall|i: int|
            0 <= i < spec_exported(members, pub_only, no_auto_fields).len() ==> exported_wf(
                #[trigger] spec_exported(members, pub_only, no_auto_fields)[i],
            ),
    decreases members.len(),
{
    if members.len() > 0 {
        lemma_spec_exported_wf(members.drop_last(), pub_only, no_auto_fields);
        let e = spec_exported(members, pub_only, no_auto_fields);
        let p = spec_exported(members.drop_last(), pub_only, no_auto_fields);
        assert forall|i: int| 0 <= i < e.len() implies exported_wf(e[i]) by {
            if i < p.len() {
                assert(e[i] == p[i]);
            } else {
                match members.last() {
                    MemberView::Func(f) => {
                        lemma_classify_wf(f, no_auto_fields);
                        assert(e[i] == crate::classify::spec_classify(f, no_auto_fields));
                    },
                    _ => {},
                }
            }
        }
    }
}

/// What the assembled output says of a block under a configuration: the
/// bridged type is the block's own; the callables block holds exactly one
/// matching registration per plain classified function, in order; the
/// fields block one per getter or setter, in order; and one constant
/// accessor per declared constant, in order, under the constant's own name.
pub open spec fn bridge_matches(out: BridgeOutputView, cfg: Config, block: ImplBlockView) -> bool {
    let e = spec_exported(block.members, cfg.pub_only, cfg.no_auto_fields);
    let c = spec_consts(block.members);
    &&& out.self_ty == block.self_ty
    &&& out.methods.len() == plains_of(e).len()
    &&& forall|i: int|
        #![trigger out.methods[i]]
        0 <= i < out.methods.len() ==> method_reg_matches(out.methods[i], plains_of(e)[i], cfg)
    &&& out.fields.len() == fielded_of(e).len()
    &&& forall|i: int|
        #![trigger out.fields[i]]
        0 <= i < out.fields.len() ==> field_reg_matches(out.fields[i], fielded_of(e)[i], cfg)
    &&& out.consts.len() == c.len()
    &&& forall|i: int|
        #![trigger out.consts[i]]
        0 <= i < out.consts.len() ==> out.consts[i].name == c[i].name
}

/// Tests whether every derived public name can be produced under the
/// configuration's renaming rules: `bridge` asks exactly this of its
/// callers, and an unverified caller can establish it by this call.
pub fn names_renameable(cfg: &Config, block: &ImplBlock) -> (r: bool)
    ensures
        r == rename_inputs_ok(
            *cfg,
            spec_exported(member_views(block.members@), cfg.pub_only, cfg.no_auto_fields),
        ),
{
    let (fns, _) = classify_block(&block.members, cfg.pub_only, cfg.no_auto_fields);
    let ghost ev = spec_exported(member_views(block.members@), cfg.pub_only, cfg.no_auto_fields);
    proof {
        lemma_spec_exported_wf(member_views(block.members@), cfg.pub_only, cfg.no_auto_fields);
        assert(forall|k: int| 0 <= k < fns@.len() ==> #[trigger] fns@[k]@ == exported_views(fns@)[k]);
    }
    let mut i: usize = 0;
    while i < fns.len()
        invariant
            0 <= i <= fns.len(),
            ev == spec_exported(member_views(block.members@), cfg.pub_only, cfg.no_auto_fields),
            fns@.len() == ev.len(),
            exported_views(fns@) == ev,
            forall|k: int| 0 <= k < fns@.len() ==> #[trigger] fns@[k]@ == ev[k],
            forall|k: int| 0 <= k < ev.len() ==> exported_wf(#[trigger] ev[k]),
            forall|j: int|
                #![trigger ev[j]]
                0 <= j < i ==> {
                    &&& (ev[j].role is Plain ==> crate::assemble::name_rename_ok(
                        cfg.rename_funcs,
                        ev[j].sig.name,
                    ))
                    &&& (!(ev[j].role is Plain) ==> crate::assemble::name_rename_ok(
                        cfg.rename_fields,
                        crate::assemble::strip_prefix4(ev[j].sig.name),
                    ))
                },
        decreases fns.len() - i,
    {
        let e = &fns[i];
        let ok = if matches!(e.role, crate::classify::FieldRole::Plain) {
            crate::rename::rule_applies(&cfg.rename_funcs, e.sig.name.as_str())
        } else {
            proof {
                assert(exported_wf(ev[i as int]));
            }
            let stripped = crate::assemble::strip_field_name(e.sig.name.as_str());
            crate::rename::rule_applies(&cfg.rename_fields, stripped.as_str())
        };
        if !ok {
            proof {
                let j = i as int;
                assert(fns@[j]@ == ev[j]);
                assert(!((ev[j].role is Plain ==> crate::assemble::name_rename_ok(
                    cfg.rename_funcs,
                    ev[j].sig.name,
                )) && (!(ev[j].role is Plain) ==> crate::assemble::name_rename_ok(
                    cfg.rename_fields,
                    crate::assemble::strip_prefix4(ev[j].sig.name),
                ))));
                assert(!rename_inputs_ok(*cfg, ev));
            }
            return false;
        }
        i += 1;
    }
    proof {
        assert forall|j: int| #![trigger ev[j]] 0 <= j < ev.len() implies {
            &&& (ev[j].role is Plain ==> crate::assemble::name_rename_ok(
                cfg.rename_funcs,
                ev[j].sig.name,
            ))
            &&& (!(ev[j].role is Plain) ==> crate::assemble::name_rename_ok(
                cfg.rename_fields,
                crate::assemble::strip_prefix4(ev[j].sig.name),
            ))
        } by {}
        assert(rename_inputs_ok(*cfg, ev));
    }
    true
}

/// Classifies the block's members under a parsed configuration and
/// assembles the registration entries.
pub fn bridge(cfg: &Config, block: &ImplBlock) -> (r: BridgeOutput)
    requires
        rename_inputs_ok(
            *cfg,
            spec_exported(member_views(block.members@), cfg.pub_only, cfg.no_auto_fields),
        ),
    ensures
        bridge_matches(r@, *cfg, block@),
{
    let (fns, consts) = classify_block(&block.members, cfg.pub_only, cfg.no_auto_fields);
    proof {
        lemma_spec_exported_wf(member_views(block.members@), cfg.pub_only, cfg.no_auto_fields);
        assert(forall|i: int|
            0 <= i < fns@.len() ==> #[trigger] fns@[i]@ == exported_views(fns@)[i]);
    }
    let (methods, fields, const_regs) = assemble(cfg, &fns, &consts);
    let r = BridgeOutput {
        self_ty: block.self_ty.clone(),
        methods,
        fields,
        consts: const_regs,
    };
    proof {
        assert(forall|i: int|
            0 <= i < r.consts@.len() ==> #[trigger] r.consts@[i]@.name == spec_consts(
                member_views(block.members@),
            )[i].name);
    }
    r
}

/// Generates the bridge for one annotated block: parses the configuration
/// attribute's arguments and, when they parse, returns the assembled
/// registration entries; a malformed attribute fails the whole expansion
/// with its first error instead, and nothing is emitted.
pub fn mlua_bridge(attr: &Vec<AttrArg>, block: &ImplBlock) -> (r: Result<
    BridgeOutput,
    ConfigError,
>)
    requires
        spec_parse_config(attr_views(attr@)) matches Ok(cfg) ==> rename_inputs_ok(
            cfg,
            spec_exported(member_views(block.members@), cfg.pub_only, cfg.no_auto_fields),
        ),
    ensures
        match r {
            Result::Ok(out) => spec_parse_config(attr_views(attr@)) matches Ok(cfg)
                && bridge_matches(out@, cfg, block@),
            Result::Err(e) => spec_parse_config(attr_views(attr@)) == Result::<
                Config,
                crate::config::ConfigErrorView,
            >::Err(e@),
        },
{
    match parse_config(attr) {
        Result::Ok(cfg) => Result::Ok(bridge(&cfg, block)),
        Result::Err(e) => Result::Err(e),
    }
}

} // verus!
