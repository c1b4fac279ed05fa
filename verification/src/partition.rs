//! The argument partitioner: splits a function's typed parameters into
//! context-sourced parameters (reference types, fetched from the runtime's
//! type-indexed context store) and script-supplied parameters (everything
//! else, forwarded from the calling script). Both keep declaration order,
//! and the full typed list keeps the original interleaving for the call.
use crate::classify::{is_value_arg, spec_value_arg_count};
use crate::model::{arg_views, param_views, FnArg, FnArgView, FnDecl, Param, ParamView};
use vstd::prelude::*;

verus! {

/// The typed (non-receiver) parameters of a parameter list, in order.
pub open spec fn typed_params(inputs: Seq<FnArgView>) -> Seq<ParamView>
    decreases inputs.len(),
{
    if inputs.len() == 0 {
        Seq::empty()
    } else {
        typed_params(inputs.drop_last()) + (match inputs.last() {
            FnArgView::Typed(p) => seq![p],
            _ => Seq::empty(),
        })
    }
}

/// The context-sourced parameters: those of reference type, in order.
pub open spec fn appdata_of(params: Seq<ParamView>) -> Seq<ParamView>
    decreases params.len(),
{
    if params.len() == 0 {
        Seq::empty()
    } else {
        appdata_of(params.drop_last()) + (if params.last().ty is Ref {
            seq![params.last()]
        } else {
            Seq::empty()
        })
    }
}

/// The script-supplied parameters: those not of reference type, in order.
pub open spec fn values_of(params: Seq<ParamView>) -> Seq<ParamView>
    decreases params.len(),
{
    if params.len() == 0 {
        Seq::empty()
    } else {
        values_of(params.drop_last()) + (if !(params.last().ty is Ref) {
            seq![params.last()]
        } else {
            Seq::empty()
        })
    }
}

/// The script-supplied argument count is the length of the script-supplied
/// partition.
pub proof fn lemma_value_count_is_values_len(inputs: Seq<FnArgView>)
    ensures
        spec_value_arg_count(inputs) == values_of(typed_params(inputs)).len(),
    decreases inputs.len(),
{
    if inputs.len() > 0 {
        lemma_value_count_is_values_len(inputs.drop_last());
        match inputs.last() {
            FnArgView::Typed(p) => {
                let prev = typed_params(inputs.drop_last());
                assert((prev + seq![p]).drop_last() =~= prev);
                assert((prev + seq![p]).last() == p);
            },
            _ => {},
        }
    }
}

/// Collects the typed parameters of a parameter list, in order.
pub fn typed_args(inputs: &Vec<FnArg>) -> (r: Vec<Param>)
    ensures
        param_views(r@) == typed_params(arg_views(inputs@)),
{
    let ghost all = arg_views(inputs@);
    let mut r: Vec<Param> = Vec::new();
    let mut i: usize = 0;
    proof {
        assert(all.subrange(0, 0) =~= Seq::<FnArgView>::empty());
        assert(param_views(r@) =~= typed_params(all.subrange(0, 0)));
    }
    while i < inputs.len()
        invariant
            0 <= i <= inputs.len(),
            all == arg_views(inputs@),
            all.len() == inputs.len(),
            param_views(r@) == typed_params(all.subrange(0, i as int)),
        decreases inputs.len() - i,
    {
        let ghost pre = all.subrange(0, i as int + 1);
        proof {
            assert(pre.drop_last() =~= all.subrange(0, i as int));
            assert(pre.last() == inputs@[i as int]@);
        }
        match &inputs[i] {
            FnArg::Typed(p) => {
                r.push(p.clone());
            },
            _ => {},
        }
        proof {
            assert(param_views(r@) =~= typed_params(pre));
        }
        i += 1;
    }
    proof {
        assert(all.subrange(0, inputs@.len() as int) =~= all);
    }
    r
}

/// Splits a signature's typed parameters into context-sourced (reference
/// typed) and script-supplied (the rest), each in declaration order.
pub fn split_appdata_args(sig: &FnDecl) -> (r: (Vec<Param>, Vec<Param>))
    ensures
        param_views(r.0@) == appdata_of(typed_params(arg_views(sig.inputs@))),
        param_views(r.1@) == values_of(typed_params(arg_views(sig.inputs@))),
{
    let ghost all = arg_views(sig.inputs@);
    let mut app_data: Vec<Param> = Vec::new();
    let mut lua_args: Vec<Param> = Vec::new();
    let mut i: usize = 0;
    proof {
        assert(all.subrange(0, 0) =~= Seq::<FnArgView>::empty());
        assert(param_views(app_data@) =~= appdata_of(typed_params(all.subrange(0, 0))));
        assert(param_views(lua_args@) =~= values_of(typed_params(all.subrange(0, 0))));
    }
    while i < sig.inputs.len()
        invariant
            0 <= i <= sig.inputs.len(),
            all == arg_views(sig.inputs@),
            all.len() == sig.inputs.len(),
            param_views(app_data@) == appdata_of(typed_params(all.subrange(0, i as int))),
            param_views(lua_args@) == values_of(typed_params(all.subrange(0, i as int))),
        decreases sig.inputs.len() - i,
    {
        let ghost pre = all.subrange(0, i as int + 1);
        proof {
            assert(pre.drop_last() =~= all.subrange(0, i as int));
            assert(pre.last() == sig.inputs@[i as int]@);
        }
        match &sig.inputs[i] {
            FnArg::Typed(p) => {
                proof {
                    let prev = typed_params(all.subrange(0, i as int));
                    assert(typed_params(pre) =~= prev.push(sig.inputs@[i as int]@->Typed_0));
                    assert(typed_params(pre).drop_last() =~= prev);
                }
                if matches!(p.ty, crate::model::TyShape::Ref { .. }) {
                    app_data.push(p.clone());
                } else {
                    lua_args.push(p.clone());
                }
            },
            _ => {
                proof {
                    assert(typed_params(pre) =~= typed_params(all.subrange(0, i as int)));
                }
            },
        }
        proof {
            assert(param_views(app_data@) =~= appdata_of(typed_params(pre)));
            assert(param_views(lua_args@) =~= values_of(typed_params(pre)));
        }
        i += 1;
    }
    proof {
        assert(all.subrange(0, sig.inputs@.len() as int) =~= all);
    }
    (app_data, lua_args)
}

} // verus!
