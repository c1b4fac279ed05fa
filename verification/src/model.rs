//! The structural model of an annotated `impl` block, as far as the bridge
//! generator reads it: function signatures (name, visibility, receiver,
//! parameter shapes, return shape), constants, and a marker for every other
//! member, which passes through the generator untouched.
//!
//! Type names and patterns are carried as plain text so that the caller can
//! splice them back into the emitted registration code; classification only
//! ever looks at the *shape* of a type (reference or not, last path segment).
use vstd::prelude::*;

verus! {

/// The shape of a declared type, as much of it as classification reads.
#[derive(Debug)]
pub enum TyShape {
    /// A plain path type; `last` is the identifier of its last path segment,
    /// `text` the full source text of the type.
    Path { last: String, text: String },
    /// A reference type `&T` or `&mut T`; `elem` is the source text of `T`.
    Ref { mutable: bool, elem: String },
    /// Any other type form (tuple, slice, pointer, ...), kept as text.
    Other { text: String },
}

pub ghost enum TyShapeView {
    Path { last: Seq<char>, text: Seq<char> },
    Ref { mutable: bool, elem: Seq<char> },
    Other { text: Seq<char> },
}

impl View for TyShape {
    type V = TyShapeView;

    open spec fn view(&self) -> TyShapeView {
        match self {
            TyShape::Path { last, text } => TyShapeView::Path { last: last@, text: text@ },
            TyShape::Ref { mutable, elem } => TyShapeView::Ref { mutable: *mutable, elem: elem@ },
            TyShape::Other { text } => TyShapeView::Other { text: text@ },
        }
    }
}

/// A typed (non-receiver) parameter: its pattern text and its type shape.
#[derive(Debug)]
pub struct Param {
    pub pat: String,
    pub ty: TyShape,
}

pub ghost struct ParamView {
    pub pat: Seq<char>,
    pub ty: TyShapeView,
}

impl View for Param {
    type V = ParamView;

    open spec fn view(&self) -> ParamView {
        ParamView { pat: self.pat@, ty: self.ty@ }
    }
}

/// One entry of a function's parameter list: the receiver, or a typed
/// parameter.
#[derive(Debug)]
pub enum FnArg {
    Receiver { mutable: bool },
    Typed(Param),
}

pub ghost enum FnArgView {
    Receiver { mutable: bool },
    Typed(ParamView),
}

impl View for FnArg {
    type V = FnArgView;

    open spec fn view(&self) -> FnArgView {
        match self {
            FnArg::Receiver { mutable } => FnArgView::Receiver { mutable: *mutable },
            FnArg::Typed(p) => FnArgView::Typed(p@),
        }
    }
}

/// The view of a declared return type, `None` when none is declared.
pub open spec fn output_view(o: Option<TyShape>) -> Option<TyShapeView> {
    match o {
        Option::None => Option::None,
        Option::Some(t) => Option::Some(t@),
    }
}

/// The views of a parameter list.
pub open spec fn arg_views(args: Seq<FnArg>) -> Seq<FnArgView> {
    args.map_values(|a: FnArg| a@)
}

/// The views of a list of typed parameters.
pub open spec fn param_views(params: Seq<Param>) -> Seq<ParamView> {
    params.map_values(|p: Param| p@)
}

/// A declared function, as far as the generator reads it.
#[derive(Debug)]
pub struct FnDecl {
    pub name: String,
    pub is_pub: bool,
    pub inputs: Vec<FnArg>,
    /// The declared return type; `None` when the function declares none.
    pub output: Option<TyShape>,
}

pub ghost struct FnDeclView {
    pub name: Seq<char>,
    pub is_pub: bool,
    pub inputs: Seq<FnArgView>,
    pub output: Option<TyShapeView>,
}

impl View for FnDecl {
    type V = FnDeclView;

    open spec fn view(&self) -> FnDeclView {
        FnDeclView {
            name: self.name@,
            is_pub: self.is_pub,
            inputs: arg_views(self.inputs@),
            output: output_view(self.output),
        }
    }
}

/// A declared constant; only its name matters to the generator.
#[derive(Debug)]
pub struct ConstDecl {
    pub name: String,
}

pub ghost struct ConstDeclView {
    pub name: Seq<char>,
}

impl View for ConstDecl {
    type V = ConstDeclView;

    open spec fn view(&self) -> ConstDeclView {
        ConstDeclView { name: self.name@ }
    }
}

/// One member of the annotated block. Members that are neither functions nor
/// constants are never classified: they stay in the original block untouched.
#[derive(Debug)]
pub enum Member {
    Func(FnDecl),
    Constant(ConstDecl),
    Other,
}

pub ghost enum MemberView {
    Func(FnDeclView),
    Constant(ConstDeclView),
    Other,
}

impl View for Member {
    type V = MemberView;

    open spec fn view(&self) -> MemberView {
        match self {
            Member::Func(f) => MemberView::Func(f@),
            Member::Constant(c) => MemberView::Constant(c@),
            Member::Other => MemberView::Other,
        }
    }
}

/// The annotated `impl` block: the implemented type's source text and the
/// ordered members.
#[derive(Debug)]
pub struct ImplBlock {
    pub self_ty: String,
    pub members: Vec<Member>,
}

pub ghost struct ImplBlockView {
    pub self_ty: Seq<char>,
    pub members: Seq<MemberView>,
}

/// The views of a member list.
pub open spec fn member_views(members: Seq<Member>) -> Seq<MemberView> {
    members.map_values(|m: Member| m@)
}

impl View for ImplBlock {
    type V = ImplBlockView;

    open spec fn view(&self) -> ImplBlockView {
        ImplBlockView { self_ty: self.self_ty@, members: member_views(self.members@) }
    }
}

impl Clone for TyShape {
    fn clone(&self) -> (r: Self)
        ensures
            r@ == self@,
    {
        match self {
            TyShape::Path { last, text } => TyShape::Path {
                last: last.clone(),
                text: text.clone(),
            },
            TyShape::Ref { mutable, elem } => TyShape::Ref {
                mutable: *mutable,
                elem: elem.clone(),
            },
            TyShape::Other { text } => TyShape::Other { text: text.clone() },
        }
    }
}

impl Clone for Param {
    fn clone(&self) -> (r: Self)
        ensures
            r@ == self@,
    {
        Param { pat: self.pat.clone(), ty: self.ty.clone() }
    }
}

impl Clone for FnArg {
    fn clone(&self) -> (r: Self)
        ensures
            r@ == self@,
    {
        match self {
            FnArg::Receiver { mutable } => FnArg::Receiver { mutable: *mutable },
            FnArg::Typed(p) => FnArg::Typed(p.clone()),
        }
    }
}

impl Clone for FnDecl {
    fn clone(&self) -> (r: Self)
        ensures
            r@ == self@,
    {
        let mut inputs: Vec<FnArg> = Vec::new();
        let mut i: usize = 0;
        while i < self.inputs.len()
            invariant
                0 <= i <= self.inputs.len(),
                inputs@.len() == i,
                forall|j: int| 0 <= j < i ==> inputs@[j]@ == self.inputs@[j]@,
            decreases self.inputs.len() - i,
        {
            inputs.push(self.inputs[i].clone());
            i += 1;
        }
        let output = match &self.output {
            Option::None => Option::None,
            Option::Some(t) => Option::Some(t.clone()),
        };
        let r = FnDecl { name: self.name.clone(), is_pub: self.is_pub, inputs, output };
        proof {
            assert(arg_views(r.inputs@) =~= arg_views(self.inputs@));
        }
        r
    }
}

impl Clone for ConstDecl {
    fn clone(&self) -> (r: Self)
        ensures
            r@ == self@,
    {
        ConstDecl { name: self.name.clone() }
    }
}

} // verus!
