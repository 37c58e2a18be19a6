//! Declared types and the declaration records that the extractor fills in,
//! each with a view that contracts speak of.

use vstd::prelude::*;
use crate::pos::Pos;
use crate::aast_defs::{Tprim, TypedefVisibility};

verus! {

/// A name with the span it was written at.
#[derive(Clone, Debug)]
pub struct Id(pub Pos, pub String);

#[derive(Clone, Copy, Debug, PartialEq, Eq, Structural)]
pub enum ConstraintKind {
    ConstraintAs,
    ConstraintEq,
    ConstraintSuper,
}

#[derive(Clone, Copy, Debug, PartialEq, Eq, Structural)]
pub enum Variance {
    Covariant,
    Contravariant,
    Invariant,
}

/// Whether a function is asynchronous, a generator, both, or neither.
#[derive(Clone, Copy, Debug, PartialEq, Eq, Structural)]
pub enum FunKind {
    FSync,
    FAsync,
    FGenerator,
    FAsyncGenerator,
    FCoroutine,
}

/// A declared type: the span of the hint it came from, and its shape.
#[derive(Debug)]
pub struct Ty(pub Pos, pub Box<Ty_>);

#[derive(Debug)]
pub enum Ty_ {
    /// A primitive type.
    Tprim(Tprim),
    /// A nominal type applied to arguments.
    Tapply(Id, Vec<Ty>),
    /// A reference to a type parameter in scope.
    Tgeneric(String),
    /// No hint was written.
    Tany,
}

/// A declared type with names as character sequences.
pub enum TyV {
    Prim(Pos, Tprim),
    Apply(Pos, Pos, Seq<char>, Seq<TyV>),
    Generic(Pos, Seq<char>),
    Any(Pos),
}

pub open spec fn ty_view(t: Ty) -> TyV
    decreases t,
{
    match *t.1 {
        Ty_::Tprim(p) => TyV::Prim(t.0, p),
        Ty_::Tapply(id, args) => TyV::Apply(t.0, id.0, id.1@, tys_view(args@)),
        Ty_::Tgeneric(n) => TyV::Generic(t.0, n@),
        Ty_::Tany => TyV::Any(t.0),
    }
}

pub open spec fn tys_view(s: Seq<Ty>) -> Seq<TyV>
    decreases s,
{
    if s.len() == 0 {
        Seq::empty()
    } else {
        tys_view(s.drop_last()).push(ty_view(s.last()))
    }
}

impl View for Ty {
    type V = TyV;

    open spec fn view(&self) -> TyV {
        ty_view(*self)
    }
}

/// A type parameter of a declaration.
#[derive(Debug)]
pub struct Tparam {
    pub variance: Variance,
    pub name: Id,
    pub constraints: Vec<(ConstraintKind, Ty)>,
}

pub struct TparamV {
    pub variance: Variance,
    pub pos: Pos,
    pub name: Seq<char>,
    pub constraints: Seq<(ConstraintKind, TyV)>,
}

impl View for Tparam {
    type V = TparamV;

    open spec fn view(&self) -> TparamV {
        TparamV {
            variance: self.variance,
            pos: self.name.0,
            name: self.name.1@,
            constraints: self.constraints@.map_values(|c: (ConstraintKind, Ty)| (c.0, c.1@)),
        }
    }
}

pub open spec fn tparams_view(s: Seq<Tparam>) -> Seq<TparamV> {
    s.map_values(|t: Tparam| t@)
}

/// A parameter of a function: where it stands, its name and its type.
#[derive(Debug)]
pub struct FunParam {
    pub pos: Pos,
    pub name: String,
    pub type_: Ty,
}

pub struct FunParamV {
    pub pos: Pos,
    pub name: Seq<char>,
    pub ty: TyV,
}

impl View for FunParam {
    type V = FunParamV;

    open spec fn view(&self) -> FunParamV {
        FunParamV { pos: self.pos, name: self.name@, ty: self.type_@ }
    }
}

pub open spec fn params_view(s: Seq<FunParam>) -> Seq<FunParamV> {
    s.map_values(|p: FunParam| p@)
}

/// The signature of a function. Its arity is the number of its parameters.
#[derive(Debug)]
pub struct FunType {
    pub tparams: Vec<Tparam>,
    pub params: Vec<FunParam>,
    pub ret: Ty,
    pub fun_kind: FunKind,
    pub arity: usize,
}

/// A declared function.
#[derive(Debug)]
pub struct FunElt {
    pub pos: Pos,
    pub type_: FunType,
}

pub struct FunEltV {
    pub pos: Pos,
    pub tparams: Seq<TparamV>,
    pub params: Seq<FunParamV>,
    pub ret: TyV,
    pub fun_kind: FunKind,
    pub arity: nat,
}

impl View for FunElt {
    type V = FunEltV;

    open spec fn view(&self) -> FunEltV {
        FunEltV {
            pos: self.pos,
            tparams: tparams_view(self.type_.tparams@),
            params: params_view(self.type_.params@),
            ret: self.type_.ret@,
            fun_kind: self.type_.fun_kind,
            arity: self.type_.arity as nat,
        }
    }
}

/// A declared type alias.
#[derive(Debug)]
pub struct TypedefType {
    pub pos: Pos,
    pub vis: TypedefVisibility,
    pub tparams: Vec<Tparam>,
    pub constraint: Option<Ty>,
    pub type_: Ty,
}

pub struct TypedefV {
    pub pos: Pos,
    pub vis: TypedefVisibility,
    pub tparams: Seq<TparamV>,
    pub constraint: Option<TyV>,
    pub ty: TyV,
}

impl View for TypedefType {
    type V = TypedefV;

    open spec fn view(&self) -> TypedefV {
        TypedefV {
            pos: self.pos,
            vis: self.vis,
            tparams: tparams_view(self.tparams@),
            constraint: match self.constraint {
                Some(t) => Some(t@),
                None => None,
            },
            ty: self.type_@,
        }
    }
}

/// A declared class, interface or trait: its name, and its structural parts,
/// which this extractor leaves empty.
#[derive(Debug)]
pub struct ShallowClass {
    pub name: Id,
    pub tparams: Vec<Tparam>,
    pub extends: Vec<Ty>,
    pub implements: Vec<Ty>,
}

pub struct ShallowClassV {
    pub pos: Pos,
    pub name: Seq<char>,
    pub tparams: Seq<TparamV>,
    pub extends: Seq<TyV>,
    pub implements: Seq<TyV>,
}

impl View for ShallowClass {
    type V = ShallowClassV;

    open spec fn view(&self) -> ShallowClassV {
        ShallowClassV {
            pos: self.name.0,
            name: self.name.1@,
            tparams: tparams_view(self.tparams@),
            extends: tys_view(self.extends@),
            implements: tys_view(self.implements@),
        }
    }
}

} // verus!
