//! Shapes of the abstract syntax that type hints and declarations share.

use vstd::prelude::*;
use crate::typing_defs::{ConstraintKind, Id};
use crate::pos::Pos;

verus! {

pub type Sid = Id;

#[derive(Clone, Copy, Debug, PartialEq, Eq, Structural)]
pub enum CallType {
    Cnormal,
    CuserFunc,
}

#[derive(Clone, Copy, Debug, PartialEq, Eq, Structural)]
pub enum FuncReactive {
    FReactive,
    FLocal,
    FShallow,
    FNonreactive,
}

#[derive(Clone, Copy, Debug, PartialEq, Eq, Structural)]
pub enum ParamMutability {
    PMutable,
    POwnedMutable,
    PMaybeMutable,
}

#[derive(Clone, Copy, Debug, PartialEq, Eq, Structural)]
pub enum ImportFlavor {
    Include,
    Require,
    IncludeOnce,
    RequireOnce,
}

#[derive(Debug)]
pub enum XhpChild {
    ChildName(Sid),
    ChildList(Vec<XhpChild>),
    ChildUnary(Box<XhpChild>, XhpChildOp),
    ChildBinary(Box<XhpChild>, Box<XhpChild>),
}

#[derive(Clone, Copy, Debug, PartialEq, Eq, Structural)]
pub enum XhpChildOp {
    ChildStar,
    ChildPlus,
    ChildQuestion,
}

/// How an argument is passed.
#[derive(Clone, Copy, Debug, PartialEq, Eq, Structural)]
pub enum ParamKind {
    Pinout,
}

/// A hint with the span it was written at.
#[derive(Debug)]
pub struct Hint(pub Pos, pub Box<Hint_>);

#[derive(Debug)]
pub struct HintFun {
    pub reactive_kind: FuncReactive,
    pub is_coroutine: bool,
    pub param_tys: Vec<Hint>,
    pub param_kinds: Vec<Option<ParamKind>>,
    pub param_mutability: Vec<Option<ParamMutability>>,
    pub variadic_ty: Option<Hint>,
    pub return_ty: Hint,
    pub is_mutable_return: bool,
}

#[derive(Debug)]
pub enum Hint_ {
    Hoption(Hint),
    Hlike(Hint),
    Hfun(HintFun),
    Htuple(Vec<Hint>),
    Happly(Sid, Vec<Hint>),
    Hshape(NastShapeInfo),
    Haccess(Hint, Vec<Sid>),
    Hsoft(Hint),
    Hany,
    Herr,
    Hmixed,
    Hnonnull,
    Habstr(String),
    Harray(Option<Hint>, Option<Hint>),
    Hdarray(Hint, Hint),
    Hvarray(Hint),
    HvarrayOrDarray(Hint),
    Hprim(Tprim),
    Hthis,
    Hdynamic,
    Hnothing,
    HpuAccess(Hint, Sid),
    Hunion(Vec<Hint>),
    Hintersection(Vec<Hint>),
}

/// A primitive type.
#[derive(Debug)]
pub enum Tprim {
    Tnull,
    Tvoid,
    Tint,
    Tbool,
    Tfloat,
    Tstring,
    Tresource,
    Tnum,
    Tarraykey,
    Tnoreturn,
    Tatom(String),
}

/// The name of a shape field: an integer or string literal, or a class constant.
#[derive(Debug)]
pub enum ShapeFieldName {
    SFlitInt(Pos, String),
    SFlitStr(Pos, String),
    SFclassConst(Id, Pos, String),
}

#[derive(Debug)]
pub struct ShapeFieldInfo {
    pub optional: bool,
    pub hint: Hint,
    pub name: ShapeFieldName,
}

#[derive(Debug)]
pub struct NastShapeInfo {
    pub allows_unknown_fields: bool,
    pub field_map: Vec<ShapeFieldInfo>,
}

#[derive(Clone, Copy, Debug, PartialEq, Eq, Structural)]
pub enum KvcKind {
    Map_,
    ImmMap,
    Dict,
}

#[derive(Clone, Copy, Debug, PartialEq, Eq, Structural)]
pub enum VcKind {
    Vector,
    ImmVector,
    Vec,
    Set_,
    ImmSet,
    Pair_,
    Keyset,
}

#[derive(Clone, Copy, Debug, PartialEq, Eq, Structural)]
pub enum Visibility {
    Private,
    Public,
    Protected,
}

#[derive(Clone, Copy, Debug, PartialEq, Eq, Structural)]
pub enum UseAsVisibility {
    UseAsPublic,
    UseAsPrivate,
    UseAsProtected,
    UseAsFinal,
}

#[derive(Clone, Copy, Debug, PartialEq, Eq, Structural)]
pub enum TypedefVisibility {
    Transparent,
    Opaque,
}

#[derive(Debug)]
pub struct Enum_ {
    pub base: Hint,
    pub constraint: Option<Hint>,
}

#[derive(Debug)]
pub struct WhereConstraint(pub Hint, pub ConstraintKind, pub Hint);

} // verus!
