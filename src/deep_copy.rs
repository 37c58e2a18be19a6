//! Full copies of declaration records, for the moment a shared table must
//! be written to.

use vstd::prelude::*;
use crate::aast_defs::Tprim;
use crate::typing_defs::{
    ConstraintKind, FunElt, FunParam, FunParamV, FunType, Id, ShallowClass, Ty, TyV, Ty_, Tparam,
    TparamV, TypedefType, params_view, tparams_view, tys_view,
};

verus! {

/// Values that can be copied whole, contents and all.
pub trait DeepCopy: View + Sized {
    fn deep_copy(&self) -> (r: Self)
        ensures
            r@ == self@,
    ;
}

fn copy_tprim(p: &Tprim) -> (r: Tprim)
    ensures
        r == *p,
{
    match p {
        Tprim::Tnull => Tprim::Tnull,
        Tprim::Tvoid => Tprim::Tvoid,
        Tprim::Tint => Tprim::Tint,
        Tprim::Tbool => Tprim::Tbool,
        Tprim::Tfloat => Tprim::Tfloat,
        Tprim::Tstring => Tprim::Tstring,
        Tprim::Tresource => Tprim::Tresource,
        Tprim::Tnum => Tprim::Tnum,
        Tprim::Tarraykey => Tprim::Tarraykey,
        Tprim::Tnoreturn => Tprim::Tnoreturn,
        Tprim::Tatom(s) => Tprim::Tatom(s.clone()),
    }
}

fn copy_ty(t: &Ty) -> (r: Ty)
    ensures
        r@ == t@,
    decreases *t,
{
    let ty_ = match &*t.1 {
        Ty_::Tprim(p) => Ty_::Tprim(copy_tprim(p)),
        Ty_::Tapply(id, args) => Ty_::Tapply(Id(id.0, id.1.clone()), copy_tys(args)),
        Ty_::Tgeneric(n) => Ty_::Tgeneric(n.clone()),
        Ty_::Tany => Ty_::Tany,
    };
    Ty(t.0, Box::new(ty_))
}

fn copy_tys(v: &Vec<Ty>) -> (r: Vec<Ty>)
    ensures
        tys_view(r@) == tys_view(v@),
    decreases v,
{
    let mut out: Vec<Ty> = Vec::new();
    let mut i: usize = 0;
    while i < v.len()
        invariant
            i <= v@.len(),
            tys_view(out@) == tys_view(v@.subrange(0, i as int)),
        decreases v@.len() - i,
    {
        assert(decreases_to!(v => v@[i as int]));
        let t = copy_ty(&v[i]);
        let ghost before = out@;
        out.push(t);
        assert(out@.drop_last() == before);
        assert(v@.subrange(0, i + 1).drop_last() == v@.subrange(0, i as int));
        i = i + 1;
    }
    assert(v@.subrange(0, i as int) == v@);
    out
}

impl DeepCopy for Ty {
    fn deep_copy(&self) -> (r: Ty) {
        copy_ty(self)
    }
}

fn copy_constraints(v: &Vec<(ConstraintKind, Ty)>) -> (r: Vec<(ConstraintKind, Ty)>)
    ensures
        r@.map_values(|c: (ConstraintKind, Ty)| (c.0, c.1@)) == v@.map_values(|c: (ConstraintKind, Ty)| (c.0, c.1@)),
{
    let mut out: Vec<(ConstraintKind, Ty)> = Vec::new();
    let mut i: usize = 0;
    while i < v.len()
        invariant
            i <= v@.len(),
            out@.len() == i,
            forall|j: int| 0 <= j < i ==> out@[j].0 == v@[j].0 && out@[j].1@ == v@[j].1@,
        decreases v@.len() - i,
    {
        out.push((v[i].0, copy_ty(&v[i].1)));
        i = i + 1;
    }
    assert(out@.map_values(|c: (ConstraintKind, Ty)| (c.0, c.1@)) =~= v@.map_values(|c: (ConstraintKind, Ty)| (c.0, c.1@)));
    out
}

impl DeepCopy for Tparam {
    fn deep_copy(&self) -> (r: Tparam) {
        Tparam {
            variance: self.variance,
            name: Id(self.name.0, self.name.1.clone()),
            constraints: copy_constraints(&self.constraints),
        }
    }
}

fn copy_tparams(v: &Vec<Tparam>) -> (r: Vec<Tparam>)
    ensures
        tparams_view(r@) == tparams_view(v@),
{
    let mut out: Vec<Tparam> = Vec::new();
    let mut i: usize = 0;
    while i < v.len()
        invariant
            i <= v@.len(),
            out@.len() == i,
            forall|j: int| 0 <= j < i ==> out@[j]@ == v@[j]@,
        decreases v@.len() - i,
    {
        out.push(v[i].deep_copy());
        i = i + 1;
    }
    assert(tparams_view(out@) =~= tparams_view(v@));
    out
}

fn copy_params(v: &Vec<FunParam>) -> (r: Vec<FunParam>)
    ensures
        params_view(r@) == params_view(v@),
{
    let mut out: Vec<FunParam> = Vec::new();
    let mut i: usize = 0;
    while i < v.len()
        invariant
            i <= v@.len(),
            out@.len() == i,
            forall|j: int| 0 <= j < i ==> out@[j]@ == v@[j]@,
        decreases v@.len() - i,
    {
        out.push(FunParam { pos: v[i].pos, name: v[i].name.clone(), type_: copy_ty(&v[i].type_) });
        i = i + 1;
    }
    assert(params_view(out@) =~= params_view(v@));
    out
}

impl DeepCopy for FunElt {
    fn deep_copy(&self) -> (r: FunElt) {
        FunElt {
            pos: self.pos,
            type_: FunType {
                tparams: copy_tparams(&self.type_.tparams),
                params: copy_params(&self.type_.params),
                ret: copy_ty(&self.type_.ret),
                fun_kind: self.type_.fun_kind,
                arity: self.type_.arity,
            },
        }
    }
}

impl DeepCopy for TypedefType {
    fn deep_copy(&self) -> (r: TypedefType) {
        let constraint = match &self.constraint {
            Some(t) => Some(copy_ty(t)),
            None => None,
        };
        TypedefType {
            pos: self.pos,
            vis: self.vis,
            tparams: copy_tparams(&self.tparams),
            constraint,
            type_: copy_ty(&self.type_),
        }
    }
}

impl DeepCopy for ShallowClass {
    fn deep_copy(&self) -> (r: ShallowClass) {
        ShallowClass {
            name: Id(self.name.0, self.name.1.clone()),
            tparams: copy_tparams(&self.tparams),
            extends: copy_tys(&self.extends),
            implements: copy_tys(&self.implements),
        }
    }
}

impl DeepCopy for Vec<bool> {
    fn deep_copy(&self) -> (r: Vec<bool>) {
        let mut out: Vec<bool> = Vec::new();
        let mut i: usize = 0;
        while i < self.len()
            invariant
                i <= self@.len(),
                out@ == self@.subrange(0, i as int),
            decreases self@.len() - i,
        {
            out.push(self[i]);
            assert(self@.subrange(0, i + 1) == self@.subrange(0, i as int).push(self@[i as int]));
            i = i + 1;
        }
        assert(self@.subrange(0, i as int) == self@);
        out
    }
}

} // verus!
