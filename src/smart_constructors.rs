//! The reducer: callbacks that the parser invokes for tokens and for each
//! grammar production, which track the namespace and the functions entered
//! and fill the declaration table as declarations complete.

use vstd::prelude::*;
use std::rc::Rc;
use crate::deep_copy::DeepCopy;
use crate::aast_defs::{Tprim, TypedefVisibility};
use crate::decl_map::DeclMap;
use crate::names::{get_name, name_of, starts_with, in_namespace, same_chars};
use crate::namespace::{NamespaceBuilder, NamespaceBuilderV, NamespaceTypeV, current_ns, ns_seed, closed, can_pop, popped, strings_view, named, delimited_namespace_nests_and_pops};
use crate::node::{DeclError, Expected, HintValue, Node, Node_, VariableDecl, FunctionDecl, kind_of, into_vec_spec, pos_of, is_zero};
use crate::pos::{Pos, merge_spec};
use crate::token::{Token, TokenKind, token_pos};
use crate::typing_defs::{
    ConstraintKind, FunElt, FunEltV, FunKind, FunParam, FunParamV, FunType, Id, ShallowClass,
    ShallowClassV, Ty, TyV, Ty_, Tparam, TparamV, TypedefType, TypedefV, Variance, tys_view,
    tparams_view, params_view,
};

verus! {

/// The declarations found so far, one map per kind.
pub struct InProgressDecls {
    pub classes: DeclMap<ShallowClass>,
    pub funs: DeclMap<FunElt>,
    pub typedefs: DeclMap<TypedefType>,
    pub consts: DeclMap<Ty>,
}

pub struct DeclsV {
    pub classes: Map<Seq<char>, ShallowClassV>,
    pub funs: Map<Seq<char>, FunEltV>,
    pub typedefs: Map<Seq<char>, TypedefV>,
    pub consts: Map<Seq<char>, TyV>,
}

impl View for InProgressDecls {
    type V = DeclsV;

    open spec fn view(&self) -> DeclsV {
        DeclsV {
            classes: self.classes@,
            funs: self.funs@,
            typedefs: self.typedefs@,
            consts: self.consts@,
        }
    }
}

pub open spec fn no_decls() -> DeclsV {
    DeclsV {
        classes: Map::empty(),
        funs: Map::empty(),
        typedefs: Map::empty(),
        consts: Map::empty(),
    }
}

/// An empty declaration table.
pub fn empty_decls() -> (r: InProgressDecls)
    ensures
        r@ == no_decls(),
{
    InProgressDecls {
        classes: DeclMap::new(),
        funs: DeclMap::new(),
        typedefs: DeclMap::new(),
        consts: DeclMap::new(),
    }
}

impl DeepCopy for InProgressDecls {
    fn deep_copy(&self) -> (r: InProgressDecls) {
        InProgressDecls {
            classes: self.classes.deep_copy(),
            funs: self.funs.deep_copy(),
            typedefs: self.typedefs.deep_copy(),
            consts: self.consts.deep_copy(),
        }
    }
}

/// Relies on `Rc::clone`: the new handle points to the same value.
#[verifier::external_body]
fn share<T>(rc: &Rc<T>) -> (r: Rc<T>)
    ensures
        *r == **rc,
{
    Rc::clone(rc)
}

/// The value behind a handle, owned: taken over when no other handle shares
/// it, copied otherwise.
fn owned<T: DeepCopy>(rc: Rc<T>) -> (r: T)
    ensures
        r@ == (*rc)@,
{
    match Rc::try_unwrap(rc) {
        Ok(v) => v,
        Err(shared) => (*shared).deep_copy(),
    }
}

/// Takes the value out of `slot` for writing, leaving `empty` behind.
fn take_owned<T: DeepCopy>(slot: &mut Rc<T>, empty: T) -> (r: T)
    ensures
        r@ == (**old(slot))@,
        **final(slot) == empty,
{
    let mut tmp = Rc::new(empty);
    core::mem::swap(slot, &mut tmp);
    owned(tmp)
}

/// What one extraction pass carries: the table, the namespace state, and one
/// flag per function entered that records whether it yields. Each part sits
/// behind a shared handle: a copy of the state shares all three, and a step
/// that writes to a part copies that part only, and only while it is shared.
pub struct State {
    decls: Rc<InProgressDecls>,
    namespace_builder: Rc<NamespaceBuilder>,
    yields: Rc<Vec<bool>>,
}

pub struct StateV {
    pub decls: DeclsV,
    pub ns: NamespaceBuilderV,
    pub yields: Seq<bool>,
}

impl View for State {
    type V = StateV;

    closed spec fn view(&self) -> StateV {
        StateV { decls: (*self.decls)@, ns: (*self.namespace_builder)@, yields: (*self.yields)@ }
    }
}

impl State {
    /// The state at the start of a file.
    pub fn new() -> (r: State)
        ensures
            r@.decls == no_decls(),
            r@.ns == NamespaceBuilder::new_spec(),
            r@.yields == Seq::<bool>::empty(),
    {
        State {
            decls: Rc::new(empty_decls()),
            namespace_builder: Rc::new(NamespaceBuilder::new()),
            yields: Rc::new(Vec::new()),
        }
    }

    /// A state equal to this one that shares all its parts.
    pub fn share(&self) -> (r: State)
        ensures
            r@ == self@,
    {
        State {
            decls: share(&self.decls),
            namespace_builder: share(&self.namespace_builder),
            yields: share(&self.yields),
        }
    }

    pub fn namespace_builder(&self) -> (r: &NamespaceBuilder)
        ensures
            r@ == self@.ns,
    {
        &self.namespace_builder
    }

    /// The namespace state, owned for writing; put it back with `set_namespace_builder`.
    fn take_namespace_builder(&mut self) -> (r: NamespaceBuilder)
        ensures
            r@ == old(self)@.ns,
            final(self)@ == (StateV { ns: NamespaceBuilder::new_spec(), ..old(self)@ }),
    {
        take_owned(&mut self.namespace_builder, NamespaceBuilder::new())
    }

    fn set_namespace_builder(&mut self, nb: NamespaceBuilder)
        ensures
            final(self)@ == (StateV { ns: nb@, ..old(self)@ }),
    {
        self.namespace_builder = Rc::new(nb);
    }

    /// The yield flags, owned for writing; put them back with `set_yields`.
    fn take_yields(&mut self) -> (r: Vec<bool>)
        ensures
            r@ == old(self)@.yields,
            final(self)@ == (StateV { yields: Seq::empty(), ..old(self)@ }),
    {
        take_owned(&mut self.yields, Vec::new())
    }

    fn set_yields(&mut self, y: Vec<bool>)
        ensures
            final(self)@ == (StateV { yields: y@, ..old(self)@ }),
    {
        self.yields = Rc::new(y);
    }

    /// The table, owned for writing; put it back with `set_decls`.
    fn take_decls(&mut self) -> (r: InProgressDecls)
        ensures
            r@ == old(self)@.decls,
            final(self)@ == (StateV { decls: no_decls(), ..old(self)@ }),
    {
        take_owned(&mut self.decls, empty_decls())
    }

    fn set_decls(&mut self, d: InProgressDecls)
        ensures
            final(self)@ == (StateV { decls: d@, ..old(self)@ }),
    {
        self.decls = Rc::new(d);
    }

    /// The table, owned.
    pub fn into_decls(self) -> (r: InProgressDecls)
        ensures
            r@ == self@.decls,
    {
        owned(self.decls)
    }
}

/// The state after one token.
pub open spec fn token_state(s: StateV, t: Token) -> StateV {
    match t.kind {
        TokenKind::Name | TokenKind::Variable => if s.ns.building {
            StateV { ns: NamespaceBuilderV { in_progress: s.ns.in_progress + t.text@, ..s.ns }, ..s }
        } else {
            s
        },
        TokenKind::Backslash => if s.ns.building {
            StateV { ns: NamespaceBuilderV { in_progress: s.ns.in_progress.push('\\'), ..s.ns }, ..s }
        } else {
            s
        },
        TokenKind::Function => StateV { yields: s.yields.push(false), ..s },
        TokenKind::Yield => StateV {
            yields: (if s.yields.len() > 0 { s.yields.drop_last() } else { s.yields }).push(true),
            ..s
        },
        TokenKind::Namespace => StateV {
            ns: NamespaceBuilderV { in_progress: ns_seed(s.ns), building: true, ..s.ns },
            ..s
        },
        TokenKind::LeftBrace | TokenKind::Semicolon => if s.ns.building {
            StateV { ns: closed(s.ns, t.kind == TokenKind::LeftBrace), ..s }
        } else {
            s
        },
        _ => s,
    }
}

/// The node that one token reduces to.
pub open spec fn token_node(s: StateV, t: Token, r: Node_) -> bool {
    let p = token_pos(t);
    match t.kind {
        TokenKind::Name | TokenKind::Variable => if s.ns.building {
            r is Ignored
        } else {
            match r {
                Node_::Name(n, q) => n@ == t.text@ && q == p,
                _ => false,
            }
        },
        TokenKind::XHPClassName => match r {
            Node_::XhpName(n, q) => n@ == t.text@ && q == p,
            _ => false,
        },
        TokenKind::String => r == Node_::Hint(HintValue::String, p),
        TokenKind::Int => r == Node_::Hint(HintValue::Int, p),
        TokenKind::Float => r == Node_::Hint(HintValue::Float, p),
        TokenKind::Num => r == Node_::Hint(HintValue::Num, p),
        TokenKind::Bool => r == Node_::Hint(HintValue::Bool, p),
        TokenKind::Void => r == Node_::Hint(HintValue::Void, p),
        TokenKind::Double | TokenKind::Boolean => match r {
            Node_::Hint(HintValue::Apply(id, args), q) => id.0 == p && id.1@ == t.text@ && args@.len() == 0 && q == p,
            _ => false,
        },
        TokenKind::Backslash => if s.ns.building {
            r is Ignored
        } else {
            r == Node_::Backslash(p)
        },
        TokenKind::LessThan => r == Node_::LessThan(p),
        TokenKind::GreaterThan => r == Node_::GreaterThan(p),
        TokenKind::As => r is As,
        TokenKind::Super => r is Super,
        TokenKind::Async => r is Async,
        _ => r is Ignored,
    }
}

/// The declaration extractor: the parser calls one of its methods for each
/// token and each reduced production.
pub struct DirectDeclSmartConstructors {
    pub state: State,
}

impl View for DirectDeclSmartConstructors {
    type V = StateV;

    open spec fn view(&self) -> StateV {
        self.state@
    }
}

impl DirectDeclSmartConstructors {
    pub fn new() -> (r: DirectDeclSmartConstructors)
        ensures
            r@.decls == no_decls(),
            r@.ns == NamespaceBuilder::new_spec(),
            r@.yields == Seq::<bool>::empty(),
    {
        DirectDeclSmartConstructors { state: State::new() }
    }

    /// An extractor in the same state that shares it until one of the two
    /// writes: the parser takes one at each speculative branch.
    pub fn share(&self) -> (r: DirectDeclSmartConstructors)
        ensures
            r@ == self@,
    {
        DirectDeclSmartConstructors { state: self.state.share() }
    }

    /// A token: while a namespace name is being read, names and separators
    /// go into it; `function` and `yield` record what the function being
    /// entered is; `namespace`, `{` and `;` drive the namespace state.
    pub fn make_token(&mut self, token: Token) -> (r: Node)
        ensures
            final(self)@ == token_state(old(self)@, token),
            r is Ok && token_node(old(self)@, token, r->Ok_0),
    {
        let pos = Pos::new(token.start, token.end);
        let kind = token.kind;
        let building = self.state.namespace_builder().is_building();
        proof { reveal_strlit("\\"); }
        let node = match kind {
            TokenKind::Name | TokenKind::Variable => if building {
                let mut nb = self.state.take_namespace_builder();
                nb.append(token.text.as_str());
                self.state.set_namespace_builder(nb);
                Node_::Ignored
            } else {
                Node_::Name(token.text, pos)
            },
            TokenKind::XHPClassName => Node_::XhpName(token.text, pos),
            TokenKind::String => Node_::Hint(HintValue::String, pos),
            TokenKind::Int => Node_::Hint(HintValue::Int, pos),
            TokenKind::Float => Node_::Hint(HintValue::Float, pos),
            TokenKind::Double | TokenKind::Boolean => Node_::Hint(
                HintValue::Apply(Id(pos, token.text), Vec::new()),
                pos,
            ),
            TokenKind::Num => Node_::Hint(HintValue::Num, pos),
            TokenKind::Bool => Node_::Hint(HintValue::Bool, pos),
            TokenKind::Void => Node_::Hint(HintValue::Void, pos),
            TokenKind::Backslash => if building {
                let mut nb = self.state.take_namespace_builder();
                let ghost before = nb@.in_progress;
                nb.append("\\");
                assert("\\"@ =~= seq!['\\']);
                assert(nb@.in_progress =~= before.push('\\'));
                self.state.set_namespace_builder(nb);
                Node_::Ignored
            } else {
                Node_::Backslash(pos)
            },
            TokenKind::LessThan => Node_::LessThan(pos),
            TokenKind::GreaterThan => Node_::GreaterThan(pos),
            TokenKind::As => Node_::As,
            TokenKind::Super => Node_::Super,
            TokenKind::Async => Node_::Async,
            TokenKind::Function => {
                let mut y = self.state.take_yields();
                y.push(false);
                self.state.set_yields(y);
                Node_::Ignored
            },
            TokenKind::Yield => {
                let mut y = self.state.take_yields();
                let _ = y.pop();
                y.push(true);
                self.state.set_yields(y);
                Node_::Ignored
            },
            TokenKind::Namespace => {
                let mut nb = self.state.take_namespace_builder();
                nb.begin_namespace();
                self.state.set_namespace_builder(nb);
                Node_::Ignored
            },
            TokenKind::LeftBrace | TokenKind::Semicolon => {
                if building {
                    let mut nb = self.state.take_namespace_builder();
                    nb.close_namespace(kind == TokenKind::LeftBrace);
                    self.state.set_namespace_builder(nb);
                }
                Node_::Ignored
            },
            TokenKind::Other => Node_::Ignored,
        };
        Ok(node)
    }
}

/// A name made absolute: kept when it starts with a separator, else put
/// under the namespace `ns` behind one leading separator.
pub open spec fn prefix_ns_spec(ns: Seq<char>, name: Seq<char>) -> Seq<char> {
    if name.len() > 0 && name[0] == '\\' {
        name
    } else if ns.len() == 0 {
        seq!['\\'] + name
    } else {
        seq!['\\'] + ns + seq!['\\'] + name
    }
}

/// A name with one leading separator.
pub open spec fn prefix_slash_spec(name: Seq<char>) -> Seq<char> {
    if name.len() > 0 && name[0] == '\\' {
        name
    } else {
        seq!['\\'] + name
    }
}

/// The declared type that a hint node resolves to under namespace `ns`, with
/// `tvars` the type parameters in scope.
pub open spec fn ty_of(ns: Seq<char>, n: Node_, tvars: Seq<Seq<char>>) -> Result<TyV, DeclError>
    decreases n,
{
    match n {
        Node_::Hint(hv, pos) => match hv {
            HintValue::Void => Ok(TyV::Prim(pos, Tprim::Tvoid)),
            HintValue::Int => Ok(TyV::Prim(pos, Tprim::Tint)),
            HintValue::Bool => Ok(TyV::Prim(pos, Tprim::Tbool)),
            HintValue::Float => Ok(TyV::Prim(pos, Tprim::Tfloat)),
            HintValue::String => Ok(TyV::Prim(pos, Tprim::Tstring)),
            HintValue::Num => Ok(TyV::Prim(pos, Tprim::Tnum)),
            HintValue::ArrayKey => Ok(TyV::Prim(pos, Tprim::Tarraykey)),
            HintValue::NoReturn => Ok(TyV::Prim(pos, Tprim::Tnoreturn)),
            HintValue::Apply(id, args) => match tys_of(ns, args@, tvars) {
                Ok(ts) => Ok(TyV::Apply(pos, id.0, id.1@, ts)),
                Err(e) => Err(e),
            },
        },
        _ => match name_of(Seq::empty(), n) {
            Ok((name, p)) => if tvars.contains(name) {
                Ok(TyV::Generic(p, name))
            } else {
                Ok(TyV::Apply(p, p, prefix_ns_spec(ns, name), Seq::empty()))
            },
            Err(e) => Err(e),
        },
    }
}

/// The declared types of a sequence of hint nodes; the first error wins.
pub open spec fn tys_of(ns: Seq<char>, s: Seq<Node_>, tvars: Seq<Seq<char>>) -> Result<Seq<TyV>, DeclError>
    decreases s,
{
    if s.len() == 0 {
        Ok(Seq::empty())
    } else {
        match tys_of(ns, s.drop_last(), tvars) {
            Err(e) => Err(e),
            Ok(acc) => match ty_of(ns, s.last(), tvars) {
                Err(e) => Err(e),
                Ok(t) => Ok(acc.push(t)),
            },
        }
    }
}

/// The declared type of a hint in a signature: a missing hint stands for
/// any type, at `pos`.
pub open spec fn hint_ty_of(ns: Seq<char>, hint: Node_, tvars: Seq<Seq<char>>, pos: Pos) -> Result<TyV, DeclError> {
    if hint is Ignored {
        Ok(TyV::Any(pos))
    } else {
        ty_of(ns, hint, tvars)
    }
}

pub open spec fn ty_result(r: Result<Ty, DeclError>, s: Result<TyV, DeclError>) -> bool {
    match (r, s) {
        (Ok(t), Ok(v)) => t@ == v,
        (Err(e), Err(f)) => e == f,
        _ => false,
    }
}

/// The parameters of a parameter-list node; each must be a variable.
pub open spec fn params_of(ns: Seq<char>, list: Node_, tvars: Seq<Seq<char>>) -> Result<Seq<FunParamV>, DeclError> {
    match list {
        Node_::List(nodes) => params_seq(ns, nodes@, tvars),
        Node_::Ignored => Ok(Seq::empty()),
        _ => Err(DeclError::Unexpected(Expected::VariableList, kind_of(list))),
    }
}

pub open spec fn params_seq(ns: Seq<char>, s: Seq<Node_>, tvars: Seq<Seq<char>>) -> Result<Seq<FunParamV>, DeclError>
    decreases s.len(),
{
    if s.len() == 0 {
        Ok(Seq::empty())
    } else {
        match params_seq(ns, s.drop_last(), tvars) {
            Err(e) => Err(e),
            Ok(acc) => match s.last() {
                Node_::Variable(v) => match hint_ty_of(ns, v.hint, tvars, v.pos) {
                    Ok(t) => Ok(acc.push(FunParamV { pos: v.pos, name: v.name@, ty: t })),
                    Err(e) => Err(e),
                },
                n => Err(DeclError::Unexpected(Expected::Variable, kind_of(n))),
            },
        }
    }
}

/// The constraints of a type parameter, resolved with no type parameter in scope.
pub open spec fn constraints_of(ns: Seq<char>, s: Seq<(ConstraintKind, Node_)>) -> Result<Seq<(ConstraintKind, TyV)>, DeclError>
    decreases s.len(),
{
    if s.len() == 0 {
        Ok(Seq::empty())
    } else {
        match constraints_of(ns, s.drop_last()) {
            Err(e) => Err(e),
            Ok(acc) => match ty_of(ns, s.last().1, Seq::empty()) {
                Ok(t) => Ok(acc.push((s.last().0, t))),
                Err(e) => Err(e),
            },
        }
    }
}

/// The type parameters of a declaration, and their names in order.
pub open spec fn tparams_of(ns: Seq<char>, s: Seq<Node_>) -> Result<(Seq<TparamV>, Seq<Seq<char>>), DeclError>
    decreases s.len(),
{
    if s.len() == 0 {
        Ok((Seq::empty(), Seq::empty()))
    } else {
        match tparams_of(ns, s.drop_last()) {
            Err(e) => Err(e),
            Ok((tps, names)) => match s.last() {
                Node_::TypeParameter(b) => match name_of(Seq::empty(), b.0) {
                    Err(e) => Err(e),
                    Ok((name, pos)) => match constraints_of(ns, b.1@) {
                        Err(e) => Err(e),
                        Ok(cs) => Ok((
                            tps.push(TparamV { variance: Variance::Invariant, pos, name, constraints: cs }),
                            names.push(name),
                        )),
                    },
                },
                n => Err(DeclError::Unexpected(Expected::TypeParameter, kind_of(n))),
            },
        }
    }
}

/// The kind of a function from whether it is marked async and whether it yields.
pub open spec fn fun_kind_of(yields: bool, is_async: bool) -> FunKind {
    if yields {
        if is_async { FunKind::FAsyncGenerator } else { FunKind::FGenerator }
    } else {
        if is_async { FunKind::FAsync } else { FunKind::FSync }
    }
}

pub open spec fn has_async(mods: Seq<Node_>) -> bool {
    exists|i: int| 0 <= i < mods.len() && mods[i] is Async
}

pub open spec fn strings_contain(v: Seq<String>, s: Seq<char>) -> bool {
    strings_view(v).contains(s)
}

impl DirectDeclSmartConstructors {
    /// The namespace in effect.
    pub open spec fn ns_spec(&self) -> Seq<char> {
        current_ns(self@.ns)
    }

    /// `name` made absolute under the current namespace.
    fn prefix_ns(&self, name: String) -> (r: String)
        ensures
            r@ == prefix_ns_spec(self.ns_spec(), name@),
    {
        proof {
            reveal_strlit("\\");
            assert("\\"@ =~= seq!['\\']);
        }
        let lead = starts_with(name.as_str(), "\\");
        proof {
            if name@.len() > 0 && name@[0] == '\\' {
                assert(name@.subrange(0, 1) =~= seq!['\\']);
            }
            if lead {
                assert(name@.subrange(0, 1)[0] == name@[0]);
            }
        }
        if lead {
            return name;
        }
        let ns = self.state.namespace_builder().current_namespace();
        let mut r = String::new();
        r.append("\\");
        if ns.unicode_len() == 0 {
            r.append(name.as_str());
            assert(r@ =~= seq!['\\'] + name@);
        } else {
            r.append(ns);
            r.append("\\");
            r.append(name.as_str());
            assert(r@ =~= seq!['\\'] + ns@ + seq!['\\'] + name@);
        }
        r
    }

    /// `name` with one leading separator.
    fn prefix_slash(&self, name: String) -> (r: String)
        ensures
            r@ == prefix_slash_spec(name@),
    {
        proof {
            reveal_strlit("\\");
            assert("\\"@ =~= seq!['\\']);
        }
        let lead = starts_with(name.as_str(), "\\");
        proof {
            if name@.len() > 0 && name@[0] == '\\' {
                assert(name@.subrange(0, 1) =~= seq!['\\']);
            }
            if lead {
                assert(name@.subrange(0, 1)[0] == name@[0]);
            }
        }
        if lead {
            name
        } else {
            let mut r = String::new();
            r.append("\\");
            r.append(name.as_str());
            assert(r@ =~= seq!['\\'] + name@);
            r
        }
    }

    /// The declared types of a sequence of hint nodes.
    fn nodes_to_tys(&self, inner: &Vec<Node_>, type_variables: &Vec<String>) -> (r: Result<Vec<Ty>, DeclError>)
        ensures
            match (r, tys_of(self.ns_spec(), inner@, strings_view(type_variables@))) {
                (Ok(v), Ok(s)) => tys_view(v@) == s,
                (Err(e), Err(f)) => e == f,
                _ => false,
            },
        decreases inner,
    {
        let ghost ns = self.ns_spec();
        let ghost tv = strings_view(type_variables@);
        let mut tys: Vec<Ty> = Vec::new();
        let mut i: usize = 0;
        while i < inner.len()
            invariant
                i <= inner@.len(),
                ns == self.ns_spec(),
                tv == strings_view(type_variables@),
                tys_of(ns, inner@.subrange(0, i as int), tv) == Ok::<Seq<TyV>, DeclError>(tys_view(tys@)),
            decreases inner@.len() - i,
        {
            assert(decreases_to!(inner => inner@[i as int]));
            let t = self.node_to_ty(&inner[i], type_variables);
            assert(inner@.subrange(0, i + 1).drop_last() == inner@.subrange(0, i as int));
            assert(inner@.subrange(0, i + 1).last() == inner@[i as int]);
            match t {
                Ok(t) => {
                    let ghost before = tys@;
                    tys.push(t);
                    assert(tys@.drop_last() == before);
                },
                Err(e) => {
                    assert(tys_of(ns, inner@.subrange(0, i + 1), tv) == Err::<Seq<TyV>, DeclError>(e));
                    proof { lemma_tys_err_prefix(ns, inner@, tv, i as int + 1); }
                    return Err(e);
                },
            }
            i = i + 1;
        }
        assert(inner@.subrange(0, i as int) == inner@);
        Ok(tys)
    }

    /// The declared type of a hint node.
    pub fn node_to_ty(&self, node: &Node_, type_variables: &Vec<String>) -> (r: Result<Ty, DeclError>)
        ensures
            ty_result(r, ty_of(self.ns_spec(), *node, strings_view(type_variables@))),
        decreases *node,
    {
        let ghost ns = self.ns_spec();
        let ghost tv = strings_view(type_variables@);
        match node {
            Node_::Hint(hv, pos) => {
                let ty_ = match hv {
                    HintValue::Void => Ty_::Tprim(Tprim::Tvoid),
                    HintValue::Int => Ty_::Tprim(Tprim::Tint),
                    HintValue::Bool => Ty_::Tprim(Tprim::Tbool),
                    HintValue::Float => Ty_::Tprim(Tprim::Tfloat),
                    HintValue::String => Ty_::Tprim(Tprim::Tstring),
                    HintValue::Num => Ty_::Tprim(Tprim::Tnum),
                    HintValue::ArrayKey => Ty_::Tprim(Tprim::Tarraykey),
                    HintValue::NoReturn => Ty_::Tprim(Tprim::Tnoreturn),
                    HintValue::Apply(id, inner) => {
                        let tys = self.nodes_to_tys(inner, type_variables)?;
                        Ty_::Tapply(Id(id.0, id.1.clone()), tys)
                    },
                };
                Ok(Ty(*pos, Box::new(ty_)))
            },
            n => {
                let (name, pos) = get_name("", n)?;
                proof { reveal_strlit(""); }
                if contains_string(type_variables, name.as_str()) {
                    Ok(Ty(pos, Box::new(Ty_::Tgeneric(name))))
                } else {
                    let name = self.prefix_ns(name);
                    Ok(Ty(pos, Box::new(Ty_::Tapply(Id(pos, name), Vec::new()))))
                }
            },
        }
    }
}

proof fn lemma_tys_err_prefix(ns: Seq<char>, s: Seq<Node_>, tv: Seq<Seq<char>>, k: int)
    requires
        0 <= k <= s.len(),
        tys_of(ns, s.subrange(0, k), tv) is Err,
    ensures
        tys_of(ns, s, tv) == tys_of(ns, s.subrange(0, k), tv),
    decreases s.len() - k,
{
    if k < s.len() {
        assert(s.subrange(0, k + 1).drop_last() == s.subrange(0, k));
        lemma_tys_err_prefix(ns, s, tv, k + 1);
    } else {
        assert(s.subrange(0, k) == s);
    }
}

/// Whether `v` holds a string with the characters of `s`.
fn contains_string(v: &Vec<String>, s: &str) -> (r: bool)
    ensures
        r == strings_contain(v@, s@),
{
    let mut i: usize = 0;
    while i < v.len()
        invariant
            i <= v@.len(),
            forall|j: int| 0 <= j < i ==> v@[j]@ != s@,
        decreases v@.len() - i,
    {
        if same_chars(v[i].as_str(), s) {
            assert(strings_view(v@)[i as int] == s@);
            return true;
        }
        i = i + 1;
    }
    assert(!strings_view(v@).contains(s@)) by {
        if strings_view(v@).contains(s@) {
            let j = choose|j: int| 0 <= j < strings_view(v@).len() && strings_view(v@)[j] == s@;
            assert(v@[j]@ == s@);
        }
    }
    false
}


/// The first error among results, in order.
pub open spec fn or_err(a: Node, rest: Option<DeclError>) -> Option<DeclError> {
    match a {
        Err(e) => Some(e),
        Ok(_) => rest,
    }
}

pub open spec fn seq_first_err(s: Seq<Node>) -> Option<DeclError>
    decreases s.len(),
{
    if s.len() == 0 {
        None
    } else {
        or_err(s[0], seq_first_err(s.drop_first()))
    }
}

pub open spec fn err_node(e: DeclError) -> Node {
    Err::<Node_, DeclError>(e)
}

pub open spec fn ok_node(n: Node_) -> Node {
    Ok::<Node_, DeclError>(n)
}

/// The pairs of a type parameter's constraint list; placeholders are skipped.
pub open spec fn constraint_pairs(s: Seq<Node_>) -> Result<Seq<(ConstraintKind, Node_)>, DeclError>
    decreases s.len(),
{
    if s.len() == 0 {
        Ok(Seq::empty())
    } else {
        match constraint_pairs(s.drop_last()) {
            Err(e) => Err(e),
            Ok(acc) => match s.last() {
                Node_::TypeConstraint(b) => Ok(acc.push((b.0, b.1))),
                Node_::Ignored => Ok(acc),
                n => Err(DeclError::Unexpected(Expected::TypeConstraint, kind_of(n))),
            },
        }
    }
}

/// A bracketed list from its opening and closing brackets and its contents.
pub open spec fn bracketed(lt: Node_, args: Node_, gt: Node_, r: Node) -> bool {
    match (pos_of(lt), pos_of(gt)) {
        (None, _) => r == err_node(DeclError::NoPosition(kind_of(lt))),
        (Some(_), None) => r == err_node(DeclError::NoPosition(kind_of(gt))),
        (Some(p), Some(q)) => match r {
            Ok(Node_::BracketedList(b)) => b.0 == p && b.1@ == into_vec_spec(args) && b.2 == q,
            _ => false,
        },
    }
}

/// The function that a header node declares, under the namespace in effect in
/// `s`: its name and record, or none when the node is no header.
pub open spec fn fun_decl_of(s: StateV, header: Node_) -> Result<Option<(Seq<char>, FunEltV)>, DeclError> {
    let ns = current_ns(s.ns);
    match header {
        Node_::FunctionHeader(d) => match name_of(ns, d.name) {
            Err(e) => Err(e),
            Ok((name, pos)) => match tparams_of(ns, into_vec_spec(d.type_params)) {
                Err(e) => Err(e),
                Ok((tps, tvars)) => match params_of(ns, d.param_list, tvars) {
                    Err(e) => Err(e),
                    Ok(ps) => match hint_ty_of(ns, d.ret_hint, tvars, pos) {
                        Err(e) => Err(e),
                        Ok(ret) => Ok(Some((name, FunEltV {
                            pos,
                            tparams: tps,
                            params: ps,
                            ret,
                            fun_kind: fun_kind_of(s.yields.len() > 0 && s.yields.last(), has_async(into_vec_spec(d.modifiers))),
                            arity: ps.len(),
                        }))),
                    },
                },
            },
        },
        _ => Ok(None),
    }
}

/// The yield flags once the innermost function is left.
pub open spec fn left_function(y: Seq<bool>) -> Seq<bool> {
    if y.len() > 0 { y.drop_last() } else { y }
}

pub open spec fn with_decls(s: StateV, d: DeclsV) -> StateV {
    StateV { decls: d, ..s }
}

impl DirectDeclSmartConstructors {
    /// The declared type of a hint in a signature; a missing one is any type.
    fn hint_to_ty(&self, hint: &Node_, type_variables: &Vec<String>, pos: Pos) -> (r: Result<Ty, DeclError>)
        ensures
            ty_result(r, hint_ty_of(self.ns_spec(), *hint, strings_view(type_variables@), pos)),
    {
        if let Node_::Ignored = hint {
            Ok(Ty(pos, Box::new(Ty_::Tany)))
        } else {
            self.node_to_ty(hint, type_variables)
        }
    }

    /// The parameters of a parameter-list node; each must be a variable.
    pub fn into_variables_list(&self, list: &Node_, type_variables: &Vec<String>) -> (r: Result<Vec<FunParam>, DeclError>)
        ensures
            match (r, params_of(self.ns_spec(), *list, strings_view(type_variables@))) {
                (Ok(v), Ok(s)) => params_view(v@) == s,
                (Err(e), Err(f)) => e == f,
                _ => false,
            },
    {
        let ghost ns = self.ns_spec();
        let ghost tv = strings_view(type_variables@);
        match list {
            Node_::List(nodes) => {
                let mut out: Vec<FunParam> = Vec::new();
                let mut i: usize = 0;
                assert(params_view(out@) =~= Seq::<FunParamV>::empty());
                while i < nodes.len()
                    invariant
                        i <= nodes@.len(),
                        ns == self.ns_spec(),
                        tv == strings_view(type_variables@),
                        params_of(ns, *list, tv) == params_seq(ns, nodes@, tv),
                        params_seq(ns, nodes@.subrange(0, i as int), tv) == Ok::<Seq<FunParamV>, DeclError>(params_view(out@)),
                    decreases nodes@.len() - i,
                {
                    assert(nodes@.subrange(0, i + 1).drop_last() == nodes@.subrange(0, i as int));
                    assert(nodes@.subrange(0, i + 1).last() == nodes@[i as int]);
                    match &nodes[i] {
                        Node_::Variable(v) => match self.hint_to_ty(&v.hint, type_variables, v.pos) {
                            Ok(t) => {
                                let ghost before = out@;
                                out.push(FunParam { pos: v.pos, name: v.name.clone(), type_: t });
                                assert(params_view(out@) =~= params_view(before).push(out@.last()@));
                            },
                            Err(e) => {
                                assert(params_seq(ns, nodes@.subrange(0, i + 1), tv) == Err::<Seq<FunParamV>, DeclError>(e));
                                proof { lemma_params_err_prefix(ns, nodes@, tv, i as int + 1); }
                                return Err(e);
                            },
                        },
                        n => {
                            let k = n.kind();
                            assert(params_seq(ns, nodes@.subrange(0, i + 1), tv)
                                == Err::<Seq<FunParamV>, DeclError>(DeclError::Unexpected(Expected::Variable, k)));
                            proof { lemma_params_err_prefix(ns, nodes@, tv, i as int + 1); }
                            return Err(DeclError::Unexpected(Expected::Variable, k));
                        },
                    }
                    i = i + 1;
                }
                assert(nodes@.subrange(0, i as int) == nodes@);
                Ok(out)
            },
            Node_::Ignored => {
                let out: Vec<FunParam> = Vec::new();
                assert(params_view(out@) =~= Seq::<FunParamV>::empty());
                Ok(out)
            },
            n => Err(DeclError::Unexpected(Expected::VariableList, n.kind())),
        }
    }

    /// The resolved constraints of one type parameter.
    fn constraints_to_tys(&self, cs: &Vec<(ConstraintKind, Node_)>) -> (r: Result<Vec<(ConstraintKind, Ty)>, DeclError>)
        ensures
            match (r, constraints_of(self.ns_spec(), cs@)) {
                (Ok(v), Ok(s)) => v@.map_values(|c: (ConstraintKind, Ty)| (c.0, c.1@)) == s,
                (Err(e), Err(f)) => e == f,
                _ => false,
            },
    {
        let ghost ns = self.ns_spec();
        let none: Vec<String> = Vec::new();
        assert(strings_view(none@) =~= Seq::<Seq<char>>::empty());
        let mut out: Vec<(ConstraintKind, Ty)> = Vec::new();
        let mut i: usize = 0;
        assert(out@.map_values(|c: (ConstraintKind, Ty)| (c.0, c.1@)) =~= Seq::<(ConstraintKind, TyV)>::empty());
        while i < cs.len()
            invariant
                i <= cs@.len(),
                ns == self.ns_spec(),
                strings_view(none@) == Seq::<Seq<char>>::empty(),
                constraints_of(ns, cs@.subrange(0, i as int))
                    == Ok::<Seq<(ConstraintKind, TyV)>, DeclError>(out@.map_values(|c: (ConstraintKind, Ty)| (c.0, c.1@))),
            decreases cs@.len() - i,
        {
            assert(cs@.subrange(0, i + 1).drop_last() == cs@.subrange(0, i as int));
            assert(cs@.subrange(0, i + 1).last() == cs@[i as int]);
            let k = cs[i].0;
            match self.node_to_ty(&cs[i].1, &none) {
                Ok(t) => {
                    let ghost before = out@;
                    out.push((k, t));
                    assert(out@.map_values(|c: (ConstraintKind, Ty)| (c.0, c.1@))
                        =~= before.map_values(|c: (ConstraintKind, Ty)| (c.0, c.1@)).push((k, out@.last().1@)));
                },
                Err(e) => {
                    proof { lemma_constraints_err_prefix(ns, cs@, i as int + 1); }
                    return Err(e);
                },
            }
            i = i + 1;
        }
        assert(cs@.subrange(0, i as int) == cs@);
        Ok(out)
    }

    /// The type parameters of a declaration, and their names in order.
    fn type_params_of(&self, nodes: &Vec<Node_>) -> (r: Result<(Vec<Tparam>, Vec<String>), DeclError>)
        ensures
            match (r, tparams_of(self.ns_spec(), nodes@)) {
                (Ok((v, names)), Ok((s, t))) => tparams_view(v@) == s && strings_view(names@) == t,
                (Err(e), Err(f)) => e == f,
                _ => false,
            },
    {
        let ghost ns = self.ns_spec();
        let mut out: Vec<Tparam> = Vec::new();
        let mut names: Vec<String> = Vec::new();
        let mut i: usize = 0;
        assert(tparams_view(out@) =~= Seq::<TparamV>::empty());
        assert(strings_view(names@) =~= Seq::<Seq<char>>::empty());
        proof { reveal_strlit(""); }
        while i < nodes.len()
            invariant
                i <= nodes@.len(),
                ns == self.ns_spec(),
                ""@ == Seq::<char>::empty(),
                tparams_of(ns, nodes@.subrange(0, i as int))
                    == Ok::<(Seq<TparamV>, Seq<Seq<char>>), DeclError>((tparams_view(out@), strings_view(names@))),
            decreases nodes@.len() - i,
        {
            assert(nodes@.subrange(0, i + 1).drop_last() == nodes@.subrange(0, i as int));
            assert(nodes@.subrange(0, i + 1).last() == nodes@[i as int]);
            match &nodes[i] {
                Node_::TypeParameter(b) => {
                    let (name, pos) = match get_name("", &b.0) {
                        Ok(x) => x,
                        Err(e) => {
                            proof { lemma_tparams_err_prefix(ns, nodes@, i as int + 1); }
                            return Err(e);
                        },
                    };
                    let cs = match self.constraints_to_tys(&b.1) {
                        Ok(cs) => cs,
                        Err(e) => {
                            proof { lemma_tparams_err_prefix(ns, nodes@, i as int + 1); }
                            return Err(e);
                        },
                    };
                    let ghost before = out@;
                    let ghost before_names = names@;
                    names.push(name.clone());
                    out.push(Tparam { variance: Variance::Invariant, name: Id(pos, name), constraints: cs });
                    assert(tparams_view(out@) =~= tparams_view(before).push(out@.last()@));
                    assert(strings_view(names@) =~= strings_view(before_names).push(names@.last()@));
                },
                n => {
                    let k = n.kind();
                    proof { lemma_tparams_err_prefix(ns, nodes@, i as int + 1); }
                    return Err(DeclError::Unexpected(Expected::TypeParameter, k));
                },
            }
            i = i + 1;
        }
        assert(nodes@.subrange(0, i as int) == nodes@);
        Ok((out, names))
    }
}

proof fn lemma_params_err_prefix(ns: Seq<char>, s: Seq<Node_>, tv: Seq<Seq<char>>, k: int)
    requires
        0 <= k <= s.len(),
        params_seq(ns, s.subrange(0, k), tv) is Err,
    ensures
        params_seq(ns, s, tv) == params_seq(ns, s.subrange(0, k), tv),
    decreases s.len() - k,
{
    if k < s.len() {
        assert(s.subrange(0, k + 1).drop_last() == s.subrange(0, k));
        lemma_params_err_prefix(ns, s, tv, k + 1);
    } else {
        assert(s.subrange(0, k) == s);
    }
}

proof fn lemma_constraints_err_prefix(ns: Seq<char>, s: Seq<(ConstraintKind, Node_)>, k: int)
    requires
        0 <= k <= s.len(),
        constraints_of(ns, s.subrange(0, k)) is Err,
    ensures
        constraints_of(ns, s) == constraints_of(ns, s.subrange(0, k)),
    decreases s.len() - k,
{
    if k < s.len() {
        assert(s.subrange(0, k + 1).drop_last() == s.subrange(0, k));
        lemma_constraints_err_prefix(ns, s, k + 1);
    } else {
        assert(s.subrange(0, k) == s);
    }
}

proof fn lemma_tparams_err_prefix(ns: Seq<char>, s: Seq<Node_>, k: int)
    requires
        0 <= k <= s.len(),
        tparams_of(ns, s.subrange(0, k)) is Err,
    ensures
        tparams_of(ns, s) == tparams_of(ns, s.subrange(0, k)),
    decreases s.len() - k,
{
    if k < s.len() {
        assert(s.subrange(0, k + 1).drop_last() == s.subrange(0, k));
        lemma_tparams_err_prefix(ns, s, k + 1);
    } else {
        assert(s.subrange(0, k) == s);
    }
}


pub open spec fn all_ignored(s: Seq<Node>) -> bool {
    forall|i: int| 0 <= i < s.len() ==> s[i] == ok_node(Node_::Ignored)
}

pub open spec fn unwrap_all(s: Seq<Node>) -> Seq<Node_> {
    s.map_values(|x: Node| x->Ok_0)
}

/// The node that a declaration list reduces to: the placeholder when it has
/// nothing but placeholders, else its first error, else a list of its items.
pub open spec fn list_result(s: Seq<Node>, r: Node) -> bool {
    if s.len() == 0 || all_ignored(s) {
        r == ok_node(Node_::Ignored)
    } else {
        match seq_first_err(s) {
            Some(e) => r == err_node(e),
            None => match r {
                Ok(Node_::List(v)) => v@ == unwrap_all(s),
                _ => false,
            },
        }
    }
}

/// The node that a qualified name reduces to.
pub open spec fn qualified_result(n: Node_, r: Node) -> bool {
    if n is Ignored {
        r == ok_node(Node_::Ignored)
    } else {
        match pos_of(n) {
            None => r == err_node(DeclError::NoPosition(kind_of(n))),
            Some(p) => match r {
                Ok(Node_::QualifiedName(v, q)) => q == p && v@ == (if n is List { n->List_0@ } else { seq![n] }),
                _ => false,
            },
        }
    }
}

/// The node that an item and its separator reduce to.
pub open spec fn list_item_result(x: Node_, y: Node_, r: Node) -> bool {
    if x is Ignored {
        r == ok_node(y)
    } else if y is Ignored {
        r == ok_node(x)
    } else {
        match r {
            Ok(Node_::ListItem(b)) => b.0 == x && b.1 == y,
            _ => false,
        }
    }
}

impl DirectDeclSmartConstructors {
    pub fn make_missing(&mut self, _offset: usize) -> (r: Node)
        ensures
            r == ok_node(Node_::Ignored),
            final(self)@ == old(self)@,
    {
        Ok(Node_::Ignored)
    }

    /// A list of items: the placeholder when all are placeholders, else the
    /// items themselves, not collapsed.
    pub fn make_list(&mut self, items: Vec<Node>, _offset: usize) -> (r: Node)
        ensures
            list_result(items@, r),
            final(self)@ == old(self)@,
    {
        let mut all_zero = true;
        let mut i: usize = 0;
        while i < items.len()
            invariant
                i <= items@.len(),
                all_zero == (forall|j: int| 0 <= j < i ==> items@[j] == ok_node(Node_::Ignored)),
            decreases items@.len() - i,
        {
            if !is_zero(&items[i]) {
                all_zero = false;
            }
            i = i + 1;
        }
        if items.len() == 0 || all_zero {
            return Ok(Node_::Ignored);
        }
        let ghost all = items@;
        let mut rest = items;
        let mut out: Vec<Node_> = Vec::new();
        let mut done: usize = 0;
        let _ = rest.len();
        while rest.len() > 0
            invariant
                done + rest@.len() == all.len(),
                all.len() <= usize::MAX,
                rest@ == all.subrange(done as int, all.len() as int),
                seq_first_err(all) == seq_first_err(rest@),
                out@ == unwrap_all(all.subrange(0, done as int)),
                !(all.len() == 0 || all_ignored(all)),
                all == items@,
            decreases rest@.len(),
        {
            let ghost before = rest@;
            let x = rest.remove(0);
            assert(before.drop_first() == rest@);
            assert(x == before[0]);
            match x {
                Err(e) => {
                    assert(seq_first_err(before) == Some(e));
                    return Err(e);
                },
                Ok(n) => {
                    out.push(n);
                    assert(unwrap_all(all.subrange(0, done + 1)) =~= unwrap_all(all.subrange(0, done as int)).push(n));
                },
            }
            done = done + 1;
        }
        assert(all.subrange(0, done as int) == all);
        Ok(Node_::List(out))
    }

    /// A qualified name: its parts with the span that covers them.
    pub fn make_qualified_name(&mut self, arg0: Node) -> (r: Node)
        ensures
            match arg0 {
                Err(e) => r == err_node(e),
                Ok(n) => qualified_result(n, r),
            },
            final(self)@ == old(self)@,
    {
        let n = arg0?;
        let pos = n.get_pos();
        match n {
            Node_::Ignored => Ok(Node_::Ignored),
            Node_::List(nodes) => {
                let p = pos?;
                Ok(Node_::QualifiedName(nodes, p))
            },
            node => {
                let p = pos?;
                let v = vec![node];
                assert(v@ =~= seq![node]);
                Ok(Node_::QualifiedName(v, p))
            },
        }
    }

    /// A simple type specifier stands for its token.
    pub fn make_simple_type_specifier(&mut self, arg0: Node) -> (r: Node)
        ensures
            r == arg0,
            final(self)@ == old(self)@,
    {
        arg0
    }

    /// An initializer stands for its value.
    pub fn make_simple_initializer(&mut self, arg0: Node, arg1: Node) -> (r: Node)
        ensures
            r == (match arg0 {
                Err(e) => err_node(e),
                Ok(_) => arg1,
            }),
            final(self)@ == old(self)@,
    {
        let _ = arg0?;
        arg1
    }

    /// An item of a separated list with its separator; a missing half leaves
    /// the other.
    pub fn make_list_item(&mut self, item: Node, sep: Node) -> (r: Node)
        ensures
            match or_err(item, or_err(sep, None)) {
                Some(e) => r == err_node(e),
                None => list_item_result(item->Ok_0, sep->Ok_0, r),
            },
            final(self)@ == old(self)@,
    {
        let (item, sep) = (item?, sep?);
        match (item, sep) {
            (Node_::Ignored, Node_::Ignored) => Ok(Node_::Ignored),
            (x, Node_::Ignored) => Ok(x),
            (Node_::Ignored, y) => Ok(y),
            (x, y) => Ok(Node_::ListItem(Box::new((x, y)))),
        }
    }

    fn make_bracketed(lt: Node, args: Node, gt: Node) -> (r: Node)
        ensures
            match or_err(lt, or_err(args, or_err(gt, None))) {
                Some(e) => r == err_node(e),
                None => bracketed(lt->Ok_0, args->Ok_0, gt->Ok_0, r),
            },
    {
        let (lt, args, gt) = (lt?, args?, gt?);
        let p = lt.get_pos()?;
        let q = gt.get_pos()?;
        Ok(Node_::BracketedList(Box::new((p, args.into_vec(), q))))
    }

    /// Type arguments between angle brackets.
    pub fn make_type_arguments(&mut self, less_than: Node, arguments: Node, greater_than: Node) -> (r: Node)
        ensures
            match or_err(less_than, or_err(arguments, or_err(greater_than, None))) {
                Some(e) => r == err_node(e),
                None => bracketed(less_than->Ok_0, arguments->Ok_0, greater_than->Ok_0, r),
            },
            final(self)@ == old(self)@,
    {
        Self::make_bracketed(less_than, arguments, greater_than)
    }

    /// Type parameters between angle brackets.
    pub fn make_type_parameters(&mut self, arg0: Node, arg1: Node, arg2: Node) -> (r: Node)
        ensures
            match or_err(arg0, or_err(arg1, or_err(arg2, None))) {
                Some(e) => r == err_node(e),
                None => bracketed(arg0->Ok_0, arg1->Ok_0, arg2->Ok_0, r),
            },
            final(self)@ == old(self)@,
    {
        Self::make_bracketed(arg0, arg1, arg2)
    }

    /// A generic type: the class name resolved under the current namespace
    /// and made absolute, applied to its arguments.
    pub fn make_generic_type_specifier(&mut self, class_type: Node, argument_list: Node) -> (r: Node)
        ensures
            final(self)@ == old(self)@,
            match or_err(class_type, or_err(argument_list, None)) {
                Some(e) => r == err_node(e),
                None => match name_of(old(self).ns_spec(), class_type->Ok_0) {
                    Err(e) => r == err_node(e),
                    Ok((name, pos)) => match r {
                        Ok(Node_::Hint(HintValue::Apply(id, v), fp)) => {
                            &&& id.0 == pos
                            &&& id.1@ == prefix_slash_spec(name)
                            &&& v@ == into_vec_spec(argument_list->Ok_0)
                            &&& fp == match pos_of(argument_list->Ok_0) {
                                Some(q) => merge_spec(pos, q),
                                None => pos,
                            }
                        },
                        _ => false,
                    },
                },
            },
    {
        let (class_type, argument_list) = (class_type?, argument_list?);
        let (name, pos) = get_name(self.state.namespace_builder().current_namespace(), &class_type)?;
        let full_pos = match argument_list.get_pos() {
            Ok(q) => Pos::merge(&pos, &q),
            Err(_) => pos,
        };
        let name = self.prefix_slash(name);
        Ok(Node_::Hint(HintValue::Apply(Id(pos, name), argument_list.into_vec()), full_pos))
    }

    /// A constraint on a type parameter: `as` or `super`, and the bound.
    pub fn make_type_constraint(&mut self, kind: Node, value: Node) -> (r: Node)
        ensures
            final(self)@ == old(self)@,
            match or_err(kind, or_err(value, None)) {
                Some(e) => r == err_node(e),
                None => match kind->Ok_0 {
                    Node_::As => match r {
                        Ok(Node_::TypeConstraint(b)) => b.0 == ConstraintKind::ConstraintAs && b.1 == value->Ok_0,
                        _ => false,
                    },
                    Node_::Super => match r {
                        Ok(Node_::TypeConstraint(b)) => b.0 == ConstraintKind::ConstraintSuper && b.1 == value->Ok_0,
                        _ => false,
                    },
                    n => r == err_node(DeclError::Unexpected(Expected::AsOrSuper, kind_of(n))),
                },
            },
    {
        let (kind, value) = (kind?, value?);
        let kind = match kind {
            Node_::As => ConstraintKind::ConstraintAs,
            Node_::Super => ConstraintKind::ConstraintSuper,
            n => return Err(DeclError::Unexpected(Expected::AsOrSuper, n.kind())),
        };
        Ok(Node_::TypeConstraint(Box::new((kind, value))))
    }

    /// A type parameter: its name and its constraints.
    pub fn make_type_parameter(&mut self, arg0: Node, arg1: Node, arg2: Node, name: Node, constraints: Node) -> (r: Node)
        ensures
            final(self)@ == old(self)@,
            match or_err(arg0, or_err(arg1, or_err(arg2, or_err(name, or_err(constraints, None))))) {
                Some(e) => r == err_node(e),
                None => match constraint_pairs(into_vec_spec(constraints->Ok_0)) {
                    Err(e) => r == err_node(e),
                    Ok(cs) => match r {
                        Ok(Node_::TypeParameter(b)) => b.0 == name->Ok_0 && b.1@ == cs,
                        _ => false,
                    },
                },
            },
    {
        let (_, _, _, name_node, constraints_node) = (arg0?, arg1?, arg2?, name?, constraints?);
        let mut rest = constraints_node.into_vec();
        let ghost all = rest@;
        let _ = rest.len();
        let mut out: Vec<(ConstraintKind, Node_)> = Vec::new();
        let mut done: usize = 0;
        assert(all.subrange(0, 0) =~= Seq::<Node_>::empty());
        while rest.len() > 0
            invariant
                done + rest@.len() == all.len(),
                all.len() <= usize::MAX,
                rest@ == all.subrange(done as int, all.len() as int),
                constraint_pairs(all.subrange(0, done as int)) == Ok::<Seq<(ConstraintKind, Node_)>, DeclError>(out@),
                all == into_vec_spec(constraints->Ok_0),
                or_err(arg0, or_err(arg1, or_err(arg2, or_err(name, or_err(constraints, None))))) is None,
            decreases rest@.len(),
        {
            let x = rest.remove(0);
            assert(all.subrange(0, done + 1).drop_last() == all.subrange(0, done as int));
            assert(all.subrange(0, done + 1).last() == x);
            match x {
                Node_::TypeConstraint(b) => {
                    let (k, v) = *b;
                    out.push((k, v));
                },
                Node_::Ignored => {},
                n => {
                    let k = n.kind();
                    assert(constraint_pairs(all.subrange(0, done + 1))
                        == Err::<Seq<(ConstraintKind, Node_)>, DeclError>(DeclError::Unexpected(Expected::TypeConstraint, k)));
                    proof { lemma_pairs_err_prefix(all, done as int + 1); }
                    return Err(DeclError::Unexpected(Expected::TypeConstraint, k));
                },
            }
            done = done + 1;
        }
        assert(all.subrange(0, done as int) == all);
        Ok(Node_::TypeParameter(Box::new((name_node, out))))
    }

    /// A parameter: its name, read without namespace, and its hint.
    pub fn make_parameter_declaration(&mut self, arg0: Node, arg1: Node, arg2: Node, hint: Node, name: Node, arg5: Node) -> (r: Node)
        ensures
            final(self)@ == old(self)@,
            match or_err(arg0, or_err(arg1, or_err(arg2, or_err(hint, or_err(name, or_err(arg5, None)))))) {
                Some(e) => r == err_node(e),
                None => match name_of(Seq::empty(), name->Ok_0) {
                    Err(e) => r == err_node(e),
                    Ok((n, p)) => match r {
                        Ok(Node_::Variable(v)) => v.hint == hint->Ok_0 && v.name@ == n && v.pos == p,
                        _ => false,
                    },
                },
            },
    {
        let (_, _, _, hint, name, _) = (arg0?, arg1?, arg2?, hint?, name?, arg5?);
        proof { reveal_strlit(""); }
        let (name, pos) = get_name("", &name)?;
        Ok(Node_::Variable(Box::new(VariableDecl { hint, name, pos })))
    }

    /// A function header: kept whole until the declaration completes.
    pub fn make_function_declaration_header(
        &mut self,
        modifiers: Node,
        keyword: Node,
        name: Node,
        type_params: Node,
        left_paren: Node,
        param_list: Node,
        right_paren: Node,
        colon: Node,
        ret_hint: Node,
        where_clause: Node,
    ) -> (r: Node)
        ensures
            final(self)@ == old(self)@,
            match or_err(modifiers, or_err(keyword, or_err(name, or_err(type_params, or_err(left_paren,
                or_err(param_list, or_err(right_paren, or_err(colon, or_err(ret_hint, or_err(where_clause, None)))))))))) {
                Some(e) => r == err_node(e),
                None => if name->Ok_0 is Ignored {
                    r == ok_node(Node_::Ignored)
                } else {
                    match r {
                        Ok(Node_::FunctionHeader(d)) => {
                            &&& d.name == name->Ok_0
                            &&& d.modifiers == modifiers->Ok_0
                            &&& d.type_params == type_params->Ok_0
                            &&& d.param_list == param_list->Ok_0
                            &&& d.ret_hint == ret_hint->Ok_0
                        },
                        _ => false,
                    }
                },
            },
    {
        let (modifiers, _, name, type_params, _, param_list, _, _, ret_hint, _) = (
            modifiers?,
            keyword?,
            name?,
            type_params?,
            left_paren?,
            param_list?,
            right_paren?,
            colon?,
            ret_hint?,
            where_clause?,
        );
        match name {
            Node_::Ignored => Ok(Node_::Ignored),
            name => Ok(Node_::FunctionHeader(Box::new(FunctionDecl { name, modifiers, type_params, param_list, ret_hint }))),
        }
    }

    /// A constant declarator: its name and initializer, as a pair.
    pub fn make_constant_declarator(&mut self, name: Node, initializer: Node) -> (r: Node)
        ensures
            final(self)@ == old(self)@,
            match or_err(name, or_err(initializer, None)) {
                Some(e) => r == err_node(e),
                None => if name->Ok_0 is Ignored {
                    r == ok_node(Node_::Ignored)
                } else {
                    match r {
                        Ok(Node_::List(v)) => v@ == seq![name->Ok_0, initializer->Ok_0],
                        _ => false,
                    }
                },
            },
    {
        let (name, initializer) = (name?, initializer?);
        match name {
            Node_::Ignored => Ok(Node_::Ignored),
            name => Ok(Node_::List(vec![name, initializer])),
        }
    }

    /// The end of a namespace declaration, body included: its namespace is left.
    pub fn make_namespace_declaration(&mut self, keyword: Node, name: Node, body: Node) -> (r: Node)
        requires
            can_pop(old(self)@.ns),
        ensures
            match or_err(keyword, or_err(name, or_err(body, None))) {
                Some(e) => r == err_node(e) && final(self)@ == old(self)@,
                None => r == ok_node(Node_::Ignored) && final(self)@ == (StateV { ns: popped(old(self)@.ns), ..old(self)@ }),
            },
    {
        let _ = (keyword?, name?, body?);
        let mut nb = self.state.take_namespace_builder();
        nb.pop_namespace();
        self.state.set_namespace_builder(nb);
        Ok(Node_::Ignored)
    }
}

proof fn lemma_pairs_err_prefix(s: Seq<Node_>, k: int)
    requires
        0 <= k <= s.len(),
        constraint_pairs(s.subrange(0, k)) is Err,
    ensures
        constraint_pairs(s) == constraint_pairs(s.subrange(0, k)),
    decreases s.len() - k,
{
    if k < s.len() {
        assert(s.subrange(0, k + 1).drop_last() == s.subrange(0, k));
        lemma_pairs_err_prefix(s, k + 1);
    } else {
        assert(s.subrange(0, k) == s);
    }
}


/// The declarator list of a constant declaration holds exactly one
/// declarator: its name node.
pub open spec fn const_target(d: Node_) -> Option<Node_> {
    match d {
        Node_::List(nodes) => if nodes@.len() == 1 && nodes@[0] is List && nodes@[0]->List_0@.len() == 2 {
            Some(nodes@[0]->List_0@[0])
        } else {
            None
        },
        _ => None,
    }
}

pub open spec fn alias_error(r: Node, name: Seq<char>, e: DeclError) -> bool {
    match r {
        Err(DeclError::TypeAlias(m, b)) => m@ == name && *b == e,
        _ => false,
    }
}

pub open spec fn constant_error(r: Node, name: Seq<char>, e: DeclError) -> bool {
    match r {
        Err(DeclError::Constant(m, b)) => m@ == name && *b == e,
        _ => false,
    }
}

/// The record of a class named `name`, declared at `pos`.
pub open spec fn class_record(name: Seq<char>, pos: Pos) -> ShallowClassV {
    ShallowClassV {
        pos,
        name: prefix_slash_spec(name),
        tparams: Seq::empty(),
        extends: Seq::empty(),
        implements: Seq::empty(),
    }
}

/// The record of a transparent type alias of `ty`, declared at `pos`.
pub open spec fn typedef_record(ty: TyV, pos: Pos) -> TypedefV {
    TypedefV {
        pos,
        vis: TypedefVisibility::Transparent,
        tparams: Seq::empty(),
        constraint: None,
        ty,
    }
}

impl DirectDeclSmartConstructors {
    /// A function declaration: its name is resolved under the current
    /// namespace, its type parameters put in scope for its parameter and
    /// return types, and its kind read from the async modifier and from the
    /// flag of the function being left; the record goes into the table.
    pub fn make_function_declaration(&mut self, attributes: Node, header: Node, body: Node) -> (r: Node)
        ensures
            match or_err(attributes, or_err(header, or_err(body, None))) {
                Some(e) => r == err_node(e) && final(self)@ == old(self)@,
                None => match fun_decl_of(old(self)@, header->Ok_0) {
                    Err(e) => r == err_node(e) && final(self)@ == old(self)@,
                    Ok(None) => r == ok_node(Node_::Ignored) && final(self)@ == old(self)@,
                    Ok(Some((name, f))) => r == ok_node(Node_::Ignored) && final(self)@ == (StateV {
                        decls: DeclsV { funs: old(self)@.decls.funs.insert(prefix_slash_spec(name), f), ..old(self)@.decls },
                        yields: left_function(old(self)@.yields),
                        ..old(self)@
                    }),
                },
            },
    {
        let (_, header_node, _) = (attributes?, header?, body?);
        let decl = match header_node {
            Node_::FunctionHeader(decl) => *decl,
            _ => return Ok(Node_::Ignored),
        };
        let (name, pos) = get_name(self.state.namespace_builder().current_namespace(), &decl.name)?;
        let tparam_nodes = decl.type_params.into_vec();
        let (tparams, type_variables) = self.type_params_of(&tparam_nodes)?;
        let params = self.into_variables_list(&decl.param_list, &type_variables)?;
        let ret = self.hint_to_ty(&decl.ret_hint, &type_variables, pos)?;
        let modifiers = decl.modifiers.into_vec();
        let mut is_async = false;
        let mut i: usize = 0;
        while i < modifiers.len()
            invariant
                i <= modifiers@.len(),
                is_async == (exists|j: int| 0 <= j < i && modifiers@[j] is Async),
            decreases modifiers@.len() - i,
        {
            if let Node_::Async = &modifiers[i] {
                is_async = true;
            }
            i = i + 1;
        }
        let mut y = self.state.take_yields();
        let yielded = match y.pop() {
            Some(b) => b,
            None => false,
        };
        self.state.set_yields(y);
        let fun_kind = if yielded {
            if is_async { FunKind::FAsyncGenerator } else { FunKind::FGenerator }
        } else {
            if is_async { FunKind::FAsync } else { FunKind::FSync }
        };
        let arity = params.len();
        let key = self.prefix_slash(name);
        let mut d = self.state.take_decls();
        d.funs.insert(key, FunElt { pos, type_: FunType { tparams, params, ret, fun_kind, arity } });
        self.state.set_decls(d);
        Ok(Node_::Ignored)
    }

    /// A type alias: its name is resolved under the current namespace and
    /// its aliased hint must resolve to a type.
    pub fn make_alias_declaration(
        &mut self,
        attributes: Node,
        keyword: Node,
        name: Node,
        generic_params: Node,
        constraint: Node,
        equal: Node,
        aliased_type: Node,
        semicolon: Node,
    ) -> (r: Node)
        ensures
            match or_err(attributes, or_err(keyword, or_err(name, or_err(generic_params, or_err(constraint,
                or_err(equal, or_err(aliased_type, or_err(semicolon, None)))))))) {
                Some(e) => r == err_node(e) && final(self)@ == old(self)@,
                None => if name->Ok_0 is Ignored {
                    r == ok_node(Node_::Ignored) && final(self)@ == old(self)@
                } else {
                    match name_of(old(self).ns_spec(), name->Ok_0) {
                        Err(e) => r == err_node(e) && final(self)@ == old(self)@,
                        Ok((n, p)) => match ty_of(old(self).ns_spec(), aliased_type->Ok_0, Seq::empty()) {
                            Ok(t) => r == ok_node(Node_::Ignored) && final(self)@ == with_decls(old(self)@, DeclsV {
                                typedefs: old(self)@.decls.typedefs.insert(prefix_slash_spec(n), typedef_record(t, p)),
                                ..old(self)@.decls
                            }),
                            Err(e) => alias_error(r, n, e) && final(self)@ == old(self)@,
                        },
                    }
                },
            },
    {
        let (_, _, name_node, _, _, _, aliased, _) = (
            attributes?,
            keyword?,
            name?,
            generic_params?,
            constraint?,
            equal?,
            aliased_type?,
            semicolon?,
        );
        if let Node_::Ignored = name_node {
            return Ok(Node_::Ignored);
        }
        let (name, pos) = get_name(self.state.namespace_builder().current_namespace(), &name_node)?;
        let none: Vec<String> = Vec::new();
        assert(strings_view(none@) =~= Seq::<Seq<char>>::empty());
        match self.node_to_ty(&aliased, &none) {
            Ok(ty) => {
                let tparams: Vec<Tparam> = Vec::new();
                assert(tparams_view(tparams@) =~= Seq::<TparamV>::empty());
                let key = self.prefix_slash(name);
                let mut d = self.state.take_decls();
                d.typedefs.insert(
                    key,
                    TypedefType { pos, vis: TypedefVisibility::Transparent, tparams, constraint: None, type_: ty },
                );
                self.state.set_decls(d);
                Ok(Node_::Ignored)
            },
            Err(e) => Err(DeclError::TypeAlias(name, Box::new(e))),
        }
    }

    /// A global constant: the name of its one declarator, resolved under the
    /// current namespace, paired with the type of its hint. Any other shape
    /// of declarator list is skipped.
    pub fn make_const_declaration(&mut self, arg0: Node, arg1: Node, hint: Node, decls: Node, arg4: Node) -> (r: Node)
        ensures
            match or_err(arg0, or_err(arg1, or_err(hint, or_err(decls, or_err(arg4, None))))) {
                Some(e) => r == err_node(e) && final(self)@ == old(self)@,
                None => match const_target(decls->Ok_0) {
                    None => r == ok_node(Node_::Ignored) && final(self)@ == old(self)@,
                    Some(target) => match name_of(old(self).ns_spec(), target) {
                        Err(e) => r == err_node(e) && final(self)@ == old(self)@,
                        Ok((n, _)) => match ty_of(old(self).ns_spec(), hint->Ok_0, Seq::empty()) {
                            Ok(t) => r == ok_node(Node_::Ignored) && final(self)@ == with_decls(old(self)@, DeclsV {
                                consts: old(self)@.decls.consts.insert(prefix_slash_spec(n), t),
                                ..old(self)@.decls
                            }),
                            Err(e) => constant_error(r, n, e) && final(self)@ == old(self)@,
                        },
                    },
                },
            },
    {
        let (_, _, hint_node, decls_node, _) = (arg0?, arg1?, hint?, decls?, arg4?);
        let target = match &decls_node {
            Node_::List(nodes) => if nodes.len() == 1 {
                match &nodes[0] {
                    Node_::List(inner) => if inner.len() == 2 {
                        Some(&inner[0])
                    } else {
                        None
                    },
                    _ => None,
                }
            } else {
                None
            },
            _ => None,
        };
        let target = match target {
            Some(t) => t,
            None => return Ok(Node_::Ignored),
        };
        let (name, _) = get_name(self.state.namespace_builder().current_namespace(), target)?;
        let none: Vec<String> = Vec::new();
        assert(strings_view(none@) =~= Seq::<Seq<char>>::empty());
        match self.node_to_ty(&hint_node, &none) {
            Ok(ty) => {
                let key = self.prefix_slash(name);
                let mut d = self.state.take_decls();
                d.consts.insert(key, ty);
                self.state.set_decls(d);
                Ok(Node_::Ignored)
            },
            Err(e) => Err(DeclError::Constant(name, Box::new(e))),
        }
    }

    /// A class, interface or trait: its name, resolved under the current
    /// namespace, and an otherwise empty record.
    pub fn make_classish_declaration(
        &mut self,
        arg0: Node,
        arg1: Node,
        arg2: Node,
        name: Node,
        arg4: Node,
        arg5: Node,
        arg6: Node,
        arg7: Node,
        arg8: Node,
        arg9: Node,
        arg10: Node,
    ) -> (r: Node)
        ensures
            match or_err(arg0, or_err(arg1, or_err(arg2, or_err(name, or_err(arg4, or_err(arg5,
                or_err(arg6, or_err(arg7, or_err(arg8, or_err(arg9, or_err(arg10, None))))))))))) {
                Some(e) => r == err_node(e) && final(self)@ == old(self)@,
                None => match name_of(old(self).ns_spec(), name->Ok_0) {
                    Err(e) => r == err_node(e) && final(self)@ == old(self)@,
                    Ok((n, p)) => r == ok_node(Node_::Ignored) && final(self)@ == with_decls(old(self)@, DeclsV {
                        classes: old(self)@.decls.classes.insert(prefix_slash_spec(n), class_record(n, p)),
                        ..old(self)@.decls
                    }),
                },
            },
    {
        let (_, _, _, name_node, _, _, _, _, _, _, _) = (
            arg0?,
            arg1?,
            arg2?,
            name?,
            arg4?,
            arg5?,
            arg6?,
            arg7?,
            arg8?,
            arg9?,
            arg10?,
        );
        let (name, pos) = get_name(self.state.namespace_builder().current_namespace(), &name_node)?;
        let name = self.prefix_slash(name);
        let key = name.clone();
        let tparams: Vec<Tparam> = Vec::new();
        let extends: Vec<Ty> = Vec::new();
        let implements: Vec<Ty> = Vec::new();
        assert(tparams_view(tparams@) =~= Seq::<TparamV>::empty());
        assert(tys_view(extends@) =~= Seq::<TyV>::empty());
        let mut d = self.state.take_decls();
        d.classes.insert(key, ShallowClass { name: Id(pos, name), tparams, extends, implements });
        self.state.set_decls(d);
        Ok(Node_::Ignored)
    }
}


impl DirectDeclSmartConstructors {
    /// The declaration table at the end of the file, given what the whole
    /// file reduced to: a hard error anywhere means no table.
    pub fn finish(self, root: Node) -> (r: Result<InProgressDecls, DeclError>)
        ensures
            match root {
                Err(e) => r == Err::<InProgressDecls, DeclError>(e),
                Ok(_) => r is Ok && r->Ok_0@ == self@.decls,
            },
    {
        match root {
            Err(e) => Err(e),
            Ok(_) => Ok(self.state.into_decls()),
        }
    }
}

proof fn lemma_params_seq_err(ns: Seq<char>, s: Seq<Node_>, tv: Seq<Seq<char>>, i: int)
    requires
        0 <= i < s.len(),
        !(s[i] is Variable),
    ensures
        params_seq(ns, s, tv) is Err,
{
    let pre = s.subrange(0, i + 1);
    assert(pre.drop_last() == s.subrange(0, i));
    assert(pre.last() == s[i]);
    assert(params_seq(ns, pre, tv) is Err);
    lemma_params_err_prefix(ns, s, tv, i + 1);
}

/// A function whose parameter list holds anything but variables is a hard
/// error: no record of it is made.
pub proof fn non_variable_parameter_is_fatal(s: StateV, header: Node_, i: int)
    requires
        header is FunctionHeader,
        header->FunctionHeader_0.param_list is List,
        0 <= i < header->FunctionHeader_0.param_list->List_0@.len(),
        !(header->FunctionHeader_0.param_list->List_0@[i] is Variable),
    ensures
        fun_decl_of(s, header) is Err,
{
    let d = header->FunctionHeader_0;
    let ns = current_ns(s.ns);
    match name_of(ns, d.name) {
        Err(_) => {},
        Ok(_) => match tparams_of(ns, into_vec_spec(d.type_params)) {
            Err(_) => {},
            Ok((_, tvars)) => {
                lemma_params_seq_err(ns, d.param_list->List_0@, tvars, i);
            },
        },
    }
}

/// A name that is a type parameter in scope resolves to that type
/// parameter, never to a class of the same name.
pub proof fn type_parameter_reference_is_generic(ns: Seq<char>, n: Node_, tvars: Seq<Seq<char>>)
    requires
        n is Name,
        tvars.contains(n->Name_0@),
    ensures
        ty_of(ns, n, tvars) == Ok::<TyV, DeclError>(TyV::Generic(n->Name_1, n->Name_0@)),
{
    assert(in_namespace(Seq::empty(), n->Name_0@) == n->Name_0@);
}

/// The names that `tparams_of` puts in scope are those of the parameters.
proof fn lemma_tparams_names(ns: Seq<char>, s: Seq<Node_>)
    requires
        tparams_of(ns, s) is Ok,
    ensures
        tparams_of(ns, s)->Ok_0.1.len() == tparams_of(ns, s)->Ok_0.0.len(),
        forall|j: int| 0 <= j < tparams_of(ns, s)->Ok_0.1.len()
            ==> tparams_of(ns, s)->Ok_0.1[j] == tparams_of(ns, s)->Ok_0.0[j].name,
    decreases s.len(),
{
    if s.len() > 0 {
        lemma_tparams_names(ns, s.drop_last());
    }
}

/// Each parameter record holds the type of its variable's hint.
proof fn lemma_params_seq_types(ns: Seq<char>, s: Seq<Node_>, tv: Seq<Seq<char>>)
    requires
        params_seq(ns, s, tv) is Ok,
    ensures
        params_seq(ns, s, tv)->Ok_0.len() == s.len(),
        forall|j: int| 0 <= j < s.len() ==> s[j] is Variable
            && hint_ty_of(ns, s[j]->Variable_0.hint, tv, s[j]->Variable_0.pos) == Ok::<TyV, DeclError>(params_seq(ns, s, tv)->Ok_0[j].ty),
    decreases s.len(),
{
    if s.len() > 0 {
        lemma_params_seq_types(ns, s.drop_last(), tv);
        assert forall|j: int| 0 <= j < s.len() implies s[j] is Variable
            && hint_ty_of(ns, s[j]->Variable_0.hint, tv, s[j]->Variable_0.pos) == Ok::<TyV, DeclError>(params_seq(ns, s, tv)->Ok_0[j].ty) by {
            if j < s.len() - 1 {
                assert(s.drop_last()[j] == s[j]);
            }
        }
    }
}

/// In a function that declares a type parameter `t`, a parameter hinted `t`
/// and a return hint `t` resolve to the same type parameter.
pub proof fn type_parameter_in_signature(s: StateV, header: Node_, t: Seq<char>, j: int)
    requires
        header is FunctionHeader,
        fun_decl_of(s, header) is Ok,
        ({
            let d = header->FunctionHeader_0;
            &&& tparams_of(current_ns(s.ns), into_vec_spec(d.type_params)) is Ok
            &&& exists|k: int| 0 <= k < tparams_of(current_ns(s.ns), into_vec_spec(d.type_params))->Ok_0.0.len()
                && tparams_of(current_ns(s.ns), into_vec_spec(d.type_params))->Ok_0.0[k].name == t
            &&& d.ret_hint is Name && d.ret_hint->Name_0@ == t
            &&& d.param_list is List && 0 <= j < d.param_list->List_0@.len()
            &&& d.param_list->List_0@[j] is Variable
            &&& d.param_list->List_0@[j]->Variable_0.hint is Name
            &&& d.param_list->List_0@[j]->Variable_0.hint->Name_0@ == t
        }),
    ensures
        fun_decl_of(s, header)->Ok_0 is Some,
        fun_decl_of(s, header)->Ok_0->Some_0.1.ret is Generic,
        fun_decl_of(s, header)->Ok_0->Some_0.1.ret->Generic_1 == t,
        fun_decl_of(s, header)->Ok_0->Some_0.1.params[j].ty is Generic,
        fun_decl_of(s, header)->Ok_0->Some_0.1.params[j].ty->Generic_1 == t,
{
    let d = header->FunctionHeader_0;
    let ns = current_ns(s.ns);
    let tp = tparams_of(ns, into_vec_spec(d.type_params));
    lemma_tparams_names(ns, into_vec_spec(d.type_params));
    let tvars = tp->Ok_0.1;
    let k = choose|k: int| 0 <= k < tp->Ok_0.0.len() && tp->Ok_0.0[k].name == t;
    assert(tvars[k] == t);
    assert(tvars.contains(t));
    type_parameter_reference_is_generic(ns, d.ret_hint, tvars);
    let v = d.param_list->List_0@[j]->Variable_0;
    type_parameter_reference_is_generic(ns, v.hint, tvars);
    lemma_params_seq_types(ns, d.param_list->List_0@, tvars);
}

/// Outside any namespace, names are made absolute by exactly one leading
/// separator: the key under which a function, type alias, constant or class
/// is recorded, the name in a class record, and a reference to a class.
pub proof fn no_namespace_one_separator(s: String, p: Pos, tvars: Seq<Seq<char>>)
    requires
        !(s@.len() > 0 && s@[0] == '\\'),
        !tvars.contains(s@),
    ensures
        name_of(Seq::empty(), Node_::Name(s, p)) == Ok::<(Seq<char>, Pos), DeclError>((s@, p)),
        prefix_slash_spec(s@) == seq!['\\'] + s@,
        class_record(s@, p).name == seq!['\\'] + s@,
        ty_of(Seq::empty(), Node_::Name(s, p), tvars)
            == Ok::<TyV, DeclError>(TyV::Apply(p, p, seq!['\\'] + s@, Seq::empty())),
{
    assert(in_namespace(Seq::empty(), s@) == s@);
}

/// The state after the tokens `namespace`, a name and `{` or `;`.
pub open spec fn after_namespace_header(s: StateV, kw: Token, name: Token, end: Token) -> StateV {
    token_state(token_state(token_state(s, kw), name), end)
}

/// A brace-delimited namespace `namespace N {` puts the declarations inside
/// it under `N` within the namespace in effect, leaves the table alone, and
/// once its declaration is reduced the namespace in effect before it is
/// restored, so a sibling declaration after it is not under `N`.
pub proof fn namespace_block_scopes_its_declarations(s: StateV, kw: Token, name: Token, brace: Token, c: String, p: Pos)
    requires
        s.ns.namespace is Delimited,
        !s.ns.building,
        kw.kind == TokenKind::Namespace,
        name.kind == TokenKind::Name,
        brace.kind == TokenKind::LeftBrace,
    ensures
        after_namespace_header(s, kw, name, brace).decls == s.decls,
        name_of(current_ns(after_namespace_header(s, kw, name, brace).ns), Node_::Name(c, p))
            == Ok::<(Seq<char>, Pos), DeclError>((in_namespace(in_namespace(current_ns(s.ns), name.text@), c@), p)),
        can_pop(after_namespace_header(s, kw, name, brace).ns),
        current_ns(popped(after_namespace_header(s, kw, name, brace).ns)) == current_ns(s.ns),
{
    let inside = after_namespace_header(s, kw, name, brace);
    assert(inside.ns == closed(named(s.ns, name.text@), true));
    delimited_namespace_nests_and_pops(s.ns, name.text@);
}

/// A namespace statement `namespace N;` makes `N` the namespace in effect,
/// replacing a simple one instead of nesting in it.
pub proof fn namespace_statement_replaces(s: StateV, kw: Token, name: Token, semi: Token, c: String, p: Pos)
    requires
        s.ns.namespace is Simple || s.ns.namespace == NamespaceTypeV::Delimited(Seq::empty()),
        !s.ns.building,
        kw.kind == TokenKind::Namespace,
        name.kind == TokenKind::Name,
        semi.kind == TokenKind::Semicolon,
    ensures
        after_namespace_header(s, kw, name, semi).decls == s.decls,
        current_ns(after_namespace_header(s, kw, name, semi).ns) == name.text@,
        name_of(current_ns(after_namespace_header(s, kw, name, semi).ns), Node_::Name(c, p))
            == Ok::<(Seq<char>, Pos), DeclError>((in_namespace(name.text@, c@), p)),
{
    assert(ns_seed(s.ns) + name.text@ == name.text@);
}

/// A parameter list that holds anything but variables is a hard error.
pub proof fn non_variable_parameter_list_is_error(ns: Seq<char>, list: Node_, tvars: Seq<Seq<char>>, i: int)
    requires
        list is List,
        0 <= i < list->List_0@.len(),
        !(list->List_0@[i] is Variable),
    ensures
        params_of(ns, list, tvars) is Err,
{
    lemma_params_seq_err(ns, list->List_0@, tvars, i);
}

/// Extraction depends on nothing but its input: from equal states, the same
/// token or declaration leads to equal states and equal results, so two passes
/// over the same stream end with equal tables.
pub proof fn equal_states_take_equal_steps(s1: StateV, s2: StateV, t: Token, header: Node_, name: Node_, hint: Node_)
    requires
        s1 == s2,
    ensures
        token_state(s1, t) == token_state(s2, t),
        fun_decl_of(s1, header) == fun_decl_of(s2, header),
        name_of(current_ns(s1.ns), name) == name_of(current_ns(s2.ns), name),
        ty_of(current_ns(s1.ns), hint, Seq::empty()) == ty_of(current_ns(s2.ns), hint, Seq::empty()),
{
}

} // verus!
