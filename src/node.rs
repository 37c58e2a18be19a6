//! The intermediate value that every reduction step produces, and the generic
//! reduction rules shared by all grammar productions.

use vstd::prelude::*;
use crate::pos::{Pos, merge_spec};
use crate::typing_defs::{ConstraintKind, Id};

verus! {

/// A type hint: a primitive, or a nominal type applied to argument hints.
#[derive(Debug)]
pub enum HintValue {
    Void,
    Int,
    Bool,
    Float,
    String,
    Num,
    ArrayKey,
    NoReturn,
    Apply(Id, Vec<Node_>),
}

/// A parameter: its hint, its name and where the name stands.
#[derive(Debug)]
pub struct VariableDecl {
    pub hint: Node_,
    pub name: String,
    pub pos: Pos,
}

/// The parts of a function header, kept until the whole declaration is reduced.
#[derive(Debug)]
pub struct FunctionDecl {
    pub name: Node_,
    pub modifiers: Node_,
    pub type_params: Node_,
    pub param_list: Node_,
    pub ret_hint: Node_,
}

/// The value that a reduction step hands to its parent.
#[derive(Debug)]
pub enum Node_ {
    List(Vec<Node_>),
    BracketedList(Box<(Pos, Vec<Node_>, Pos)>),
    Ignored,
    Name(String, Pos),
    XhpName(String, Pos),
    QualifiedName(Vec<Node_>, Pos),
    Hint(HintValue, Pos),
    Backslash(Pos),
    ListItem(Box<(Node_, Node_)>),
    Variable(Box<VariableDecl>),
    FunctionHeader(Box<FunctionDecl>),
    TypeConstraint(Box<(ConstraintKind, Node_)>),
    LessThan(Pos),
    GreaterThan(Pos),
    TypeParameter(Box<(Node_, Vec<(ConstraintKind, Node_)>)>),
    As,
    Super,
    Async,
}

/// The variant of a node, without its contents.
#[derive(Clone, Copy, Debug, PartialEq, Eq, Structural)]
pub enum NodeKind {
    List,
    BracketedList,
    Ignored,
    Name,
    XhpName,
    QualifiedName,
    Hint,
    Backslash,
    ListItem,
    Variable,
    FunctionHeader,
    TypeConstraint,
    LessThan,
    GreaterThan,
    TypeParameter,
    As,
    Super,
    Async,
}

/// The shape that a reduction required where it found another.
#[derive(Clone, Copy, Debug, PartialEq, Eq, Structural)]
pub enum Expected {
    NameOrBackslash,
    NameBackslashOrListItem,
    NameXhpOrQualified,
    Variable,
    VariableList,
    TypeConstraint,
    TypeParameter,
    AsOrSuper,
}

/// A hard error: extraction of the file is abandoned.
#[derive(Debug)]
pub enum DeclError {
    /// A node of the given kind stood where another shape was required.
    Unexpected(Expected, NodeKind),
    /// No span could be found for a node of the given kind.
    NoPosition(NodeKind),
    /// The aliased hint of the named type alias did not resolve.
    TypeAlias(String, Box<DeclError>),
    /// The hint of the named constant did not resolve.
    Constant(String, Box<DeclError>),
}

/// The result of a reduction step.
pub type Node = Result<Node_, DeclError>;

pub open spec fn kind_of(n: Node_) -> NodeKind {
    match n {
        Node_::List(_) => NodeKind::List,
        Node_::BracketedList(_) => NodeKind::BracketedList,
        Node_::Ignored => NodeKind::Ignored,
        Node_::Name(..) => NodeKind::Name,
        Node_::XhpName(..) => NodeKind::XhpName,
        Node_::QualifiedName(..) => NodeKind::QualifiedName,
        Node_::Hint(..) => NodeKind::Hint,
        Node_::Backslash(_) => NodeKind::Backslash,
        Node_::ListItem(_) => NodeKind::ListItem,
        Node_::Variable(_) => NodeKind::Variable,
        Node_::FunctionHeader(_) => NodeKind::FunctionHeader,
        Node_::TypeConstraint(_) => NodeKind::TypeConstraint,
        Node_::LessThan(_) => NodeKind::LessThan,
        Node_::GreaterThan(_) => NodeKind::GreaterThan,
        Node_::TypeParameter(_) => NodeKind::TypeParameter,
        Node_::As => NodeKind::As,
        Node_::Super => NodeKind::Super,
        Node_::Async => NodeKind::Async,
    }
}

/// The children that a node stands for when read as a sequence.
pub open spec fn into_vec_spec(n: Node_) -> Seq<Node_> {
    match n {
        Node_::List(items) => items@,
        Node_::BracketedList(b) => b.1@,
        Node_::Ignored => Seq::empty(),
        _ => seq![n],
    }
}

/// The span of a node, where it has one.
pub open spec fn pos_of(n: Node_) -> Option<Pos>
    decreases n,
{
    match n {
        Node_::Name(_, p) => Some(p),
        Node_::Hint(_, p) => Some(p),
        Node_::Backslash(p) => Some(p),
        Node_::LessThan(p) => Some(p),
        Node_::GreaterThan(p) => Some(p),
        Node_::ListItem(b) => match (pos_of(b.0), pos_of(b.1)) {
            (Some(p), Some(q)) => Some(merge_spec(p, q)),
            (Some(p), None) => Some(p),
            (None, q) => q,
        },
        Node_::List(items) => pos_of_seq(items@),
        Node_::BracketedList(b) => match pos_of_seq(b.1@) {
            Some(p) => Some(merge_spec(b.0, merge_spec(p, b.2))),
            None => None,
        },
        _ => None,
    }
}

/// The span covering every node of `s` that has one.
pub open spec fn pos_of_seq(s: Seq<Node_>) -> Option<Pos>
    decreases s,
{
    if s.len() == 0 {
        None
    } else {
        match (pos_of_seq(s.drop_last()), pos_of(s.last())) {
            (Some(p), Some(q)) => Some(merge_spec(p, q)),
            (None, q) => q,
            (p, None) => p,
        }
    }
}

/// The nodes of `s` that are not placeholders, in order.
pub open spec fn without_placeholders(s: Seq<Node_>) -> Seq<Node_>
    decreases s.len(),
{
    if s.len() == 0 {
        Seq::empty()
    } else if s.last() is Ignored {
        without_placeholders(s.drop_last())
    } else {
        without_placeholders(s.drop_last()).push(s.last())
    }
}

/// The nodes that a sequence of results splices into its parent: lists are
/// opened, placeholders dropped; the first error wins.
pub open spec fn flatten_items(lst: Seq<Node>) -> Result<Seq<Node_>, DeclError>
    decreases lst.len(),
{
    if lst.len() == 0 {
        Ok(Seq::empty())
    } else {
        match flatten_items(lst.drop_last()) {
            Err(e) => Err(e),
            Ok(acc) => match lst.last() {
                Err(e) => Err(e),
                Ok(Node_::List(children)) => Ok(acc + without_placeholders(children@)),
                Ok(Node_::Ignored) => Ok(acc),
                Ok(n) => Ok(acc.push(n)),
            },
        }
    }
}

/// `r` is what the nodes `items` collapse to: nothing gives the placeholder,
/// one node stands for itself, more make a list.
pub open spec fn collapses_to(items: Seq<Node_>, r: Node_) -> bool {
    if items.len() == 0 {
        r is Ignored
    } else if items.len() == 1 {
        r == items[0]
    } else {
        r is List && r->List_0@ == items
    }
}

/// `r` is the reduction of the results `lst` by the generic rule.
pub open spec fn is_flatten_of(lst: Seq<Node>, r: Node) -> bool {
    match flatten_items(lst) {
        Err(e) => r == Err::<Node_, DeclError>(e),
        Ok(items) => r is Ok && collapses_to(items, r->Ok_0),
    }
}

/// The placeholder node.
pub fn zero() -> (r: Node)
    ensures
        r == Ok::<Node_, DeclError>(Node_::Ignored),
{
    Ok(Node_::Ignored)
}

/// Whether `s` is the placeholder node.
pub fn is_zero(s: &Node) -> (r: bool)
    ensures
        r == (*s is Ok && s->Ok_0 is Ignored),
{
    match s {
        Ok(Node_::Ignored) => true,
        _ => false,
    }
}

/// The generic reduction: splices child lists into one sequence, drops
/// placeholders, then collapses the survivors.
pub fn flatten(input: Vec<Node>) -> (r: Node)
    ensures
        is_flatten_of(input@, r),
{
    let ghost all = input@;
    let _ = input.len();
    assert(all.subrange(0, 0) =~= Seq::<Node>::empty());
    let mut lst = input;
    let mut out: Vec<Node_> = Vec::new();
    let mut done: usize = 0;
    while lst.len() > 0
        invariant
            done + lst@.len() == all.len(),
            all.len() <= usize::MAX,
            all == input@,
            lst@ == all.subrange(done as int, all.len() as int),
            flatten_items(all.subrange(0, done as int)) == Ok::<Seq<Node_>, DeclError>(out@),
        decreases lst@.len(),
    {
        let x = lst.remove(0);
        let ghost pre = all.subrange(0, done as int);
        assert(all.subrange(0, done + 1).drop_last() == pre);
        assert(all.subrange(0, done + 1).last() == x);
        match x {
            Err(e) => {
                assert(flatten_items(all.subrange(0, done + 1)) == Err::<Seq<Node_>, DeclError>(e));
                proof { lemma_flatten_err_prefix(all, done as int + 1); }
                assert(flatten_items(all) == Err::<Seq<Node_>, DeclError>(e));
                return Err(e);
            },
            Ok(Node_::List(children)) => {
                push_present(&mut out, children);
            },
            Ok(Node_::Ignored) => {},
            Ok(n) => {
                out.push(n);
            },
        }
        done = done + 1;
    }
    assert(all.subrange(0, done as int) == all);
    if out.len() == 0 {
        Ok(Node_::Ignored)
    } else if out.len() == 1 {
        let n = out.pop().unwrap();
        Ok(n)
    } else {
        Ok(Node_::List(out))
    }
}

/// Appends the nodes of `children` that are not placeholders to `out`.
fn push_present(out: &mut Vec<Node_>, children: Vec<Node_>)
    ensures
        final(out)@ == old(out)@ + without_placeholders(children@),
{
    let ghost all = children@;
    let _ = children.len();
    let mut rest = children;
    let mut done: usize = 0;
    assert(all.subrange(0, 0) =~= Seq::<Node_>::empty());
    assert(old(out)@ + Seq::<Node_>::empty() =~= old(out)@);
    while rest.len() > 0
        invariant
            done + rest@.len() == all.len(),
            all.len() <= usize::MAX,
            rest@ == all.subrange(done as int, all.len() as int),
            out@ == old(out)@ + without_placeholders(all.subrange(0, done as int)),
        decreases rest@.len(),
    {
        let x = rest.remove(0);
        assert(all.subrange(0, done + 1).drop_last() == all.subrange(0, done as int));
        assert(all.subrange(0, done + 1).last() == x);
        let ghost before = out@;
        match x {
            Node_::Ignored => {},
            n => {
                out.push(n);
                assert(out@ =~= before.push(n));
            },
        }
        done = done + 1;
    }
    assert(all.subrange(0, done as int) == all);
}

/// An error in a prefix is the error of the whole.
proof fn lemma_flatten_err_prefix(all: Seq<Node>, k: int)
    requires
        0 <= k <= all.len(),
        flatten_items(all.subrange(0, k)) is Err,
    ensures
        flatten_items(all) == flatten_items(all.subrange(0, k)),
    decreases all.len() - k,
{
    if k < all.len() {
        assert(all.subrange(0, k + 1).drop_last() == all.subrange(0, k));
        lemma_flatten_err_prefix(all, k + 1);
    } else {
        assert(all.subrange(0, k) == all);
    }
}

impl Node_ {
    /// The variant of this node.
    pub fn kind(&self) -> (r: NodeKind)
        ensures
            r == kind_of(*self),
    {
        match self {
            Node_::List(_) => NodeKind::List,
            Node_::BracketedList(_) => NodeKind::BracketedList,
            Node_::Ignored => NodeKind::Ignored,
            Node_::Name(..) => NodeKind::Name,
            Node_::XhpName(..) => NodeKind::XhpName,
            Node_::QualifiedName(..) => NodeKind::QualifiedName,
            Node_::Hint(..) => NodeKind::Hint,
            Node_::Backslash(_) => NodeKind::Backslash,
            Node_::ListItem(_) => NodeKind::ListItem,
            Node_::Variable(_) => NodeKind::Variable,
            Node_::FunctionHeader(_) => NodeKind::FunctionHeader,
            Node_::TypeConstraint(_) => NodeKind::TypeConstraint,
            Node_::LessThan(_) => NodeKind::LessThan,
            Node_::GreaterThan(_) => NodeKind::GreaterThan,
            Node_::TypeParameter(_) => NodeKind::TypeParameter,
            Node_::As => NodeKind::As,
            Node_::Super => NodeKind::Super,
            Node_::Async => NodeKind::Async,
        }
    }

    /// The span of this node: its own, or the one covering its children.
    pub fn get_pos(&self) -> (r: Result<Pos, DeclError>)
        ensures
            match pos_of(*self) {
                Some(p) => r == Ok::<Pos, DeclError>(p),
                None => r == Err::<Pos, DeclError>(DeclError::NoPosition(kind_of(*self))),
            },
        decreases *self,
    {
        let found = match self {
            Node_::Name(_, pos) => Some(*pos),
            Node_::Hint(_, pos) => Some(*pos),
            Node_::Backslash(pos) | Node_::LessThan(pos) | Node_::GreaterThan(pos) => Some(*pos),
            Node_::ListItem(items) => match (items.0.get_pos(), items.1.get_pos()) {
                (Ok(p), Ok(q)) => Some(Pos::merge(&p, &q)),
                (Ok(p), Err(_)) => Some(p),
                (Err(_), Ok(q)) => Some(q),
                (Err(_), Err(_)) => None,
            },
            Node_::List(items) => Self::pos_from_vec(items),
            Node_::BracketedList(innards) => match Self::pos_from_vec(&innards.1) {
                Some(p) => Some(Pos::merge(&innards.0, &Pos::merge(&p, &innards.2))),
                None => None,
            },
            _ => None,
        };
        match found {
            Some(p) => Ok(p),
            None => Err(DeclError::NoPosition(self.kind())),
        }
    }

    /// The span covering every node of `nodes` that has one.
    fn pos_from_vec(nodes: &Vec<Node_>) -> (r: Option<Pos>)
        ensures
            r == pos_of_seq(nodes@),
        decreases nodes,
    {
        let mut acc: Option<Pos> = None;
        let mut i: usize = 0;
        while i < nodes.len()
            invariant
                i <= nodes@.len(),
                acc == pos_of_seq(nodes@.subrange(0, i as int)),
            decreases nodes@.len() - i,
        {
            assert(decreases_to!(nodes => nodes@[i as int]));
            let e = nodes[i].get_pos();
            assert(nodes@.subrange(0, i + 1).drop_last() == nodes@.subrange(0, i as int));
            acc = match (acc, e) {
                (Some(p), Ok(q)) => Some(Pos::merge(&p, &q)),
                (None, Ok(q)) => Some(q),
                (p, Err(_)) => p,
            };
            i = i + 1;
        }
        assert(nodes@.subrange(0, i as int) == nodes@);
        acc
    }

    /// The children that this node stands for when read as a sequence.
    pub fn into_vec(self) -> (r: Vec<Node_>)
        ensures
            r@ == into_vec_spec(self),
    {
        match self {
            Node_::List(items) => items,
            Node_::BracketedList(innards) => {
                let (_, items, _) = *innards;
                items
            },
            Node_::Ignored => Vec::new(),
            n => vec![n],
        }
    }
}

} // verus!
