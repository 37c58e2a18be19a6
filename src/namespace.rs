//! Tracks the namespace in effect while tokens stream past, so that it is
//! known before any declaration inside it is reduced.

use vstd::prelude::*;
use crate::names::in_namespace;
use crate::deep_copy::DeepCopy;

verus! {

/// Either one file-wide namespace, set by `namespace X;`, or the stack of
/// brace-delimited namespaces that enclose the current point.
pub enum NamespaceType {
    Simple(String),
    Delimited(Vec<String>),
}

pub enum NamespaceTypeV {
    Simple(Seq<char>),
    Delimited(Seq<Seq<char>>),
}

pub struct NamespaceBuilder {
    namespace: NamespaceType,
    in_progress_namespace: String,
    is_building_namespace: bool,
}

/// The namespace state with names as character sequences.
pub struct NamespaceBuilderV {
    pub namespace: NamespaceTypeV,
    pub in_progress: Seq<char>,
    pub building: bool,
}

pub open spec fn strings_view(v: Seq<String>) -> Seq<Seq<char>> {
    v.map_values(|s: String| s@)
}

/// The namespace in effect: the simple one, or the innermost delimited one,
/// or none (the empty name).
pub open spec fn current_ns(nb: NamespaceBuilderV) -> Seq<char> {
    match nb.namespace {
        NamespaceTypeV::Simple(s) => s,
        NamespaceTypeV::Delimited(stack) => if stack.len() == 0 {
            Seq::empty()
        } else {
            stack.last()
        },
    }
}

/// What the name of a namespace declaration begins with: the innermost
/// enclosing delimited namespace and a separator, or nothing when there is
/// none or it is the global one. A simple namespace does not enclose the next
/// one: it is replaced.
pub open spec fn ns_seed(nb: NamespaceBuilderV) -> Seq<char> {
    match nb.namespace {
        NamespaceTypeV::Delimited(stack) => if stack.len() == 0 || stack.last().len() == 0 {
            Seq::empty()
        } else {
            stack.last().push('\\')
        },
        NamespaceTypeV::Simple(_) => Seq::empty(),
    }
}

/// A namespace can be left: the stack of delimited ones is not empty.
pub open spec fn can_pop(nb: NamespaceBuilderV) -> bool {
    nb.namespace is Delimited ==> nb.namespace->Delimited_0.len() > 0
}

/// The state after leaving a namespace declaration.
pub open spec fn popped(nb: NamespaceBuilderV) -> NamespaceBuilderV {
    match nb.namespace {
        NamespaceTypeV::Delimited(stack) => {
            let ns = NamespaceTypeV::Delimited(stack.drop_last());
            let after = NamespaceBuilderV { namespace: ns, in_progress: nb.in_progress, building: nb.building };
            NamespaceBuilderV { in_progress: current_ns(after), ..after }
        },
        NamespaceTypeV::Simple(_) => nb,
    }
}

/// The state after the name of a namespace declaration ends: a brace pushes
/// it onto the stack, a semicolon makes it the file-wide namespace.
pub open spec fn closed(nb: NamespaceBuilderV, brace: bool) -> NamespaceBuilderV {
    let ns = if brace {
        match nb.namespace {
            NamespaceTypeV::Delimited(stack) => NamespaceTypeV::Delimited(stack.push(nb.in_progress)),
            NamespaceTypeV::Simple(s) => NamespaceTypeV::Simple(s),
        }
    } else {
        NamespaceTypeV::Simple(nb.in_progress)
    };
    NamespaceBuilderV { namespace: ns, in_progress: nb.in_progress, building: false }
}

impl View for NamespaceBuilder {
    type V = NamespaceBuilderV;

    closed spec fn view(&self) -> NamespaceBuilderV {
        NamespaceBuilderV {
            namespace: match self.namespace {
                NamespaceType::Simple(s) => NamespaceTypeV::Simple(s@),
                NamespaceType::Delimited(v) => NamespaceTypeV::Delimited(strings_view(v@)),
            },
            in_progress: self.in_progress_namespace@,
            building: self.is_building_namespace,
        }
    }
}

impl NamespaceBuilder {
    pub open spec fn new_spec() -> NamespaceBuilderV {
        NamespaceBuilderV {
            namespace: NamespaceTypeV::Delimited(Seq::empty()),
            in_progress: Seq::empty(),
            building: false,
        }
    }

    /// No namespace, and none being read.
    pub fn new() -> (r: NamespaceBuilder)
        ensures
            r@ == Self::new_spec(),
    {
        let r = NamespaceBuilder {
            namespace: NamespaceType::Delimited(Vec::new()),
            in_progress_namespace: String::new(),
            is_building_namespace: false,
        };
        assert(strings_view(Seq::<String>::empty()) =~= Seq::<Seq<char>>::empty());
        r
    }

    pub fn is_building(&self) -> (r: bool)
        ensures
            r == self@.building,
    {
        self.is_building_namespace
    }

    /// The namespace in effect.
    pub fn current_namespace(&self) -> (r: &str)
        ensures
            r@ == current_ns(self@),
    {
        match &self.namespace {
            NamespaceType::Simple(s) => s.as_str(),
            NamespaceType::Delimited(stack) => if stack.len() == 0 {
                proof { reveal_strlit(""); }
                ""
            } else {
                stack[stack.len() - 1].as_str()
            },
        }
    }

    /// A namespace keyword: start reading its name from the seed.
    pub fn begin_namespace(&mut self)
        ensures
            final(self)@ == (NamespaceBuilderV { in_progress: ns_seed(old(self)@), building: true, ..old(self)@ }),
    {
        let mut seed = String::new();
        match &self.namespace {
            NamespaceType::Delimited(stack) => if stack.len() > 0 && stack[stack.len() - 1].as_str().unicode_len() > 0 {
                seed = stack[stack.len() - 1].clone();
                seed.append("\\");
                proof { reveal_strlit("\\"); }
            },
            NamespaceType::Simple(_) => {},
        }
        self.in_progress_namespace = seed;
        self.is_building_namespace = true;
        assert(self.in_progress_namespace@ == ns_seed(old(self)@));
    }

    /// Adds a piece of the namespace name being read.
    pub fn append(&mut self, text: &str)
        ensures
            final(self)@ == (NamespaceBuilderV { in_progress: old(self)@.in_progress + text@, ..old(self)@ }),
    {
        self.in_progress_namespace.append(text);
    }

    /// The namespace name ends: at a brace it is pushed, at a semicolon it
    /// becomes the file-wide namespace.
    pub fn close_namespace(&mut self, brace: bool)
        ensures
            final(self)@ == closed(old(self)@, brace),
    {
        if brace {
            self.push_namespace();
        } else {
            self.set_namespace();
        }
        self.is_building_namespace = false;
    }

    fn set_namespace(&mut self)
        ensures
            final(self)@ == (NamespaceBuilderV {
                namespace: NamespaceTypeV::Simple(old(self)@.in_progress),
                ..old(self)@
            }),
    {
        self.namespace = NamespaceType::Simple(self.in_progress_namespace.clone());
    }

    fn push_namespace(&mut self)
        ensures
            final(self)@ == (NamespaceBuilderV {
                namespace: match old(self)@.namespace {
                    NamespaceTypeV::Delimited(stack) => NamespaceTypeV::Delimited(stack.push(old(self)@.in_progress)),
                    NamespaceTypeV::Simple(s) => NamespaceTypeV::Simple(s),
                },
                ..old(self)@
            }),
    {
        let name = self.in_progress_namespace.clone();
        match &mut self.namespace {
            NamespaceType::Delimited(stack) => {
                let ghost before = stack@;
                stack.push(name);
                assert(strings_view(stack@) =~= strings_view(before).push(name@));
            },
            NamespaceType::Simple(_) => {},
        }
    }

    /// Leaves the innermost delimited namespace.
    pub fn pop_namespace(&mut self)
        requires
            can_pop(old(self)@),
        ensures
            final(self)@ == popped(old(self)@),
    {
        let popped_one = match &mut self.namespace {
            NamespaceType::Delimited(stack) => {
                let ghost before = stack@;
                let _ = stack.pop();
                assert(strings_view(stack@) =~= strings_view(before).drop_last());
                true
            },
            NamespaceType::Simple(_) => false,
        };
        if popped_one {
            let cur = self.current_namespace().to_owned();
            self.in_progress_namespace = cur;
        }
    }
}

impl DeepCopy for NamespaceBuilder {
    fn deep_copy(&self) -> (r: NamespaceBuilder) {
        let namespace = match &self.namespace {
            NamespaceType::Simple(s) => NamespaceType::Simple(s.clone()),
            NamespaceType::Delimited(stack) => {
                let mut out: Vec<String> = Vec::new();
                let mut i: usize = 0;
                while i < stack.len()
                    invariant
                        i <= stack@.len(),
                        out@.len() == i,
                        forall|j: int| 0 <= j < i ==> out@[j]@ == stack@[j]@,
                    decreases stack@.len() - i,
                {
                    out.push(stack[i].clone());
                    i = i + 1;
                }
                assert(strings_view(out@) =~= strings_view(stack@));
                NamespaceType::Delimited(out)
            },
        };
        NamespaceBuilder {
            namespace,
            in_progress_namespace: self.in_progress_namespace.clone(),
            is_building_namespace: self.is_building_namespace,
        }
    }
}

/// The state once a namespace keyword and the name `name` have been read.
pub open spec fn named(nb: NamespaceBuilderV, name: Seq<char>) -> NamespaceBuilderV {
    NamespaceBuilderV { in_progress: ns_seed(nb) + name, building: true, ..nb }
}

/// A brace-delimited namespace nests in the one in effect, and leaving it
/// restores that one.
pub proof fn delimited_namespace_nests_and_pops(nb: NamespaceBuilderV, name: Seq<char>)
    requires
        nb.namespace is Delimited,
    ensures
        current_ns(closed(named(nb, name), true)) == in_namespace(current_ns(nb), name),
        can_pop(closed(named(nb, name), true)),
        current_ns(popped(closed(named(nb, name), true))) == current_ns(nb),
{
    let stack = nb.namespace->Delimited_0;
    let inside = closed(named(nb, name), true);
    assert(inside.namespace->Delimited_0.drop_last() == stack);
    if stack.len() > 0 && stack.last().len() > 0 {
        assert(ns_seed(nb) + name == current_ns(nb).push('\\') + name);
    } else {
        assert(ns_seed(nb) + name == name);
    }
}

/// A simple namespace replaces the simple one in effect instead of nesting
/// in it.
pub proof fn simple_namespace_replaces(nb: NamespaceBuilderV, name: Seq<char>)
    requires
        nb.namespace is Simple,
    ensures
        current_ns(closed(named(nb, name), false)) == name,
{
    assert(ns_seed(nb) + name == name);
}

} // verus!
