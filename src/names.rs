//! Resolution of name nodes to fully qualified names, and the mangling of
//! XHP class names.

use vstd::prelude::*;
use crate::node::{DeclError, Expected, Node_, NodeKind, kind_of};
use crate::pos::Pos;

verus! {

/// `p` is a prefix of `s`.
pub open spec fn has_prefix(s: Seq<char>, p: Seq<char>) -> bool {
    p.len() <= s.len() && s.subrange(0, p.len() as int) == p
}

/// What one character of an XHP name becomes: `:` turns into `__`, `-` into `_`.
pub open spec fn mangle_char(c: char) -> Seq<char> {
    if c == ':' {
        seq!['_', '_']
    } else if c == '-' {
        seq!['_']
    } else {
        seq![c]
    }
}

/// Every `:` replaced by `__` and every `-` by `_`.
pub open spec fn mangle_chars(s: Seq<char>) -> Seq<char>
    decreases s.len(),
{
    if s.len() == 0 {
        Seq::empty()
    } else {
        mangle_chars(s.drop_last()) + mangle_char(s.last())
    }
}

/// Names the compiler makes up for anonymous classes and closures.
pub open spec fn is_synthesized(s: Seq<char>) -> bool {
    has_prefix(s, "class@anonymous"@) || has_prefix(s, "Closure$"@)
}

/// The mangled form of an XHP class name: a leading `:` becomes `xhp_`, the
/// other colons `__` and hyphens `_`; synthesized names are left alone.
pub open spec fn mangle_xhp_spec(s: Seq<char>) -> Seq<char> {
    if is_synthesized(s) {
        s
    } else if s.len() > 0 && s[0] == ':' {
        "xhp_"@ + mangle_chars(s.drop_first())
    } else {
        mangle_chars(s)
    }
}

/// Whether `s` begins with `p`.
pub fn starts_with(s: &str, p: &str) -> (r: bool)
    ensures
        r == has_prefix(s@, p@),
{
    let n = s.unicode_len();
    let m = p.unicode_len();
    if m > n {
        return false;
    }
    let mut i: usize = 0;
    while i < m
        invariant
            m == p@.len(),
            n == s@.len(),
            m <= n,
            i <= m,
            s@.subrange(0, i as int) == p@.subrange(0, i as int),
        decreases m - i,
    {
        if s.get_char(i) != p.get_char(i) {
            assert(s@.subrange(0, m as int)[i as int] != p@[i as int]);
            return false;
        }
        assert(s@.subrange(0, i + 1) == s@.subrange(0, i as int).push(s@[i as int]));
        assert(p@.subrange(0, i + 1) == p@.subrange(0, i as int).push(p@[i as int]));
        i = i + 1;
    }
    assert(p@.subrange(0, m as int) == p@);
    true
}

/// Whether two strings hold the same characters.
pub fn same_chars(a: &str, b: &str) -> (r: bool)
    ensures
        r == (a@ == b@),
{
    let n = a.unicode_len();
    if n != b.unicode_len() {
        return false;
    }
    let mut i: usize = 0;
    while i < n
        invariant
            n == a@.len(),
            n == b@.len(),
            i <= n,
            a@.subrange(0, i as int) == b@.subrange(0, i as int),
        decreases n - i,
    {
        if a.get_char(i) != b.get_char(i) {
            return false;
        }
        assert(a@.subrange(0, i + 1) == a@.subrange(0, i as int).push(a@[i as int]));
        assert(b@.subrange(0, i + 1) == b@.subrange(0, i as int).push(b@[i as int]));
        i = i + 1;
    }
    assert(a@.subrange(0, n as int) == a@);
    assert(b@.subrange(0, n as int) == b@);
    true
}

/// Appends the mangled form of `s[from..]` to `out`.
fn push_mangled(out: &mut String, s: &str, from: usize)
    requires
        from <= s@.len(),
    ensures
        final(out)@ == old(out)@ + mangle_chars(s@.subrange(from as int, s@.len() as int)),
{
    let n = s.unicode_len();
    let mut i: usize = from;
    while i < n
        invariant
            n == s@.len(),
            from <= i <= n,
            out@ == old(out)@ + mangle_chars(s@.subrange(from as int, i as int)),
        decreases n - i,
    {
        let c = s.get_char(i);
        let ghost before = out@;
        if c == ':' {
            out.append("__");
        } else if c == '-' {
            out.append("_");
        } else {
            out.append(s.substring_char(i, i + 1));
        }
        proof {
            reveal_strlit("__");
            reveal_strlit("_");
            let t = s@.subrange(from as int, i + 1);
            assert(t.drop_last() == s@.subrange(from as int, i as int));
            assert(t.last() == c);
            assert(s@.subrange(i as int, i + 1) == seq![c]);
            assert(out@ == before + mangle_char(c));
        }
        i = i + 1;
    }
}

/// Turns an XHP class name into an ordinary identifier (`:x:frag` becomes
/// `xhp_x__frag`); names of anonymous classes and closures come back as they are.
pub fn mangle_xhp_id(name: String) -> (r: String)
    ensures
        r@ == mangle_xhp_spec(name@),
{
    proof {
        reveal_strlit("class@anonymous");
        reveal_strlit("Closure$");
    }
    if starts_with(name.as_str(), "class@anonymous") || starts_with(name.as_str(), "Closure$") {
        return name;
    }
    let n = name.as_str().unicode_len();
    let mut out = String::new();
    if n > 0 && name.as_str().get_char(0) == ':' {
        out.append("xhp_");
        proof { reveal_strlit("xhp_"); }
        push_mangled(&mut out, name.as_str(), 1);
        assert(name@.subrange(1, name@.len() as int) == name@.drop_first());
    } else {
        push_mangled(&mut out, name.as_str(), 0);
        assert(name@.subrange(0, name@.len() as int) == name@);
    }
    out
}

/// The text of a qualified name, read from its parts in order.
pub open spec fn qualified_text(parts: Seq<Node_>) -> Result<Seq<char>, DeclError>
    decreases parts.len(),
{
    if parts.len() == 0 {
        Ok(Seq::empty())
    } else {
        match qualified_text(parts.drop_last()) {
            Err(e) => Err(e),
            Ok(acc) => match parts.last() {
                Node_::Name(n, _) => Ok(acc + n@),
                Node_::Backslash(_) => Ok(acc.push('\\')),
                Node_::ListItem(b) => match (b.0, b.1) {
                    (Node_::Name(n, _), Node_::Backslash(_)) => Ok((acc + n@).push('\\')),
                    _ => Err(DeclError::Unexpected(Expected::NameOrBackslash, NodeKind::ListItem)),
                },
                n => Err(DeclError::Unexpected(Expected::NameBackslashOrListItem, kind_of(n))),
            },
        }
    }
}

/// `name` under namespace `ns`: unchanged when `ns` is empty, else joined
/// with one separator.
pub open spec fn in_namespace(ns: Seq<char>, name: Seq<char>) -> Seq<char> {
    if ns.len() == 0 {
        name
    } else {
        ns.push('\\') + name
    }
}

/// A qualified name under namespace `ns`: unchanged when `ns` is empty,
/// else joined with one separator, added only when `ns` does not already end
/// with one.
pub open spec fn under_namespace(ns: Seq<char>, q: Seq<char>) -> Seq<char> {
    if ns.len() == 0 {
        q
    } else if ns.last() == '\\' {
        ns + q
    } else {
        ns.push('\\') + q
    }
}

/// The fully qualified name and the span of a name node read under `ns`.
pub open spec fn name_of(ns: Seq<char>, n: Node_) -> Result<(Seq<char>, Pos), DeclError> {
    match n {
        Node_::Name(s, p) => Ok((in_namespace(ns, s@), p)),
        Node_::XhpName(s, p) => Ok((mangle_xhp_spec(s@), p)),
        Node_::QualifiedName(parts, p) => match qualified_text(parts@) {
            Err(e) => Err(e),
            Ok(q) => if q.len() > 0 && q[0] == '\\' {
                Ok((q, p))
            } else {
                Ok((under_namespace(ns, q), p))
            },
        },
        _ => Err(DeclError::Unexpected(Expected::NameXhpOrQualified, kind_of(n))),
    }
}

/// `r` holds what `spec` describes, strings read through their views.
pub open spec fn name_result(r: Result<(String, Pos), DeclError>, spec: Result<(Seq<char>, Pos), DeclError>) -> bool {
    match (r, spec) {
        (Ok((s, p)), Ok((t, q))) => s@ == t && p == q,
        (Err(e), Err(f)) => e == f,
        _ => false,
    }
}

/// `name` under namespace `ns`.
fn join_namespace(ns: &str, name: &str) -> (r: String)
    ensures
        r@ == in_namespace(ns@, name@),
{
    if ns.unicode_len() == 0 {
        name.to_owned()
    } else {
        let mut s = ns.to_owned();
        s.append("\\");
        s.append(name);
        proof { reveal_strlit("\\"); }
        s
    }
}

fn qualified_name_text(parts: &Vec<Node_>) -> (r: Result<String, DeclError>)
    ensures
        match (r, qualified_text(parts@)) {
            (Ok(s), Ok(t)) => s@ == t,
            (Err(e), Err(f)) => e == f,
            _ => false,
        },
{
    let mut text = String::new();
    let mut i: usize = 0;
    proof { reveal_strlit("\\"); }
    while i < parts.len()
        invariant
            i <= parts@.len(),
            qualified_text(parts@.subrange(0, i as int)) == Ok::<Seq<char>, DeclError>(text@),
        decreases parts@.len() - i,
    {
        assert(parts@.subrange(0, i + 1).drop_last() == parts@.subrange(0, i as int));
        assert(parts@.subrange(0, i + 1).last() == parts@[i as int]);
        proof {
            reveal_strlit("\\");
            assert("\\"@ =~= seq!['\\']);
            assert(forall|a: Seq<char>| a.push('\\') =~= a + "\\"@);
        }
        match &parts[i] {
            Node_::Name(name, _) => text.append(name.as_str()),
            Node_::Backslash(_) => text.append("\\"),
            Node_::ListItem(item) => match (&item.0, &item.1) {
                (Node_::Name(name, _), Node_::Backslash(_)) => {
                    text.append(name.as_str());
                    text.append("\\");
                },
                _ => {
                    proof { lemma_qualified_err_prefix(parts@, i as int + 1); }
                    return Err(DeclError::Unexpected(Expected::NameOrBackslash, NodeKind::ListItem));
                },
            },
            n => {
                let k = n.kind();
                proof { lemma_qualified_err_prefix(parts@, i as int + 1); }
                return Err(DeclError::Unexpected(Expected::NameBackslashOrListItem, k));
            },
        }
        i = i + 1;
    }
    assert(parts@.subrange(0, i as int) == parts@);
    Ok(text)
}

proof fn lemma_qualified_err_prefix(parts: Seq<Node_>, k: int)
    requires
        0 <= k <= parts.len(),
        qualified_text(parts.subrange(0, k)) is Err,
    ensures
        qualified_text(parts) == qualified_text(parts.subrange(0, k)),
    decreases parts.len() - k,
{
    if k < parts.len() {
        assert(parts.subrange(0, k + 1).drop_last() == parts.subrange(0, k));
        lemma_qualified_err_prefix(parts, k + 1);
    } else {
        assert(parts.subrange(0, k) == parts);
    }
}

/// A qualified name put under `namespace` unless it starts with a separator.
fn qualify(namespace: &str, q: String) -> (r: String)
    ensures
        r@ == (if q@.len() > 0 && q@[0] == '\\' { q@ } else { under_namespace(namespace@, q@) }),
{
    proof { reveal_strlit("\\"); }
    let lead = starts_with(q.as_str(), "\\");
    proof {
        assert("\\"@ =~= seq!['\\']);
        if q@.len() > 0 && q@[0] == '\\' {
            assert(q@.subrange(0, 1) =~= seq!['\\']);
        }
        if lead {
            assert(q@.subrange(0, 1)[0] == q@[0]);
        }
    }
    if lead {
        return q;
    }
    let n = namespace.unicode_len();
    if n > 0 && namespace.get_char(n - 1) == '\\' {
        let mut r = namespace.to_owned();
        r.append(q.as_str());
        r
    } else {
        join_namespace(namespace, q.as_str())
    }
}

/// The fully qualified name and span of a name node read under `namespace`:
/// a simple name is put under the namespace, an XHP name is mangled and never
/// qualified, and a qualified name is put under the namespace unless it
/// starts with a separator.
pub fn get_name(namespace: &str, name: &Node_) -> (r: Result<(String, Pos), DeclError>)
    ensures
        name_result(r, name_of(namespace@, *name)),
{
    match name {
        Node_::Name(name, pos) => Ok((join_namespace(namespace, name.as_str()), *pos)),
        Node_::XhpName(name, pos) => Ok((mangle_xhp_id(name.clone()), *pos)),
        Node_::QualifiedName(parts, pos) => {
            let q = qualified_name_text(parts)?;
            Ok((qualify(namespace, q), *pos))
        },
        n => Err(DeclError::Unexpected(Expected::NameXhpOrQualified, n.kind())),
    }
}

} // verus!
