use direct_decl::aast_defs::{Tprim, TypedefVisibility};
use direct_decl::names::{get_name, mangle_xhp_id};
use direct_decl::node::{flatten, is_zero, zero, DeclError, Expected, HintValue, Node, NodeKind, Node_};
use direct_decl::pos::Pos;
use direct_decl::smart_constructors::{DirectDeclSmartConstructors, InProgressDecls};
use direct_decl::token::{Token, TokenKind};
use direct_decl::typing_defs::{FunKind, Ty, Ty_};

/// Feeds tokens with increasing offsets to the extractor.
struct Feed {
    sc: DirectDeclSmartConstructors,
    offset: usize,
}

impl Feed {
    fn new() -> Feed {
        Feed { sc: DirectDeclSmartConstructors::new(), offset: 0 }
    }

    fn tok(&mut self, kind: TokenKind, text: &str) -> Node {
        let start = self.offset;
        self.offset += text.len() + 1;
        self.sc.make_token(Token::new(kind, text.to_string(), start, start + text.len()))
    }

    fn name(&mut self, text: &str) -> Node {
        self.tok(TokenKind::Name, text)
    }

    fn other(&mut self, text: &str) -> Node {
        self.tok(TokenKind::Other, text)
    }

    /// `namespace <parts> {` or `namespace <parts>;`, up to the brace or semicolon.
    fn namespace_header(&mut self, parts: &[&str], brace: bool) -> (Node, Node) {
        let kw = self.tok(TokenKind::Namespace, "namespace");
        let mut items = vec![];
        for (i, p) in parts.iter().enumerate() {
            if i > 0 {
                items.push(self.tok(TokenKind::Backslash, "\\"));
            }
            items.push(self.name(p));
        }
        let list = self.sc.make_list(items, 0);
        let name = self.sc.make_qualified_name(list);
        if brace {
            self.tok(TokenKind::LeftBrace, "{");
        } else {
            self.tok(TokenKind::Semicolon, ";");
        }
        (kw, name)
    }

    /// `class <name> {}`
    fn class(&mut self, name: &str) -> Node {
        let kw = self.other("class");
        let n = self.name(name);
        let lb = self.tok(TokenKind::LeftBrace, "{");
        let rb = self.other("}");
        let missing = self.sc.make_missing(0);
        let body = self.sc.make_classish_body(lb, missing, rb);
        let a = self.sc.make_missing(0);
        let b = self.sc.make_missing(0);
        let c = self.sc.make_missing(0);
        let d = self.sc.make_missing(0);
        let e = self.sc.make_missing(0);
        let f = self.sc.make_missing(0);
        let g = self.sc.make_missing(0);
        let h = self.sc.make_missing(0);
        let i = self.sc.make_missing(0);
        self.sc.make_classish_declaration(a, b, kw, n, c, d, e, f, g, h, body)
    }

    /// `function <name>(<hint> $<param>...): <ret> { <body> }`, with `yield`
    /// in the body when asked; hints are single names or primitive tokens.
    fn function(&mut self, is_async: bool, name: &str, tparams: &[&str], params: &[(&str, &str)], ret: Option<&str>, yields: bool) -> Node {
        let modifiers = if is_async {
            let a = self.tok(TokenKind::Async, "async");
            self.sc.make_list(vec![a], 0)
        } else {
            self.sc.make_missing(0)
        };
        let kw = self.tok(TokenKind::Function, "function");
        let n = self.name(name);
        let tps = if tparams.is_empty() {
            self.sc.make_missing(0)
        } else {
            let lt = self.tok(TokenKind::LessThan, "<");
            let mut items = vec![];
            for t in tparams {
                let tn = self.name(t);
                let m0 = self.sc.make_missing(0);
                let m1 = self.sc.make_missing(0);
                let m2 = self.sc.make_missing(0);
                let cs = self.sc.make_missing(0);
                let tp = self.sc.make_type_parameter(m0, m1, m2, tn, cs);
                let sep = self.sc.make_missing(0);
                items.push(self.sc.make_list_item(tp, sep));
            }
            let list = self.sc.make_list(items, 0);
            let gt = self.tok(TokenKind::GreaterThan, ">");
            self.sc.make_type_parameters(lt, list, gt)
        };
        let lp = self.other("(");
        let mut items = vec![];
        for (hint, var) in params {
            let h = self.hint(hint);
            let v = self.tok(TokenKind::Variable, var);
            let m0 = self.sc.make_missing(0);
            let m1 = self.sc.make_missing(0);
            let m2 = self.sc.make_missing(0);
            let m5 = self.sc.make_missing(0);
            let p = self.sc.make_parameter_declaration(m0, m1, m2, h, v, m5);
            let sep = self.other(",");
            items.push(self.sc.make_list_item(p, sep));
        }
        let plist = self.sc.make_list(items, 0);
        let rp = self.other(")");
        let (colon, ret_hint) = match ret {
            Some(r) => (self.other(":"), self.hint(r)),
            None => (self.sc.make_missing(0), self.sc.make_missing(0)),
        };
        let wh = self.sc.make_missing(0);
        let header = self.sc.make_function_declaration_header(modifiers, kw, n, tps, lp, plist, rp, colon, ret_hint, wh);
        let lb = self.tok(TokenKind::LeftBrace, "{");
        let stmts = if yields {
            let y = self.tok(TokenKind::Yield, "yield");
            let one = self.other("1");
            let e = self.sc.make_yield_expression(y, one);
            let semi = self.tok(TokenKind::Semicolon, ";");
            let st = self.sc.make_expression_statement(e, semi);
            self.sc.make_list(vec![st], 0)
        } else {
            self.sc.make_missing(0)
        };
        let rb = self.other("}");
        let body = self.sc.make_compound_statement(lb, stmts, rb);
        let attrs = self.sc.make_missing(0);
        self.sc.make_function_declaration(attrs, header, body)
    }

    fn hint(&mut self, h: &str) -> Node {
        let t = match h {
            "int" => self.tok(TokenKind::Int, h),
            "string" => self.tok(TokenKind::String, h),
            "void" => self.tok(TokenKind::Void, h),
            "bool" => self.tok(TokenKind::Bool, h),
            _ => self.name(h),
        };
        self.sc.make_simple_type_specifier(t)
    }

    fn end_namespace(&mut self, kw: Node, name: Node, body: Node) -> Node {
        self.sc.make_namespace_declaration(kw, name, body)
    }

    fn finish(self, root: Node) -> Result<InProgressDecls, DeclError> {
        self.sc.finish(root)
    }
}

fn ty_debug(t: &Ty) -> String {
    format!("{:?}", t)
}

fn generic_name(t: &Ty) -> Option<String> {
    match &*t.1 {
        Ty_::Tgeneric(n) => Some(n.clone()),
        _ => None,
    }
}

fn applied_name(t: &Ty) -> Option<String> {
    match &*t.1 {
        Ty_::Tapply(id, _) => Some(id.1.clone()),
        _ => None,
    }
}

fn script(feed: &mut Feed, decls: Vec<Node>) -> Node {
    let list = feed.sc.make_list(decls, 0);
    feed.sc.make_script(list)
}

#[test]
fn names_outside_namespaces_get_one_leading_separator() {
    let mut f = Feed::new();
    let c = f.class("C");
    let fun = f.function(false, "g", &[], &[("Foo", "$x")], Some("int"), false);
    let root = script(&mut f, vec![c, fun]);
    let decls = f.finish(root).unwrap();
    let class = decls.classes.get("\\C").unwrap();
    assert_eq!(class.name.1, "\\C");
    assert!(decls.funs.get("g").is_none());
    let g = decls.funs.get("\\g").unwrap();
    assert_eq!(applied_name(&g.type_.params[0].type_), Some("\\Foo".to_string()));
    assert!(matches!(&*g.type_.ret.1, Ty_::Tprim(Tprim::Tint)));
}

#[test]
fn delimited_namespace_is_left_at_its_closing_brace() {
    let mut f = Feed::new();
    let (kw, name) = f.namespace_header(&["A", "B"], true);
    let c = f.class("C");
    let inner = f.sc.make_list(vec![c], 0);
    let rb = f.other("}");
    let lb = f.sc.make_missing(0);
    let body = f.sc.make_namespace_body(lb, inner, rb);
    let ns = f.end_namespace(kw, name, body);
    let d = f.class("D");
    let root = script(&mut f, vec![ns, d]);
    let decls = f.finish(root).unwrap();
    let c = decls.classes.get("\\A\\B\\C").unwrap();
    assert_eq!(c.name.1, "\\A\\B\\C");
    let d = decls.classes.get("\\D").unwrap();
    assert_eq!(d.name.1, "\\D");
    assert!(decls.classes.get("\\A\\B\\D").is_none());
}

#[test]
fn simple_namespace_replaces_the_previous_one() {
    let mut f = Feed::new();
    let (kw, name) = f.namespace_header(&["A"], false);
    let semi = f.sc.make_missing(0);
    let body = f.sc.make_namespace_empty_body(semi);
    let ns_a = f.end_namespace(kw, name, body);
    let c = f.class("C");
    let (kw, name) = f.namespace_header(&["B"], false);
    let semi = f.sc.make_missing(0);
    let body = f.sc.make_namespace_empty_body(semi);
    let ns_b = f.end_namespace(kw, name, body);
    let d = f.class("D");
    let root = script(&mut f, vec![ns_a, c, ns_b, d]);
    let decls = f.finish(root).unwrap();
    assert!(decls.classes.get("\\A\\C").is_some());
    assert!(decls.classes.get("\\B\\D").is_some());
    assert!(decls.classes.get("\\A\\B\\D").is_none());
}

#[test]
fn type_parameter_resolves_to_itself_in_parameters_and_return() {
    let mut f = Feed::new();
    let fun = f.function(false, "f", &["T"], &[("T", "$x")], Some("T"), false);
    let root = script(&mut f, vec![fun]);
    let decls = f.finish(root).unwrap();
    let elt = decls.funs.get("\\f").unwrap();
    assert_eq!(generic_name(&elt.type_.params[0].type_), Some("T".to_string()));
    assert_eq!(generic_name(&elt.type_.ret), Some("T".to_string()));
    assert_eq!(elt.type_.tparams.len(), 1);
    assert_eq!(elt.type_.tparams[0].name.1, "T");
    assert_eq!(elt.type_.params[0].name, "$x");
    assert_eq!(elt.type_.arity, 1);
}

#[test]
fn function_kinds_follow_async_and_yield() {
    let mut f = Feed::new();
    let a = f.function(true, "f", &[], &[], Some("int"), false);
    let b = f.function(false, "g", &[], &[], None, true);
    let c = f.function(true, "h", &[], &[], None, true);
    let d = f.function(false, "k", &[], &[], Some("void"), false);
    let root = script(&mut f, vec![a, b, c, d]);
    let decls = f.finish(root).unwrap();
    assert_eq!(decls.funs.get("\\f").unwrap().type_.fun_kind, FunKind::FAsync);
    assert_eq!(decls.funs.get("\\g").unwrap().type_.fun_kind, FunKind::FGenerator);
    assert_eq!(decls.funs.get("\\h").unwrap().type_.fun_kind, FunKind::FAsyncGenerator);
    assert_eq!(decls.funs.get("\\k").unwrap().type_.fun_kind, FunKind::FSync);
}

#[test]
fn xhp_names_are_mangled() {
    assert_eq!(mangle_xhp_id(":x:frag".to_string()), "xhp_x__frag");
    assert_eq!(mangle_xhp_id(":ui:my-button".to_string()), "xhp_ui__my_button");
    assert_eq!(mangle_xhp_id("a:b-c".to_string()), "a__b_c");
    assert_eq!(mangle_xhp_id("class@anonymous:x".to_string()), "class@anonymous:x");
    assert_eq!(mangle_xhp_id("Closure$f:g".to_string()), "Closure$f:g");
    let p = Pos::new(0, 6);
    let (name, pos) = get_name("A", &Node_::XhpName(":x:frag".to_string(), p)).unwrap();
    assert_eq!(name, "xhp_x__frag");
    assert_eq!(pos, p);
}

#[test]
fn non_variable_parameter_is_a_hard_error() {
    let mut f = Feed::new();
    f.tok(TokenKind::Function, "function");
    let n = f.name("f");
    let bad = f.name("x");
    let plist = f.sc.make_list(vec![bad], 0);
    let m = || Ok(Node_::Ignored);
    let header = f.sc.make_function_declaration_header(m(), m(), n, m(), m(), plist, m(), m(), m(), m());
    let r = f.sc.make_function_declaration(m(), header, m());
    match &r {
        Err(DeclError::Unexpected(Expected::Variable, NodeKind::Name)) => {}
        other => panic!("unexpected {:?}", other),
    }
    let root = script(&mut f, vec![r]);
    assert!(f.finish(root).is_err());
}

fn sample_file(f: &mut Feed) -> Node {
    let (kw, name) = f.namespace_header(&["N"], true);
    let c = f.class("C");
    let g = f.function(true, "g", &["T"], &[("T", "$x"), ("int", "$y")], Some("Foo"), true);
    let inner = f.sc.make_list(vec![c, g], 0);
    let rb = f.other("}");
    let lb = f.sc.make_missing(0);
    let body = f.sc.make_namespace_body(lb, inner, rb);
    let ns = f.end_namespace(kw, name, body);
    let h = f.function(false, "h", &[], &[], Some("string"), false);
    script(f, vec![ns, h])
}

#[test]
fn identical_streams_give_identical_tables() {
    let mut f1 = Feed::new();
    let r1 = sample_file(&mut f1);
    let mut f2 = Feed::new();
    let r2 = sample_file(&mut f2);
    let d1 = f1.finish(r1).unwrap();
    let d2 = f2.finish(r2).unwrap();
    for key in ["\\N\\g", "\\h"] {
        let a = d1.funs.get(key).unwrap();
        let b = d2.funs.get(key).unwrap();
        assert_eq!(format!("{:?}", a), format!("{:?}", b));
    }
    assert_eq!(format!("{:?}", d1.classes.get("\\N\\C")), format!("{:?}", d2.classes.get("\\N\\C")));
    let g = d1.funs.get("\\N\\g").unwrap();
    assert_eq!(applied_name(&g.type_.ret), Some("\\N\\Foo".to_string()));
    assert_eq!(g.type_.fun_kind, FunKind::FAsyncGenerator);
}

#[test]
fn type_alias_and_constant_are_recorded() {
    let mut f = Feed::new();
    let m = || Ok(Node_::Ignored);
    let name = f.name("Alias");
    let hint = f.hint("int");
    let alias = f.sc.make_alias_declaration(m(), m(), name, m(), m(), m(), hint, m());
    let cname = f.name("X");
    let init = f.other("1");
    let init = f.sc.make_simple_initializer(m(), init);
    let declarator = f.sc.make_constant_declarator(cname, init);
    let list = f.sc.make_list(vec![declarator], 0);
    let chint = f.hint("string");
    let konst = f.sc.make_const_declaration(m(), m(), chint, list, m());
    let root = script(&mut f, vec![alias, konst]);
    let decls = f.finish(root).unwrap();
    let td = decls.typedefs.get("\\Alias").unwrap();
    assert_eq!(td.vis, TypedefVisibility::Transparent);
    assert!(td.tparams.is_empty());
    assert!(td.constraint.is_none());
    assert!(matches!(&*td.type_.1, Ty_::Tprim(Tprim::Tint)));
    let c = decls.consts.get("\\X").unwrap();
    assert!(matches!(&*c.1, Ty_::Tprim(Tprim::Tstring)));
}

#[test]
fn two_declarators_are_skipped() {
    let mut f = Feed::new();
    let m = || Ok(Node_::Ignored);
    let a = f.name("A");
    let d1 = f.sc.make_constant_declarator(a, m());
    let b = f.name("B");
    let d2 = f.sc.make_constant_declarator(b, m());
    let list = f.sc.make_list(vec![d1, d2], 0);
    let hint = f.hint("int");
    let r = f.sc.make_const_declaration(m(), m(), hint, list, m());
    assert!(matches!(r, Ok(Node_::Ignored)));
    let decls = f.finish(Ok(Node_::Ignored)).unwrap();
    assert!(decls.consts.get("\\A").is_none());
    assert!(decls.consts.get("\\B").is_none());
}

#[test]
fn bad_alias_hint_names_the_alias() {
    let mut f = Feed::new();
    let m = || Ok(Node_::Ignored);
    let name = f.name("Alias");
    let r = f.sc.make_alias_declaration(m(), m(), name, m(), m(), m(), Ok(Node_::As), m());
    match r {
        Err(DeclError::TypeAlias(n, inner)) => {
            assert_eq!(n, "Alias");
            assert!(matches!(*inner, DeclError::Unexpected(Expected::NameXhpOrQualified, NodeKind::As)));
        }
        other => panic!("unexpected {:?}", other),
    }
}

#[test]
fn bad_constant_hint_names_the_constant() {
    let mut f = Feed::new();
    let m = || Ok(Node_::Ignored);
    let x = f.name("X");
    let d = f.sc.make_constant_declarator(x, m());
    let list = f.sc.make_list(vec![d], 0);
    let r = f.sc.make_const_declaration(m(), m(), Ok(Node_::Super), list, m());
    match r {
        Err(DeclError::Constant(n, inner)) => {
            assert_eq!(n, "X");
            assert!(matches!(*inner, DeclError::Unexpected(Expected::NameXhpOrQualified, NodeKind::Super)));
        }
        other => panic!("unexpected {:?}", other),
    }
}

#[test]
fn generic_hint_resolves_its_arguments() {
    let mut f = Feed::new();
    let vname = f.name("Vector");
    let lt = f.tok(TokenKind::LessThan, "<");
    let arg = f.hint("int");
    let gt = f.tok(TokenKind::GreaterThan, ">");
    let args = f.sc.make_type_arguments(lt, arg, gt);
    let hint = f.sc.make_generic_type_specifier(vname, args);
    match &hint {
        Ok(Node_::Hint(HintValue::Apply(id, v), p)) => {
            assert_eq!(id.1, "\\Vector");
            assert_eq!(v.len(), 1);
            assert_eq!(p.start, 0);
            assert_eq!(p.end, 14);
        }
        other => panic!("unexpected {:?}", other),
    }
    let m = || Ok(Node_::Ignored);
    let name = f.name("V");
    let alias = f.sc.make_alias_declaration(m(), m(), name, m(), m(), m(), hint, m());
    let decls = f.finish(alias).unwrap();
    let td = decls.typedefs.get("\\V").unwrap();
    match &*td.type_.1 {
        Ty_::Tapply(id, args) => {
            assert_eq!(id.1, "\\Vector");
            assert_eq!(args.len(), 1);
            assert!(matches!(&*args[0].1, Ty_::Tprim(Tprim::Tint)));
        }
        other => panic!("unexpected {:?}", other),
    }
    assert!(ty_debug(&td.type_).contains("Tint"));
}

#[test]
fn later_declaration_of_a_name_wins() {
    let mut f = Feed::new();
    let a = f.function(false, "f", &[], &[], Some("int"), false);
    let b = f.function(false, "f", &[], &[("int", "$x")], Some("string"), false);
    let root = script(&mut f, vec![a, b]);
    let decls = f.finish(root).unwrap();
    let elt = decls.funs.get("\\f").unwrap();
    assert_eq!(elt.type_.arity, 1);
    assert!(matches!(&*elt.type_.ret.1, Ty_::Tprim(Tprim::Tstring)));
}

#[test]
fn qualified_names_resolve_under_the_namespace() {
    let p = Pos::new(3, 4);
    let q = Pos::new(5, 6);
    let parts = vec![
        Node_::ListItem(Box::new((Node_::Name("A".to_string(), p), Node_::Backslash(q)))),
        Node_::Name("B".to_string(), q),
    ];
    let (n, _) = get_name("N", &Node_::QualifiedName(parts, p)).unwrap();
    assert_eq!(n, "N\\A\\B");
    let lead = vec![Node_::Backslash(p), Node_::Name("B".to_string(), q)];
    let (n, _) = get_name("N", &Node_::QualifiedName(lead, p)).unwrap();
    assert_eq!(n, "\\B");
    let (n, _) = get_name("", &Node_::Name("x".to_string(), p)).unwrap();
    assert_eq!(n, "x");
    let bad = vec![Node_::As];
    assert!(matches!(
        get_name("N", &Node_::QualifiedName(bad, p)),
        Err(DeclError::Unexpected(Expected::NameBackslashOrListItem, NodeKind::As))
    ));
    assert!(matches!(
        get_name("N", &Node_::Ignored),
        Err(DeclError::Unexpected(Expected::NameXhpOrQualified, NodeKind::Ignored))
    ));
}

#[test]
fn flatten_splices_drops_and_collapses() {
    let p = Pos::new(0, 1);
    assert!(matches!(flatten(vec![]), Ok(Node_::Ignored)));
    assert!(matches!(flatten(vec![zero(), zero()]), Ok(Node_::Ignored)));
    assert!(matches!(flatten(vec![zero(), Ok(Node_::As)]), Ok(Node_::As)));
    let r = flatten(vec![Ok(Node_::List(vec![Node_::As, Node_::Super])), zero(), Ok(Node_::Backslash(p))]);
    match r {
        Ok(Node_::List(v)) => assert_eq!(v.len(), 3),
        other => panic!("unexpected {:?}", other),
    }
    let r = flatten(vec![Ok(Node_::As), Err(DeclError::NoPosition(NodeKind::As)), Err(DeclError::NoPosition(NodeKind::Super))]);
    assert!(matches!(r, Err(DeclError::NoPosition(NodeKind::As))));
    assert!(is_zero(&zero()));
    assert!(!is_zero(&Ok(Node_::As)));
}

#[test]
fn positions_cover_children() {
    let a = Node_::Name("a".to_string(), Pos::new(2, 3));
    let b = Node_::Backslash(Pos::new(7, 8));
    let item = Node_::ListItem(Box::new((a, b)));
    assert_eq!(item.get_pos().unwrap(), Pos::new(2, 8));
    let list = Node_::List(vec![Node_::As, Node_::LessThan(Pos::new(10, 11)), item]);
    assert_eq!(list.get_pos().unwrap(), Pos::new(2, 11));
    assert!(matches!(Node_::As.get_pos(), Err(DeclError::NoPosition(NodeKind::As))));
}

#[test]
fn type_constraint_needs_as_or_super() {
    let mut sc = DirectDeclSmartConstructors::new();
    let r = sc.make_type_constraint(Ok(Node_::Async), Ok(Node_::Ignored));
    assert!(matches!(r, Err(DeclError::Unexpected(Expected::AsOrSuper, NodeKind::Async))));
    let r = sc.make_type_parameter(Ok(Node_::Ignored), Ok(Node_::Ignored), Ok(Node_::Ignored), Ok(Node_::Ignored), Ok(Node_::As));
    assert!(matches!(r, Err(DeclError::Unexpected(Expected::TypeConstraint, NodeKind::As))));
}

#[test]
fn list_item_keeps_the_present_half() {
    let mut sc = DirectDeclSmartConstructors::new();
    assert!(matches!(sc.make_list_item(Ok(Node_::As), Ok(Node_::Ignored)), Ok(Node_::As)));
    assert!(matches!(sc.make_list_item(Ok(Node_::Ignored), Ok(Node_::Super)), Ok(Node_::Super)));
    assert!(matches!(sc.make_list_item(Ok(Node_::Ignored), Ok(Node_::Ignored)), Ok(Node_::Ignored)));
    assert!(matches!(sc.make_list_item(Ok(Node_::As), Ok(Node_::Super)), Ok(Node_::ListItem(_))));
    assert!(matches!(sc.make_list(vec![zero(), zero()], 0), Ok(Node_::Ignored)));
    assert!(matches!(sc.make_list(vec![Ok(Node_::As)], 0), Ok(Node_::List(_))));
}

#[test]
fn shared_state_is_copied_only_by_the_writer() {
    let mut f = Feed::new();
    let c = f.class("C");
    let mut branch = f.sc.share();
    let kw = branch.make_token(Token::new(TokenKind::Other, "class".to_string(), 100, 105));
    let n = branch.make_token(Token::new(TokenKind::Name, "D".to_string(), 106, 107));
    let m = || Ok(Node_::Ignored);
    let d = branch.make_classish_declaration(m(), m(), kw, n, m(), m(), m(), m(), m(), m(), m());
    let in_branch = branch.finish(d).unwrap();
    assert!(in_branch.classes.get("\\C").is_some());
    assert!(in_branch.classes.get("\\D").is_some());
    let main = f.finish(c).unwrap();
    assert!(main.classes.get("\\C").is_some());
    assert!(main.classes.get("\\D").is_none());
}

#[test]
fn placeholders_inside_a_spliced_list_are_dropped() {
    let p = Pos::new(0, 1);
    let r = flatten(vec![Ok(Node_::List(vec![Node_::Ignored, Node_::Name("a".to_string(), p)]))]);
    match r {
        Ok(Node_::Name(n, q)) => {
            assert_eq!(n, "a");
            assert_eq!(q, p);
        }
        other => panic!("unexpected {:?}", other),
    }
    let r = flatten(vec![Ok(Node_::List(vec![Node_::Ignored, Node_::As])), Ok(Node_::List(vec![Node_::Ignored])), Ok(Node_::Super)]);
    match r {
        Ok(Node_::List(v)) => {
            assert_eq!(v.len(), 2);
            assert!(matches!(v[0], Node_::As));
            assert!(matches!(v[1], Node_::Super));
        }
        other => panic!("unexpected {:?}", other),
    }
    assert!(matches!(flatten(vec![Ok(Node_::List(vec![Node_::Ignored, Node_::Ignored]))]), Ok(Node_::Ignored)));
}

#[test]
fn namespace_ending_in_a_separator_gets_no_second_one() {
    let p = Pos::new(0, 1);
    let parts = vec![Node_::Name("B".to_string(), p)];
    let (n, _) = get_name("A\\", &Node_::QualifiedName(parts, p)).unwrap();
    assert_eq!(n, "A\\B");
    let parts = vec![Node_::Name("B".to_string(), p)];
    let (n, _) = get_name("A", &Node_::QualifiedName(parts, p)).unwrap();
    assert_eq!(n, "A\\B");
    let parts = vec![Node_::Name("B".to_string(), p)];
    let (n, _) = get_name("", &Node_::QualifiedName(parts, p)).unwrap();
    assert_eq!(n, "B");
}

#[test]
fn type_references_resolve_by_scope() {
    let sc = DirectDeclSmartConstructors::new();
    let p = Pos::new(4, 5);
    let tvars = vec!["T".to_string()];
    let t = sc.node_to_ty(&Node_::Name("T".to_string(), p), &tvars).unwrap();
    assert_eq!(generic_name(&t), Some("T".to_string()));
    assert_eq!(t.0, p);
    let u = sc.node_to_ty(&Node_::Name("U".to_string(), p), &tvars).unwrap();
    assert_eq!(applied_name(&u), Some("\\U".to_string()));
    let bad = Node_::List(vec![Node_::Name("x".to_string(), p)]);
    assert!(matches!(
        sc.into_variables_list(&bad, &tvars),
        Err(DeclError::Unexpected(Expected::Variable, NodeKind::Name))
    ));
}

#[test]
fn function_without_yield_flag_is_sync() {
    let mut sc = DirectDeclSmartConstructors::new();
    let n = sc.make_token(Token::new(TokenKind::Name, "f".to_string(), 0, 1));
    let m = || Ok(Node_::Ignored);
    let header = sc.make_function_declaration_header(m(), m(), n, m(), m(), m(), m(), m(), m(), m());
    assert!(matches!(sc.make_function_declaration(m(), header, m()), Ok(Node_::Ignored)));
    let decls = sc.finish(Ok(Node_::Ignored)).unwrap();
    let f = decls.funs.get("\\f").unwrap();
    assert_eq!(f.type_.fun_kind, FunKind::FSync);
    assert_eq!(f.type_.arity, 0);
}
