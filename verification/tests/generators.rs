use std::str::FromStr;

use nostrum::attr_syntax::{parse_default_attr, parse_let_mock, LetMock, NostrumError};
use nostrum::closure_expr::{generate as closure_expr, SelfReplacer};
use nostrum::closure_type::generate as closure_type;
use nostrum::impl_syntax::{ImplMock, MockError};
use nostrum::impl_trait::generate as impl_trait;
use nostrum::init_mock::generate as init_mock;
use nostrum::mock_struct::generate as mock_struct;
use nostrum::nostrum_attr::{nostrum, process};
use nostrum::nostrum_macros::{object, use_obj};
use nostrum::nostrumock_macros::{mock, mock_macro};
use nostrum::syntax::{
    FnArg, ImplItem, ImplItemFn, ItemImpl, PatIdent, Path, PathSegment, Receiver, ReturnType,
    Signature, Ty,
};
use nostrum::syntax::type_path_name;
use nostrum::tokens::{Delim, Spacing, Tok};

// Tokens of Rust source text. An identifier written with a leading `$` is a
// path segment, as syn would see it in a method's body.
fn lex(src: &str) -> Vec<Tok> {
    let ts = proc_macro2::TokenStream::from_str(src).expect("valid tokens");
    let mut out = Vec::new();
    flatten(ts, &mut out);
    let mut marked = Vec::new();
    let mut segment_next = false;
    for t in out {
        match t {
            Tok::Punct('$', _) => {
                // The marker glued the punctuation before it; without it,
                // that punctuation is followed by an identifier.
                if let Some(Tok::Punct(c, Spacing::Joint)) = marked.last() {
                    let c = *c;
                    marked.pop();
                    marked.push(Tok::Punct(c, Spacing::Alone));
                }
                segment_next = true;
            }
            Tok::Ident(s) if segment_next => {
                segment_next = false;
                marked.push(Tok::Segment(s));
            }
            other => marked.push(other),
        }
    }
    marked
}

fn flatten(ts: proc_macro2::TokenStream, out: &mut Vec<Tok>) {
    for tt in ts {
        match tt {
            proc_macro2::TokenTree::Group(g) => {
                let d = delim(g.delimiter());
                out.push(Tok::Open(d));
                flatten(g.stream(), out);
                out.push(Tok::Close(d));
            }
            proc_macro2::TokenTree::Ident(i) => out.push(Tok::Ident(i.to_string())),
            proc_macro2::TokenTree::Punct(p) => out.push(Tok::Punct(
                p.as_char(),
                match p.spacing() {
                    proc_macro2::Spacing::Alone => Spacing::Alone,
                    proc_macro2::Spacing::Joint => Spacing::Joint,
                },
            )),
            proc_macro2::TokenTree::Literal(l) => out.push(Tok::Literal(l.to_string())),
        }
    }
}

fn delim(d: proc_macro2::Delimiter) -> Delim {
    match d {
        proc_macro2::Delimiter::Parenthesis => Delim::Paren,
        proc_macro2::Delimiter::Brace => Delim::Brace,
        proc_macro2::Delimiter::Bracket => Delim::Bracket,
        proc_macro2::Delimiter::None => Delim::Invisible,
    }
}

// The text proc-macro2 prints for the tokens.
fn render(toks: &[Tok]) -> String {
    let mut stack: Vec<(Option<proc_macro2::Delimiter>, proc_macro2::TokenStream)> =
        vec![(None, proc_macro2::TokenStream::new())];
    for t in toks {
        match t {
            Tok::Ident(s) | Tok::Segment(s) => stack.last_mut().unwrap().1.extend([
                proc_macro2::TokenTree::Ident(proc_macro2::Ident::new(s, proc_macro2::Span::call_site())),
            ]),
            Tok::Punct(c, sp) => stack.last_mut().unwrap().1.extend([proc_macro2::TokenTree::Punct(
                proc_macro2::Punct::new(
                    *c,
                    match sp {
                        Spacing::Alone => proc_macro2::Spacing::Alone,
                        Spacing::Joint => proc_macro2::Spacing::Joint,
                    },
                ),
            )]),
            Tok::Literal(s) => stack.last_mut().unwrap().1.extend([proc_macro2::TokenTree::Literal(
                proc_macro2::Literal::from_str(s).unwrap(),
            )]),
            Tok::Open(d) => stack.push((
                Some(match d {
                    Delim::Paren => proc_macro2::Delimiter::Parenthesis,
                    Delim::Brace => proc_macro2::Delimiter::Brace,
                    Delim::Bracket => proc_macro2::Delimiter::Bracket,
                    Delim::Invisible => proc_macro2::Delimiter::None,
                }),
                proc_macro2::TokenStream::new(),
            )),
            Tok::Close(_) => {
                let (d, inner) = stack.pop().unwrap();
                let g = proc_macro2::Group::new(d.unwrap(), inner);
                stack.last_mut().unwrap().1.extend([proc_macro2::TokenTree::Group(g)]);
            }
        }
    }
    assert_eq!(stack.len(), 1, "unbalanced tokens");
    stack.pop().unwrap().1.to_string()
}

fn same(actual: &[Tok], expected: &str) {
    assert_eq!(render(actual), render(&lex(expected)));
}

fn recv(reference: bool, mutability: bool) -> FnArg {
    FnArg::Receiver(Receiver { reference, mutability })
}

fn typed(pat: &str, ty: Ty) -> FnArg {
    FnArg::Typed { pat: lex(pat), ty }
}

fn other(ty: &str) -> Ty {
    Ty::Other(lex(ty))
}

fn reference(lifetime: Option<&str>, mutability: bool, elem: &str) -> Ty {
    Ty::Reference { lifetime: lifetime.map(String::from), mutability, elem: lex(elem) }
}

fn method(name: &str, inputs: Vec<FnArg>, output: Option<Ty>, block: &str) -> ImplItemFn {
    ImplItemFn {
        sig: Signature {
            ident: name.to_string(),
            inputs,
            output: match output {
                Some(t) => ReturnType::Type(t),
                None => ReturnType::Default,
            },
            tokens: vec![],
        },
        block: lex(block),
        attrs: vec![],
    }
}

// The method with its signature as written.
fn with_sig(mut m: ImplItemFn, sig: &str) -> ImplItemFn {
    m.sig.tokens = lex(sig);
    m
}

fn path(segments: &[&str]) -> Path {
    Path {
        leading_colon: false,
        segments: segments
            .iter()
            .map(|s| PathSegment { ident: s.to_string(), arguments: vec![] })
            .collect(),
    }
}

// `impl Something for Cat { items }`
fn something_for_cat(items: Vec<ImplItemFn>) -> ImplMock {
    let item = ItemImpl {
        trait_: Some((false, path(&["Something"]))),
        self_ty: lex("Cat"),
        attrs: vec![],
        items: items.into_iter().map(ImplItem::Fn).collect(),
    };
    ImplMock::parse(item).unwrap()
}

// `let [mut] name = expr`
fn let_mock(mutability: bool, name: &str, expr: &str) -> LetMock {
    LetMock {
        pat_ident: PatIdent { by_ref: false, mutability, ident: name.to_string() },
        expr: lex(expr),
    }
}

fn meow_method() -> ImplItemFn {
    method("meow", vec![recv(true, false)], Some(other("String")), "\"meow\".to_string()")
}

#[test]
fn closure_expr_test() {
    let actual = closure_expr(&lex("Cat"), &meow_method());
    same(&actual, "|__narrative_state: &Cat| -> String { \"meow\".to_string() }");
}

#[test]
fn mut_self() {
    let input = method("change_name", vec![recv(true, true)], None, "$self.name = $name;");
    let actual = closure_expr(&lex("Cat"), &input);
    same(&actual, "|__narrative_state: &mut Cat| { __narrative_state.name = name; }");
}

#[test]
fn no_self() {
    let input = method("call_meow", vec![], Some(other("String")), "\"meow\".to_string()");
    let actual = closure_expr(&lex("Cat"), &input);
    same(&actual, "| | -> String { \"meow\".to_string() }");
}

#[test]
fn arguments() {
    let input = method(
        "call_meow",
        vec![typed("name", other("String")), typed("count", other("usize"))],
        Some(other("String")),
        "$format!(\"{}: meow {}\", name, count)",
    );
    let actual = closure_expr(&lex("Cat"), &input);
    same(
        &actual,
        "|name: String, count: usize| -> String { format!(\"{}: meow {}\", name, count) }",
    );
}

#[test]
fn arguments_with_self() {
    let input = method(
        "call_meow",
        vec![recv(true, false), typed("name", other("String")), typed("count", other("usize"))],
        Some(other("String")),
        "$format!(\"{}: meow {}\", name, count)",
    );
    let actual = closure_expr(&lex("Cat"), &input);
    same(
        &actual,
        "|__narrative_state: &Cat, name: String, count: usize| -> String { format!(\"{}: meow {}\", name, count) }",
    );
}

#[test]
fn replace_self_to_narrative_state() {
    let input = method(
        "call_meow",
        vec![recv(true, false)],
        Some(other("String")),
        "$call($self.name); $call(&$self.name); $self.name();",
    );
    let actual = closure_expr(&lex("Cat"), &input);
    same(
        &actual,
        "|__narrative_state: &Cat| -> String { call(__narrative_state.name); call(&__narrative_state.name); __narrative_state.name(); }",
    );
}

#[test]
fn no_return() {
    let input = method("call_meow", vec![recv(true, false)], None, "$call($self.name);");
    let actual = closure_expr(&lex("Cat"), &input);
    same(&actual, "|__narrative_state: &Cat| { call(__narrative_state.name); }");
}

#[test]
fn remove_lifetimes_from_arguments() {
    let input = method(
        "call_meow",
        vec![
            recv(true, false),
            typed("name", reference(Some("a"), false, "String")),
            typed("count", other("usize")),
        ],
        None,
        "$format!(\"{}: meow {}\", name, count)",
    );
    let actual = closure_expr(&lex("Cat"), &input);
    same(
        &actual,
        "|__narrative_state: &Cat, name: &String, count: usize| { format!(\"{}: meow {}\", name, count) }",
    );
}

#[test]
fn make_static_output_reference() {
    let input = method("call_meow", vec![recv(true, false)], Some(reference(None, false, "str")), "\"meow\"");
    let actual = closure_expr(&lex("Cat"), &input);
    same(&actual, "|__narrative_state: &Cat| -> & 'static str { \"meow\" }");
}

#[test]
fn owned_self() {
    let input = method("call_meow", vec![recv(false, false)], Some(other("String")), "\"meow\".to_string()");
    let actual = closure_expr(&lex("Cat"), &input);
    same(&actual, "|__narrative_state: Cat| -> String { \"meow\".to_string() }");
}

#[test]
fn self_with_lifetime() {
    let input = method(
        "call_meow",
        vec![recv(true, false)],
        Some(reference(Some("a"), false, "str")),
        "\"meow\"",
    );
    let actual = closure_expr(&lex("Cat"), &input);
    same(&actual, "|__narrative_state: &Cat| -> & 'static str { \"meow\" }");
}

#[test]
fn impl_trait_empty() {
    let attr = let_mock(false, "my_mock", "Cat");
    let input = something_for_cat(vec![]);
    let actual = impl_trait(&attr, &input);
    same(
        &actual,
        "impl < '__narrative_state, > Something for my_mock__Something< '__narrative_state> { }",
    );
}

#[test]
fn with_method() {
    let attr = let_mock(false, "my_mock", "Cat");
    let input = something_for_cat(vec![meow_method()]);
    let actual = impl_trait(&attr, &input);
    same(
        &actual,
        "impl < '__narrative_state, meow: FnMut(&Cat) -> String, > Something for my_mock__Something< '__narrative_state, meow> { fn meow(&self) -> String { self.meow.lock().unwrap()(self.__narrative_state) } }",
    );
}

#[test]
fn init_mock_empty() {
    let attr = let_mock(false, "my_mock", "Cat::default()");
    let input = something_for_cat(vec![]);
    let actual = init_mock(&attr, &input);
    same(
        &actual,
        "let mut __nostrumock_state = Cat::default(); let my_mock = my_mock__Something { __nostrumock_state: &mut __nostrumock_state, };",
    );
}

#[test]
fn let_mut() {
    let attr = let_mock(true, "my_mock", "Cat::default()");
    let input = something_for_cat(vec![]);
    let actual = init_mock(&attr, &input);
    same(
        &actual,
        "let mut __nostrumock_state = Cat::default(); let mut my_mock =my_mock__Something { __nostrumock_state: &mut __nostrumock_state, };",
    );
}

#[test]
fn closures() {
    let attr = let_mock(false, "my_mock", "Cat::default()");
    let input = something_for_cat(vec![
        meow_method(),
        method(
            "change_name",
            vec![recv(true, true), typed("name", other("String"))],
            None,
            "$self.name = $name;",
        ),
    ]);
    let actual = init_mock(&attr, &input);
    same(
        &actual,
        "let mut __nostrumock_state = Cat::default(); \
         #[allow(non_snake_case)] \
         let mut __nostrumock__meow = |__nostrumock_state: &Cat| -> String { \"meow\".to_string() }; \
         #[allow(non_snake_case)] \
         let mut __nostrumock__change_name = |__nostrumock_state: &mut Cat, name: String| { __nostrumock_state.name = name; }; \
         let my_mock = my_mock__Something { \
             __nostrumock_state: &mut __nostrumock_state, \
             meow: std::sync::Mutex::new(&mut __nostrumock__meow), \
             change_name: std::sync::Mutex::new(&mut __nostrumock__change_name), \
         };",
    );
}

#[test]
fn state_initial_value() {
    let attr = let_mock(false, "my_mock", "Cat::new(aaa)");
    let input = something_for_cat(vec![]);
    let actual = init_mock(&attr, &input);
    same(
        &actual,
        "let mut __nostrumock_state = Cat::new(aaa); let my_mock = my_mock__Something { __nostrumock_state: &mut __nostrumock_state, };",
    );
}

#[test]
fn mock_struct_empty() {
    let attr = let_mock(false, "my_mock", "Cat");
    let input = something_for_cat(vec![]);
    let actual = mock_struct(&attr, &input);
    same(
        &actual,
        "#[allow(non_camel_case_types)] #[allow(clippy::extra_unused_lifetimes)] struct my_mock__Something< 'a> {}",
    );
}

#[test]
fn test_trait() {
    let input = ItemImpl {
        trait_: None,
        self_ty: lex("Cat"),
        attrs: vec![],
        items: vec![
            ImplItem::Fn(with_sig(
                method("new", vec![typed("name", other("String"))], Some(other("Cat")), "$Cat { name }"),
                "fn new(name: String) -> Cat",
            )),
            ImplItem::Fn(with_sig(
                method("meow", vec![recv(true, false)], Some(other("String")), "$format!(\"{}: meow\", self.name)"),
                "fn meow(&self) -> String",
            )),
            ImplItem::Fn(with_sig(
                method("name", vec![recv(true, false)], Some(reference(None, false, "str")), "&$self.name"),
                "fn name(&self) -> &str",
            )),
            ImplItem::Fn(with_sig(
                method("change_name", vec![recv(true, true), typed("name", other("String"))], None, "$self.name = $name;"),
                "fn change_name(&mut self, name: String)",
            )),
        ],
    };
    let actual = process(&input).unwrap();
    assert!(render(&actual).starts_with(&render(&lex("pub trait CatObj"))));
}

#[test]
fn closure_type_of_method_with_receiver() {
    let actual = closure_type(&lex("Cat"), &meow_method());
    same(&actual, "FnMut(&Cat) -> String");
}

#[test]
fn closure_type_drops_lifetimes_and_mut_of_references() {
    let input = method(
        "aaaa",
        vec![
            recv(true, true),
            typed("a", reference(Some("a"), true, "String")),
            typed("b", reference(None, false, "[u8]")),
        ],
        Some(reference(Some("a"), false, "str")),
        "",
    );
    let actual = closure_type(&lex("String"), &input);
    same(&actual, "FnMut(&mut String, &String, &[u8]) -> & 'static str");
}

#[test]
fn closure_type_without_receiver() {
    let input = method("new", vec![typed("name", other("String"))], Some(other("Cat")), "Cat { name }");
    let actual = closure_type(&lex("Cat"), &input);
    same(&actual, "FnMut(String) -> Cat");
}

#[test]
fn closure_keeps_self_inside_macro_arguments() {
    // A macro's arguments are not path segments to syn, so `self` there is
    // left as it is; only the macro's own path is a segment.
    let input = method(
        "meow",
        vec![recv(true, false)],
        Some(other("String")),
        "$format!(\"{}: meow\", self.name)",
    );
    let actual = closure_expr(&lex("Cat"), &input);
    same(&actual, "|__narrative_state: &Cat| -> String { format!(\"{}: meow\", self.name) }");
}

#[test]
fn closure_mut_self_by_value() {
    let input = method("consume", vec![recv(false, true)], None, "drop($self)");
    let actual = closure_expr(&lex("Cat"), &input);
    same(&actual, "|__narrative_state: mut Cat| { drop(__narrative_state) }");
}

#[test]
fn closure_of_receiver_not_first_argument_has_no_state() {
    // Only a first argument is a receiver to syn.
    let input = method("odd", vec![typed("x", other("u8")), recv(true, false)], None, "");
    let actual = closure_expr(&lex("Cat"), &input);
    same(&actual, "|x: u8| {}");
}

#[test]
fn self_replacer_renames_only_self_segments() {
    let mut replacer = SelfReplacer;
    let mut seg = PathSegment { ident: "self".to_string(), arguments: vec![] };
    replacer.visit_path_segment_mut(&mut seg);
    assert_eq!(seg.ident, "__narrative_state");
    let mut other_seg = PathSegment { ident: "call".to_string(), arguments: lex("::<u8>") };
    replacer.visit_path_segment_mut(&mut other_seg);
    assert_eq!(other_seg.ident, "call");
    assert_eq!(other_seg.arguments, lex("::<u8>"));

    let mut block = lex("$self.name; self_name; $Self::new(); $selfish");
    replacer.visit_block_mut(&mut block);
    assert_eq!(
        block,
        vec![
            Tok::Segment("__narrative_state".to_string()),
            Tok::Punct('.', Spacing::Alone),
            Tok::Ident("name".to_string()),
            Tok::Punct(';', Spacing::Alone),
            Tok::Ident("self_name".to_string()),
            Tok::Punct(';', Spacing::Alone),
            Tok::Segment("Self".to_string()),
            Tok::Punct(':', Spacing::Joint),
            Tok::Punct(':', Spacing::Alone),
            Tok::Ident("new".to_string()),
            Tok::Open(Delim::Paren),
            Tok::Close(Delim::Paren),
            Tok::Punct(';', Spacing::Alone),
            Tok::Segment("selfish".to_string()),
        ]
    );
    // A second pass changes nothing.
    let once = block.clone_tokens();
    replacer.visit_block_mut(&mut block);
    assert_eq!(block, once);
}

trait CloneTokens {
    fn clone_tokens(&self) -> Vec<Tok>;
}

impl CloneTokens for Vec<Tok> {
    fn clone_tokens(&self) -> Vec<Tok> {
        self.iter().map(|t| t.copy()).collect()
    }
}

#[test]
fn parse_refuses_impl_without_trait() {
    let item = ItemImpl { trait_: None, self_ty: lex("Cat"),
        attrs: vec![], items: vec![] };
    assert_eq!(ImplMock::parse(item).unwrap_err(), MockError::ExpectedTrait);
}

#[test]
fn parse_reads_trait_methods_and_target() {
    let item = ItemImpl {
        trait_: Some((false, path(&["animals", "Something"]))),
        self_ty: lex("Cat"),
        attrs: vec![],
        items: vec![
            ImplItem::Other(lex("type Out = u8;")),
            ImplItem::Fn(meow_method()),
            ImplItem::Other(lex("const N: usize = 1;")),
            ImplItem::Fn(method("purr", vec![recv(true, false)], None, "")),
        ],
    };
    let m = ImplMock::parse(item).unwrap();
    assert_eq!(m.trait_name(), "Something");
    assert_eq!(m.target(), &lex("Cat"));
    let names: Vec<&str> = m.methods().iter().map(|f| f.sig.ident.as_str()).collect();
    assert_eq!(names, vec!["meow", "purr"]);
    assert_eq!(m.struct_name(&let_mock(false, "kitty", "Cat")), "kitty__Something");
}

#[test]
fn impl_trait_writes_trait_path_with_arguments() {
    let attr = let_mock(false, "m", "0");
    let item = ItemImpl {
        trait_: Some((
            false,
            Path {
                leading_colon: true,
                segments: vec![
                    PathSegment { ident: "lib".to_string(), arguments: vec![] },
                    PathSegment { ident: "Store".to_string(), arguments: lex("<u8>") },
                ],
            },
        )),
        self_ty: lex("Vec<u8>"),
        attrs: vec![],
        items: vec![],
    };
    let input = ImplMock::parse(item).unwrap();
    let actual = impl_trait(&attr, &input);
    same(&actual, "impl < '__narrative_state, > ::lib::Store<u8> for m__Store< '__narrative_state> { }");
}

#[test]
fn mock_produces_struct_impl_and_object() {
    let attr = let_mock(true, "mock_cat", "\"Kitty\".to_string()");
    let item = ItemImpl {
        trait_: Some((false, path(&["CatObj"]))),
        self_ty: lex("String"),
        attrs: vec![],
        items: vec![ImplItem::Fn(method(
            "name",
            vec![recv(true, false)],
            Some(reference(None, false, "str")),
            "$name",
        ))],
    };
    let actual = mock(&attr, item).unwrap();
    same(
        &actual,
        "#[allow(non_camel_case_types)] #[allow(clippy::extra_unused_lifetimes)] struct mock_cat__CatObj< 'a> {} \
         impl < '__narrative_state, name: FnMut(&String) -> & 'static str, > CatObj for mock_cat__CatObj< '__narrative_state, name> { \
             fn name(&self) -> String { self.name.lock().unwrap()(self.__narrative_state) } \
         } \
         let mut __nostrumock_state = \"Kitty\".to_string(); \
         #[allow(non_snake_case)] \
         let mut __nostrumock__name = |__nostrumock_state: &String| -> & 'static str { name }; \
         let mut mock_cat = mock_cat__CatObj { \
             __nostrumock_state: &mut __nostrumock_state, \
             name: std::sync::Mutex::new(&mut __nostrumock__name), \
         };",
    );
}

#[test]
fn mock_refuses_impl_without_trait() {
    let attr = let_mock(false, "m", "Cat");
    let item = ItemImpl { trait_: None, self_ty: lex("Cat"),
        attrs: vec![], items: vec![ImplItem::Fn(meow_method())] };
    assert_eq!(mock(&attr, item).unwrap_err(), MockError::ExpectedTrait);
}

fn cat_block(attrs: Vec<Vec<Tok>>) -> ItemImpl {
    ItemImpl {
        trait_: None,
        self_ty: lex("Cat"),
        attrs,
        items: vec![
            ImplItem::Fn(with_sig(
                method("new", vec![typed("name", other("String"))], Some(other("Self")), "$Self { name }"),
                "fn new(name: String) -> Self",
            )),
            ImplItem::Fn(with_sig(
                method("name", vec![recv(true, false)], Some(reference(None, false, "str")), "&$self.name"),
                "fn name(&self) -> &str",
            )),
        ],
    }
}

#[test]
fn object_turns_impl_block_into_trait_object() {
    let actual = object(&vec![], &cat_block(vec![])).unwrap();
    same(
        &actual,
        "pub trait CatObj { fn name(&self) -> &str; } \
         impl CatObj for Cat { fn name(&self) -> &str { &self.name } }",
    );
}

#[test]
fn object_refuses_unknown_nostrum_attribute() {
    let block = cat_block(vec![lex("#[nostrum(skip)]")]);
    assert_eq!(object(&vec![], &block).unwrap_err(), NostrumError::ExpectedDefault);
}

#[test]
fn use_obj_writes_type_as_its_object() {
    let item = lex("fn call_name(cat: &Cat) -> &str { cat.name() }");
    let actual = use_obj(&lex("Cat"), &item).unwrap();
    same(&actual, "fn call_name(cat: &impl CatObj) -> &str { cat.name() }");
}

#[test]
fn use_obj_keeps_prefix_and_body() {
    let item = lex("#[inline] pub fn swap(cat: Cat, _n: u8) -> Cat where u8: Copy { Cat::new(String::new()) }");
    let actual = use_obj(&lex("Cat"), &item).unwrap();
    same(
        &actual,
        "#[inline] pub fn swap(cat: impl CatObj, _n: u8) -> impl CatObj where u8: Copy { Cat::new(String::new()) }",
    );
}

#[test]
fn use_obj_refuses_bad_argument_and_item() {
    let item = lex("fn drop_cat(_cat: Cat) {}");
    assert_eq!(use_obj(&lex("Cat, Dog"), &item).unwrap_err(), NostrumError::ExpectedTypeName);
    assert_eq!(use_obj(&lex("\"Cat\""), &item).unwrap_err(), NostrumError::ExpectedTypeName);
    assert_eq!(use_obj(&lex("Cat"), &lex("struct Cat;")).unwrap_err(), NostrumError::ExpectedFn);
    assert_eq!(use_obj(&lex("Cat"), &vec![]).unwrap_err(), NostrumError::ExpectedFn);
}

#[test]
fn use_obj_without_argument_takes_first_parameter_type() {
    let item = lex("fn call_meow(cat: &Cat) -> String { cat.meow() }");
    let actual = use_obj(&vec![], &item).unwrap();
    same(&actual, "fn call_meow(cat: &impl CatObj) -> String { cat.meow() }");
    let item = lex("fn call_change_name<'a>(cat: &'a mut Cat, name: String) { cat.change_name(name) }");
    let actual = use_obj(&vec![], &item).unwrap();
    same(&actual, "fn call_change_name<'a>(cat: &'a mut impl CatObj, name: String) { cat.change_name(name) }");
    let item = lex("fn drop_cat(_cat: Cat) {}");
    same(&use_obj(&vec![], &item).unwrap(), "fn drop_cat(_cat: impl CatObj) {}");
}

#[test]
fn use_obj_without_argument_needs_a_parameter_of_path_type() {
    assert_eq!(use_obj(&vec![], &lex("fn f() {}")).unwrap_err(), NostrumError::ExpectedTypeName);
    assert_eq!(use_obj(&vec![], &lex("fn f(x: [u8; 2]) {}")).unwrap_err(), NostrumError::ExpectedTypeName);
    assert_eq!(use_obj(&vec![], &lex("struct Cat;")).unwrap_err(), NostrumError::ExpectedFn);
}

#[test]
fn parse_let_mock_reads_binding_and_state() {
    let m = parse_let_mock(&lex("let mut mock_cat = Cat::default()")).unwrap();
    assert_eq!(m, let_mock(true, "mock_cat", "Cat::default()"));
    let m = parse_let_mock(&lex("let ref mut m = (1, 2)")).unwrap();
    assert_eq!(m.pat_ident, PatIdent { by_ref: true, mutability: true, ident: "m".to_string() });
    assert_eq!(m.expr, lex("(1, 2)"));
}

#[test]
fn parse_let_mock_refuses_other_forms() {
    for src in ["", "let", "let m =", "m = 1", "let _ = 1", "let mut = 1", "let m == 1", "let (a, b) = c", "let m: u8 = 1"] {
        assert!(parse_let_mock(&lex(src)).is_none(), "{}", src);
    }
}

#[test]
fn parse_default_attr_reads_nostrum_default() {
    assert_eq!(parse_default_attr(&lex("#[nostrum(default = 1 + 2)]")), Ok(Some(lex("1 + 2"))));
    assert_eq!(parse_default_attr(&lex("#[doc = \"nostrum\"]")), Ok(None));
    assert_eq!(parse_default_attr(&lex("#[nostrum::skip]")), Ok(None));
    assert_eq!(parse_default_attr(&lex("#[nostrum(skip)]")), Err(NostrumError::ExpectedDefault));
    assert_eq!(parse_default_attr(&lex("#[nostrum(default)]")), Err(NostrumError::ExpectedDefault));
    assert_eq!(parse_default_attr(&lex("#[nostrum]")), Err(NostrumError::ExpectedDefault));
}

#[test]
fn mock_macro_reads_its_argument() {
    let item = || ItemImpl {
        trait_: Some((false, path(&["CatObj"]))),
        self_ty: lex("String"),
        attrs: vec![],
        items: vec![ImplItem::Fn(method("name", vec![recv(true, false)], Some(reference(None, false, "str")), "$name"))],
    };
    let attr = let_mock(true, "mock_cat", "\"Kitty\".to_string()");
    let expected = mock(&attr, item()).unwrap();
    let actual = mock_macro(&lex("let mut mock_cat = \"Kitty\".to_string()"), item()).unwrap();
    assert_eq!(actual, expected);
    assert_eq!(mock_macro(&lex("mock_cat"), item()).unwrap_err(), MockError::ExpectedLet);
    let mut no_trait = item();
    no_trait.trait_ = None;
    assert_eq!(mock_macro(&lex("let m = 1"), no_trait).unwrap_err(), MockError::ExpectedTrait);
}

#[test]
fn nostrum_makes_trait_and_impl_of_methods_taking_self() {
    // `new` takes no `self` and is left out of the trait.
    let block = ItemImpl {
        trait_: None,
        self_ty: lex("Cat"),
        attrs: vec![],
        items: vec![
            ImplItem::Fn(with_sig(
                method("new", vec![typed("name", other("String"))], Some(other("Self")), "$Self { name }"),
                "fn new(name: String) -> Self",
            )),
            ImplItem::Fn(with_sig(
                method("name", vec![recv(true, false)], Some(reference(None, false, "str")), "&$self.name"),
                "fn name(&self) -> &str",
            )),
            ImplItem::Fn(with_sig(
                method("meow", vec![recv(true, false)], Some(other("String")), "$format!(\"{}: meow\", self.name)"),
                "fn meow(&self) -> String",
            )),
        ],
    };
    let actual = nostrum(&vec![], &block).unwrap();
    same(
        &actual,
        "pub trait CatObj { \
             fn name(&self) -> &str; \
             fn meow(&self) -> String; \
         } \
         impl CatObj for Cat { \
             fn name(&self) -> &str { &self.name } \
             fn meow(&self) -> String { format!(\"{}: meow\", self.name) } \
         }",
    );
}

#[test]
fn nostrum_on_unnamed_type_produces_nothing() {
    let block = ItemImpl {
        trait_: None,
        self_ty: lex("[u8; 4]"),
        attrs: vec![],
        items: vec![ImplItem::Fn(meow_method())],
    };
    assert!(nostrum(&vec![], &block).unwrap().is_empty());
}

fn well_bracketed(toks: &[Tok]) -> bool {
    let mut stack = Vec::new();
    for t in toks {
        match t {
            Tok::Open(d) => stack.push(*d),
            Tok::Close(d) => {
                if stack.pop() != Some(*d) {
                    return false;
                }
            }
            _ => {}
        }
    }
    stack.is_empty()
}

#[test]
fn generated_code_is_well_bracketed() {
    let attr = let_mock(false, "m", "Cat { name: String::new() }");
    let item = ItemImpl {
        trait_: Some((false, path(&["CatObj"]))),
        self_ty: lex("Cat"),
        attrs: vec![],
        items: vec![
            ImplItem::Fn(method(
                "aaaa",
                vec![
                    recv(true, false),
                    typed("a", reference(Some("a"), false, "String")),
                    typed("(b, c)", other("([u8; 2], Vec<(u8, u8)>)")),
                ],
                Some(reference(Some("a"), false, "str")),
                "if $a.is_empty() { [$b[0]]; } else { { (); } } $a.as_str()",
            )),
            ImplItem::Fn(meow_method()),
        ],
    };
    let out = mock(&attr, item).unwrap();
    assert!(well_bracketed(&out));
    assert!(!well_bracketed(&[Tok::Open(Delim::Paren), Tok::Close(Delim::Brace)]));
}

#[test]
fn closure_body_has_no_self_segment() {
    let input = method(
        "meow",
        vec![recv(true, false)],
        None,
        "$self.name; { $self; } [$self.count]",
    );
    let out = closure_expr(&lex("Cat"), &input);
    assert!(!out.iter().any(|t| *t == Tok::Segment("self".to_string())));
    assert_eq!(
        out.iter().filter(|t| **t == Tok::Segment("__narrative_state".to_string())).count(),
        3
    );
}

#[test]
fn nostrum_default_gives_trait_method_a_body() {
    // A method's own default wins over the block's.
    let mut name = with_sig(
        method("name", vec![recv(true, false)], Some(reference(None, false, "str")), "&$self.name"),
        "fn name(&self) -> &str",
    );
    name.attrs = vec![lex("#[doc = \"the name\"]"), lex("#[nostrum(default = \"nobody\")]")];
    let meow = with_sig(
        method("meow", vec![recv(true, false)], Some(other("String")), "$String::new()"),
        "fn meow(&self) -> String",
    );
    let block = ItemImpl {
        trait_: None,
        self_ty: lex("Cat"),
        attrs: vec![lex("#[nostrum(default = Default::default())]")],
        items: vec![ImplItem::Fn(name), ImplItem::Fn(meow)],
    };
    let actual = process(&block).unwrap();
    same(
        &actual,
        "pub trait CatObj { \
             fn name(&self) -> &str { \"nobody\" } \
             fn meow(&self) -> String { Default::default() } \
         } \
         impl CatObj for Cat { \
             fn name(&self) -> &str { &self.name } \
             fn meow(&self) -> String { String::new() } \
         }",
    );
}

// The mock that the attribute `mock(let mut mock_cat = "Kitty".to_string())`
// produces for `impl CatObj for String { meow, name, change_name }`. The
// identifiers inside `format!` are macro tokens, which syn does not read as
// path segments, so that `self` is kept.
#[test]
fn test() {
    let item = ItemImpl {
        trait_: Some((false, path(&["CatObj"]))),
        self_ty: lex("String"),
        attrs: vec![],
        items: vec![
            ImplItem::Fn(with_sig(
                method(
                    "meow",
                    vec![recv(true, false)],
                    Some(other("String")),
                    "$count += 1; $format!(\"{}: meow {}\", self, count)",
                ),
                "fn meow(&self) -> String",
            )),
            ImplItem::Fn(with_sig(
                method("name", vec![recv(true, false)], Some(reference(None, false, "str")), "$name"),
                "fn name(&self) -> &str",
            )),
            ImplItem::Fn(with_sig(
                method(
                    "change_name",
                    vec![recv(true, true), typed("name", other("String"))],
                    None,
                    "$mut_name = $name;",
                ),
                "fn change_name(&mut self, name: String)",
            )),
        ],
    };
    let actual = mock_macro(&lex("let mut mock_cat = \"Kitty\".to_string()"), item).unwrap();
    same(
        &actual,
        "#[allow(non_camel_case_types)] #[allow(clippy::extra_unused_lifetimes)] struct mock_cat__CatObj< 'a> {} \
         impl < '__narrative_state, \
             meow: FnMut(&String) -> String, \
             name: FnMut(&String) -> & 'static str, \
             change_name: FnMut(&mut String, String), \
         > CatObj for mock_cat__CatObj< '__narrative_state, meow, name, change_name> { \
             fn meow(&self) -> String { self.meow.lock().unwrap()(self.__narrative_state) } \
             fn name(&self) -> String { self.name.lock().unwrap()(self.__narrative_state) } \
             fn change_name(&self) -> String { self.change_name.lock().unwrap()(self.__narrative_state) } \
         } \
         let mut __nostrumock_state = \"Kitty\".to_string(); \
         #[allow(non_snake_case)] \
         let mut __nostrumock__meow = |__nostrumock_state: &String| -> String { count += 1; format!(\"{}: meow {}\", self, count) }; \
         #[allow(non_snake_case)] \
         let mut __nostrumock__name = |__nostrumock_state: &String| -> & 'static str { name }; \
         #[allow(non_snake_case)] \
         let mut __nostrumock__change_name = |__nostrumock_state: &mut String, name: String| { mut_name = name; }; \
         let mut mock_cat = mock_cat__CatObj { \
             __nostrumock_state: &mut __nostrumock_state, \
             meow: std::sync::Mutex::new(&mut __nostrumock__meow), \
             name: std::sync::Mutex::new(&mut __nostrumock__name), \
             change_name: std::sync::Mutex::new(&mut __nostrumock__change_name), \
         };",
    );
}

#[test]
fn type_path_name_is_last_segment_of_a_path_type() {
    let name = |src: &str| type_path_name(&lex(src));
    assert_eq!(name("Cat"), Some("Cat".to_string()));
    assert_eq!(name("crate::animals::Cat"), Some("Cat".to_string()));
    assert_eq!(name("::std::string::String"), Some("String".to_string()));
    assert_eq!(name("Vec<u8>"), Some("Vec".to_string()));
    assert_eq!(name("Box<dyn Fn(u8) -> Vec<u8>>"), Some("Box".to_string()));
    assert_eq!(name("<T as Animal>::Out"), Some("Out".to_string()));
    assert_eq!(name("Fn(u8) -> u8"), Some("Fn".to_string()));
    for src in ["", "[u8; 4]", "&Cat", "(Cat, Dog)", "dyn Animal", "impl Animal", "fn(u8)", "Animal + Send", "_"] {
        assert_eq!(name(src), None, "{}", src);
    }
}
