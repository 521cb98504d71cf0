use std::sync::Mutex;

use nostrum::cat_obj::{
    call_change_name, call_meow, call_name, call_name2, drop_cat, Arg, Cat, CatObj, Method, Ret,
    Test,
};

#[test]
fn lib_test() {
    #[allow(non_camel_case_types)]
    #[allow(clippy::extra_unused_lifetimes)]
    struct DynCat<'a, meow, name, change_name, aaaa>
    where
        meow: FnMut(&String) -> String,
        name: FnMut(&String) -> &'a str,
        change_name: FnMut(&mut String, String),
        aaaa: FnMut(&String, &String, &[u8]) -> &'static str,
    {
        state: &'a mut String,
        meow: Mutex<&'a mut meow>,
        name: Mutex<&'a mut name>,
        change_name: Mutex<&'a mut change_name>,
        aaaa: Mutex<&'a mut aaaa>,
    }

    #[allow(non_camel_case_types)]
    impl<
            'state,
            meow: FnMut(&String) -> String,
            name: FnMut(&String) -> &'state str,
            change_name: FnMut(&mut String, String),
            aaaa: FnMut(&String, &String, &[u8]) -> &'static str,
        > CatObj for DynCat<'state, meow, name, change_name, aaaa>
    {
        fn meow(&self) -> String {
            self.meow.lock().unwrap()(self.state)
        }
        fn name(&self) -> &str {
            self.name.lock().unwrap()(self.state)
        }
        fn change_name(&mut self, name: String) {
            self.change_name.lock().unwrap()(self.state, name)
        }
        fn aaaa<'a>(&self, a: &'a String, b: &[u8]) -> &'a str {
            self.aaaa.lock().unwrap()(self.state, a, b)
        }
        fn __nostrum_unimplemented(&self, _method: Method, _args: &[Arg]) -> Ret<'_> {
            panic!("every method of this mock is answered by a closure")
        }
    }
    let name = "Kitty";
    let mut mut_name = "Kitty".to_string();
    let mut count = 0;
    let mut meow = |_state: &String| {
        count += 1;
        format!("{}: meow {}", name, count)
    };
    let mut name_c = |#[allow(unused_variables)] state: &String| name;
    let mut change_name = |_state: &mut String, a| mut_name = a;
    let mut aaaa =
        |#[allow(unused_variables)] state: &String, a: &String, b: &[u8]| -> &str { "aaa" };
    let mut state = Default::default();
    let mut mock_cat = DynCat {
        state: &mut state,
        meow: Mutex::new(&mut meow),
        name: Mutex::new(&mut name_c),
        change_name: Mutex::new(&mut change_name),
        aaaa: Mutex::new(&mut aaaa),
    };
    assert_eq!(call_meow(&mock_cat), "Kitty: meow 1");
    assert_eq!(call_meow(&mock_cat), "Kitty: meow 2");
    assert_eq!(call_name(&mock_cat), "Kitty");
    assert_eq!(call_name2(&mock_cat), "Kitty");
    call_change_name(&mut mock_cat, "Kitty2".to_string());
    drop_cat(mock_cat);
    assert_eq!(mut_name, "Kitty2");
}

#[test]
fn cat_meows_with_its_name() {
    let cat = <Cat as CatObj>::new("Kitty".to_string());
    assert_eq!(cat.name, "Kitty");
    assert_eq!(call_meow(&cat), "Kitty: meow");
    assert_eq!(call_name(&cat), "Kitty");
    assert_eq!(call_name2(&cat), "Kitty");
}

#[test]
fn cat_name_after_change_name() {
    let mut cat = <Test as CatObj>::new("Kitty".to_string());
    call_change_name(&mut cat, "Kitty2".to_string());
    assert_eq!(call_name(&cat), "Kitty2");
    assert_eq!(cat.meow(), "Kitty2: meow");
    drop_cat(cat);
}

#[test]
fn ret_meow_gives_the_string() {
    assert_eq!(Ret::meow("Kitty: meow".to_string()).meow(), "Kitty: meow");
}

// An object that writes only the hook for `meow` gets `meow` from it.
struct HookCat {
    name: String,
}

impl CatObj for HookCat {
    fn name(&self) -> &str {
        &self.name
    }
    fn change_name(&mut self, name: String) {
        self.name = name;
    }
    fn aaaa<'a>(&self, a: &'a String, _b: &[u8]) -> &'a str {
        a.as_str()
    }
    fn __nostrum_unimplemented(&self, method: Method, _args: &[Arg]) -> Ret<'_> {
        match method {
            Method::meow => Ret::meow(format!("{}: meow by hook", self.name)),
            _ => panic!("only meow is answered by the hook"),
        }
    }
}

#[test]
fn default_meow_asks_the_hook() {
    let cat = HookCat { name: "Kitty".to_string() };
    assert_eq!(call_meow(&cat), "Kitty: meow by hook");
    assert_eq!(cat.meow(), "Kitty: meow by hook");
}

#[test]
fn cat_hook_answers_meow_with_its_own() {
    let cat = Cat { name: "Kitty".to_string() };
    assert_eq!(cat.__nostrum_unimplemented(Method::meow, &[]).meow(), "Kitty: meow");
}
