use std::collections::HashMap;
use wasm_code_builder::env::{Env, Located, Region};
use wasm_code_builder::symbol::Symbol;

fn region(line: u32) -> Region {
    Region { start_line: line, start_col: 0, end_line: line, end_col: 10 }
}

#[test]
fn new_environment_has_found_nothing() {
    let mut variants = HashMap::new();
    variants.insert(7, Located { region: region(1), value: "Just".into() });
    let env: Env<String, Vec<Symbol>> = Env::new("Main".into(), variants);
    assert_eq!(&*env.home, "Main");
    assert!(env.problems.is_empty());
    assert!(env.closures.is_empty());
    assert_eq!(env.tailcallable_symbol, None);
    assert_eq!(env.variants.len(), 1);
    assert_eq!(&*env.variants[&7].value, "Just");
    assert_eq!(env.variants[&7].region, region(1));
}

#[test]
fn problems_are_kept_in_order() {
    let mut env: Env<String, Vec<Symbol>> = Env::new("Main".into(), HashMap::new());
    env.problem("first".to_string());
    env.problem("second".to_string());
    assert_eq!(env.problems, vec!["first".to_string(), "second".to_string()]);
    assert!(env.closures.is_empty());
}

#[test]
fn closure_is_registered_under_its_symbol() {
    let mut env: Env<String, Vec<Symbol>> = Env::new("Main".into(), HashMap::new());
    env.register_closure(Symbol(3), vec![Symbol(1)]);
    env.register_closure(Symbol(4), vec![]);
    assert_eq!(env.closures.len(), 2);
    assert_eq!(env.closures[&3], vec![Symbol(1)]);
    assert_eq!(env.closures[&4], vec![]);
    assert!(env.problems.is_empty());
}

#[test]
fn registering_again_replaces() {
    let mut env: Env<String, Vec<Symbol>> = Env::new("Main".into(), HashMap::new());
    env.register_closure(Symbol(3), vec![Symbol(1)]);
    env.register_closure(Symbol(3), vec![Symbol(2), Symbol(5)]);
    assert_eq!(env.closures.len(), 1);
    assert_eq!(env.closures[&3], vec![Symbol(2), Symbol(5)]);
}
