use clickrs_core::options::ArgumentOptions;
use clickrs_core::token::TokenTree;

#[test]
fn new_map_holds_nothing() {
    let options = ArgumentOptions::new();
    assert!(!options.contains_key(&"debug".to_string()));
    assert_eq!(options.get(&"debug".to_string()), None);
    assert_eq!(options.get(&String::new()), None);
}

#[test]
fn insert_then_get_gives_the_tokens() {
    let mut options = ArgumentOptions::new();
    let tokens = vec![TokenTree::ident("short"), TokenTree::punct(','), TokenTree::ident("long")];
    options.insert("debug".to_string(), tokens.clone());
    assert!(options.contains_key(&"debug".to_string()));
    assert_eq!(options.get(&"debug".to_string()), Some(&tokens));
    assert!(!options.contains_key(&"Debug".to_string()));
    assert_eq!(options.get(&"debu".to_string()), None);
}

#[test]
fn later_insert_replaces_earlier() {
    let mut options = ArgumentOptions::new();
    options.insert("speed".to_string(), vec![TokenTree::ident("short")]);
    options.insert("level".to_string(), vec![TokenTree::ident("long")]);
    options.insert("speed".to_string(), vec![]);
    assert_eq!(options.get(&"speed".to_string()), Some(&vec![]));
    assert_eq!(options.get(&"level".to_string()), Some(&vec![TokenTree::ident("long")]));
}

#[test]
fn empty_name_is_a_name_like_any_other() {
    let mut options = ArgumentOptions::new();
    options.insert(String::new(), vec![TokenTree::ident("long")]);
    assert!(options.contains_key(&String::new()));
    assert!(!options.contains_key(&" ".to_string()));
}
