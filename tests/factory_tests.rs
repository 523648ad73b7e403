use token_law::factory::{Factory, FactoryError};

#[test]
fn register_and_find_case_insensitive() {
    let mut f = Factory::new();
    assert_eq!(f.create_token("abc".to_string(), "abc.near".to_string()), Ok(()));
    assert_eq!(f.get_token("ABC".to_string()), Some("abc.near".to_string()));
    assert_eq!(f.get_token("aBc".to_string()), Some("abc.near".to_string()));
    assert_eq!(f.find_key(&"ABC".to_string()), Some("abc.near".to_string()));
    assert_eq!(f.find_key(&"abc".to_string()), None);
    assert_eq!(f.get_token("xyz".to_string()), None);
}

#[test]
fn symbol_used_refused() {
    let mut f = Factory::new();
    assert_eq!(f.create_token("Tok".to_string(), "one.near".to_string()), Ok(()));
    assert_eq!(
        f.create_token("TOK".to_string(), "two.near".to_string()),
        Err(FactoryError::SymbolUsed)
    );
    assert_eq!(f.get_token("tok".to_string()), Some("one.near".to_string()));
    assert_eq!(f.create_token("TOK2".to_string(), "two.near".to_string()), Ok(()));
    assert_eq!(f.get_token("tok2".to_string()), Some("two.near".to_string()));
}
