use escrow_contracts::simple_string::SimpleStringContract;

#[test]
fn test_simple_string_contract() {
    let mut client = SimpleStringContract::new();
    let user_name = String::from("Mert");
    assert_eq!(client.set_user_name(user_name.clone()), user_name);
    assert_eq!(client.get_user_name(), user_name);
}

#[test]
fn user_name_is_empty_until_set() {
    let client = SimpleStringContract::new();
    assert_eq!(client.get_user_name(), String::new());
}
