use git_ez::text::address_from_ssh_client;

#[test]
fn address_is_first_field_of_ssh_client() {
    assert_eq!(address_from_ssh_client("10.0.0.7 51234 22"), "10.0.0.7");
    assert_eq!(address_from_ssh_client("10.0.0.7"), "10.0.0.7");
    assert_eq!(address_from_ssh_client(""), "");
    assert_eq!(address_from_ssh_client(" 51234 22"), "");
}
