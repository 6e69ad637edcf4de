use bip353::{parse_address, Bip353Error};

#[test]
fn lib_test_parse_address() {
    // Regular user@domain format
    let result = parse_address("alice@example.com");
    assert!(result.is_ok());
    let (user, domain) = result.unwrap();
    assert_eq!(user, "alice");
    assert_eq!(domain, "example.com");

    // With Bitcoin prefix
    let result = parse_address("₿bob@bitcoin.org");
    assert!(result.is_ok());
    let (user, domain) = result.unwrap();
    assert_eq!(user, "bob");
    assert_eq!(domain, "bitcoin.org");

    // With whitespace
    let result = parse_address("  charlie@example.org  ");
    assert!(result.is_ok());
    let (user, domain) = result.unwrap();
    assert_eq!(user, "charlie");
    assert_eq!(domain, "example.org");
}

#[test]
fn lib_test_invalid_addresses() {
    // Missing @
    let result = parse_address("aliceexample.com");
    assert!(result.is_err());

    // Empty user part
    let result = parse_address("@example.com");
    assert!(result.is_err());

    // Empty domain part
    let result = parse_address("alice@");
    assert!(result.is_err());

    // Multiple @ symbols
    let result = parse_address("alice@example@com");
    assert!(result.is_err());
}

#[test]
fn integration_test_parse_address() {
    // Regular user@domain format
    let result = bip353::parse_address("alice@example.com");
    assert!(result.is_ok());
    let (user, domain) = result.unwrap();
    assert_eq!(user, "alice");
    assert_eq!(domain, "example.com");

    // With Bitcoin prefix
    let result = bip353::parse_address("₿bob@bitcoin.org");
    assert!(result.is_ok());
    let (user, domain) = result.unwrap();
    assert_eq!(user, "bob");
    assert_eq!(domain, "bitcoin.org");

    // With whitespace
    let result = bip353::parse_address("  charlie@example.org  ");
    assert!(result.is_ok());
    let (user, domain) = result.unwrap();
    assert_eq!(user, "charlie");
    assert_eq!(domain, "example.org");

    // With subdomain
    let result = bip353::parse_address("dave@subdomain.example.com");
    assert!(result.is_ok());
    let (user, domain) = result.unwrap();
    assert_eq!(user, "dave");
    assert_eq!(domain, "subdomain.example.com");

    // With numbers and special chars in user part
    let result = bip353::parse_address("user123_456@example.com");
    assert!(result.is_ok());
    let (user, domain) = result.unwrap();
    assert_eq!(user, "user123_456");
    assert_eq!(domain, "example.com");

    // With dash in domain
    let result = bip353::parse_address("eve@example-domain.com");
    assert!(result.is_ok());
    let (user, domain) = result.unwrap();
    assert_eq!(user, "eve");
    assert_eq!(domain, "example-domain.com");
}

#[test]
fn integration_test_invalid_addresses() {
    // Missing @
    let result = bip353::parse_address("aliceexample.com");
    assert!(result.is_err());

    // Empty user part
    let result = bip353::parse_address("@example.com");
    assert!(result.is_err());

    // Empty domain part
    let result = bip353::parse_address("alice@");
    assert!(result.is_err());

    // Multiple @ symbols
    let result = bip353::parse_address("alice@example@com");
    assert!(result.is_err());

    // Empty string
    let result = bip353::parse_address("");
    assert!(result.is_err());

    // Only whitespace
    let result = bip353::parse_address("   ");
    assert!(result.is_err());
}

fn is_invalid_address(r: Result<(String, String), Bip353Error>) -> bool {
    matches!(r, Err(Bip353Error::InvalidAddress(_)))
}

#[test]
fn malformed_addresses_are_invalid_address_errors() {
    for a in ["aliceexample.com", "@example.com", "alice@", "alice@example@com", "", "   ", "₿", " ₿ @ "] {
        assert!(is_invalid_address(parse_address(a)), "{a:?}");
    }
}

#[test]
fn surrounding_unicode_whitespace_and_prefix_are_removed() {
    let (u, d) = parse_address("\t\u{3000} ₿ alice @ example.com \n\u{85}").unwrap();
    assert_eq!(u, "alice");
    assert_eq!(d, "example.com");
}

#[test]
fn only_one_prefix_is_stripped() {
    let (u, d) = parse_address("₿₿bob@x.org").unwrap();
    assert_eq!(u, "₿bob");
    assert_eq!(d, "x.org");
}

#[test]
fn parsing_the_normalized_form_is_idempotent() {
    let (u, d) = parse_address("  ₿carol@example.net ").unwrap();
    let again = parse_address(&format!("{u}@{d}")).unwrap();
    assert_eq!(again, (u, d));
}

#[test]
fn no_percent_decoding_is_done() {
    let (u, d) = parse_address("a%40b@ex%2Eample.com").unwrap();
    assert_eq!(u, "a%40b");
    assert_eq!(d, "ex%2Eample.com");
}

#[test]
fn parse_error_messages() {
    match parse_address("nobody") {
        Err(Bip353Error::InvalidAddress(m)) => assert_eq!(m, "Address must be in format user@domain"),
        other => panic!("{other:?}"),
    }
    match parse_address(" @x") {
        Err(Bip353Error::InvalidAddress(m)) => assert_eq!(m, "User and domain cannot be empty"),
        other => panic!("{other:?}"),
    }
}
