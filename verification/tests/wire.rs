use const_tweaker::wire::{parse_set_bool_body, parse_set_float_body};

#[test]
fn plain_bool_body_parses() {
    assert_eq!(
        parse_set_bool_body("{\"key\":\"paused\",\"value\":true}"),
        Some(("paused".to_string(), true))
    );
    assert_eq!(
        parse_set_bool_body("{\"key\":\"paused\",\"value\":false}"),
        Some(("paused".to_string(), false))
    );
}

#[test]
fn plain_float_body_parses_to_its_token() {
    assert_eq!(
        parse_set_float_body("{\"key\":\"gravity\",\"value\":3.0}"),
        Some(("gravity".to_string(), "3.0".to_string()))
    );
    assert_eq!(
        parse_set_float_body("{\"key\":\"g\",\"value\":-2.5e-3}"),
        Some(("g".to_string(), "-2.5e-3".to_string()))
    );
    assert_eq!(
        parse_set_float_body("{\"key\":\"g\",\"value\":0}"),
        Some(("g".to_string(), "0".to_string()))
    );
    assert_eq!(
        parse_set_float_body("{\"key\":\"g\",\"value\":42E+1}"),
        Some(("g".to_string(), "42E+1".to_string()))
    );
}

#[test]
fn members_may_come_in_either_order_with_whitespace() {
    assert_eq!(
        parse_set_bool_body(" { \"value\" : true ,\t\"key\" : \"x\" }\n"),
        Some(("x".to_string(), true))
    );
    assert_eq!(
        parse_set_float_body("{ \"value\": 9.8, \"key\": \"gravity\" }"),
        Some(("gravity".to_string(), "9.8".to_string()))
    );
}

#[test]
fn string_escapes_decode() {
    assert_eq!(
        parse_set_bool_body("{\"key\":\"a\\\"b\\\\c\\/d\\n\\t\",\"value\":true}"),
        Some(("a\"b\\c/d\n\t".to_string(), true))
    );
}

#[test]
fn unicode_keys_pass_through() {
    assert_eq!(
        parse_set_bool_body("{\"key\":\"schwerkraft-\u{00e9}\u{2713}\",\"value\":true}"),
        Some(("schwerkraft-\u{00e9}\u{2713}".to_string(), true))
    );
}

#[test]
fn malformed_bodies_are_rejected() {
    // Not an object, or an incomplete one.
    assert_eq!(parse_set_bool_body(""), None);
    assert_eq!(parse_set_bool_body("true"), None);
    assert_eq!(parse_set_bool_body("{\"key\":\"a\",\"value\":true"), None);
    // A member is missing, unknown, or repeated.
    assert_eq!(parse_set_bool_body("{\"key\":\"a\"}"), None);
    assert_eq!(parse_set_bool_body("{\"k\":\"a\",\"value\":true}"), None);
    assert_eq!(parse_set_bool_body("{\"key\":\"a\",\"key\":\"b\"}"), None);
    // The value has the wrong type for the route.
    assert_eq!(parse_set_bool_body("{\"key\":\"a\",\"value\":1}"), None);
    assert_eq!(parse_set_float_body("{\"key\":\"a\",\"value\":true}"), None);
    assert_eq!(parse_set_float_body("{\"key\":\"a\",\"value\":\"1\"}"), None);
    // Text after the closing brace.
    assert_eq!(parse_set_bool_body("{\"key\":\"a\",\"value\":true}x"), None);
    // An unterminated string, an unknown escape, a raw control character.
    assert_eq!(parse_set_bool_body("{\"key\":\"a,\"value\":true}"), None);
    assert_eq!(parse_set_bool_body("{\"key\":\"\\u0041\",\"value\":true}"), None);
    assert_eq!(parse_set_bool_body("{\"key\":\"a\nb\",\"value\":true}"), None);
}

#[test]
fn malformed_number_tokens_are_rejected() {
    assert_eq!(parse_set_float_body("{\"key\":\"g\",\"value\":01}"), None);
    assert_eq!(parse_set_float_body("{\"key\":\"g\",\"value\":3.}"), None);
    assert_eq!(parse_set_float_body("{\"key\":\"g\",\"value\":.5}"), None);
    assert_eq!(parse_set_float_body("{\"key\":\"g\",\"value\":+3}"), None);
    assert_eq!(parse_set_float_body("{\"key\":\"g\",\"value\":1e}"), None);
    assert_eq!(parse_set_float_body("{\"key\":\"g\",\"value\":-}"), None);
}

#[test]
fn parsed_tokens_convert_to_the_posted_number() {
    let (key, token) = parse_set_float_body("{\"key\":\"gravity\",\"value\":3.0}").unwrap();
    assert_eq!(key, "gravity");
    assert_eq!(token.parse::<f64>().unwrap(), 3.0);
    let (_, token) = parse_set_float_body("{\"key\":\"g\",\"value\":-2.5e-3}").unwrap();
    assert_eq!(token.parse::<f64>().unwrap(), -0.0025);
}
