use scan_core::script_regex::LuaRegex;

#[test]
fn captures_group_zero_is_find() {
    let re = LuaRegex::compile("(\\w+)@(\\w+)?\\.org").unwrap();
    let text = "mail alice@example.org or bob@.org";
    let found = re.find(text).unwrap();
    assert_eq!(found, "alice@example.org");
    let caps = re.captures(text).unwrap();
    assert_eq!(caps[0].as_deref(), Some(found.as_str()));
    assert_eq!(caps[1].as_deref(), Some("alice"));
    assert_eq!(caps[2].as_deref(), Some("example"));
}

#[test]
fn optional_group_may_be_absent() {
    let re = LuaRegex::compile("(a)(b)?").unwrap();
    let caps = re.captures("xa").unwrap();
    assert_eq!(caps, vec![Some("a".to_string()), Some("a".to_string()), None]);
}

#[test]
fn no_match_gives_none_everywhere() {
    let re = LuaRegex::compile("^PermitRootLogin\\s+yes").unwrap();
    let text = "PermitRootLogin no";
    assert!(!re.is_match(text));
    assert_eq!(re.find(text), None);
    assert!(re.captures(text).is_none());
}

#[test]
fn bad_pattern_is_rejected() {
    let e = LuaRegex::compile("foo(bar").err().unwrap();
    assert!(!e.is_empty());
}
