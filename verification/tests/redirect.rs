use oidc_provider::redirect::url_with_query;

fn pairs(items: &[(&str, &str)]) -> Vec<(String, String)> {
    items.iter().map(|(k, v)| (k.to_string(), v.to_string())).collect()
}

#[test]
fn parameters_are_appended_in_order() {
    assert_eq!(
        url_with_query("https://app/cb", &pairs(&[("code", "K"), ("state", "a b&c")])).as_deref(),
        Some("https://app/cb?code=K&state=a+b%26c")
    );
    assert_eq!(url_with_query("https://app/cb?x=1", &pairs(&[("code", "K")])).as_deref(), Some("https://app/cb?x=1&code=K"));
    assert_eq!(url_with_query("https://app", &pairs(&[("code", "K")])).as_deref(), Some("https://app/?code=K"));
    assert_eq!(url_with_query("https://app/cb#frag", &pairs(&[("code", "K")])).as_deref(), Some("https://app/cb?code=K#frag"));
    assert_eq!(url_with_query("https://app/cb", &Vec::new()).as_deref(), Some("https://app/cb?"));
}

#[test]
fn what_is_no_absolute_url_gives_nothing() {
    for base in ["", "/cb", "app/cb", "https://", "not a url"] {
        assert_eq!(url_with_query(base, &pairs(&[("code", "K")])), None);
    }
}

#[test]
fn texts_beyond_the_bound_give_nothing() {
    let long = "a".repeat(1_048_577);
    let at_bound = "a".repeat(1_048_576);
    let base = format!("https://app/{}", &at_bound[12..]);
    assert_eq!(base.chars().count(), 1_048_576);
    assert!(url_with_query(&base, &pairs(&[("code", "K")])).is_some());
    assert!(url_with_query(&format!("{}a", base), &pairs(&[("code", "K")])).is_none());
    assert!(url_with_query("https://app/cb", &pairs(&[("code", &at_bound)])).is_some());
    assert!(url_with_query("https://app/cb", &pairs(&[("code", &long)])).is_none());
    assert!(url_with_query("https://app/cb", &pairs(&[(&long, "K")])).is_none());
    assert!(url_with_query("https://app/cb", &pairs(&[("a", "1"), ("code", &long)])).is_none());
}

#[test]
fn more_parameters_than_the_bound_give_nothing() {
    let eight = pairs(&[("a", "1"), ("b", "2"), ("c", "3"), ("d", "4"), ("e", "5"), ("f", "6"), ("g", "7"), ("h", "8")]);
    assert_eq!(
        url_with_query("https://app/cb", &eight).as_deref(),
        Some("https://app/cb?a=1&b=2&c=3&d=4&e=5&f=6&g=7&h=8")
    );
    let mut nine = eight;
    nine.push(("i".to_string(), "9".to_string()));
    assert_eq!(url_with_query("https://app/cb", &nine), None);
}
