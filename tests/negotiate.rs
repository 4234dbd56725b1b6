use kyubey::negotiate::Accept;

#[test]
fn media_types_on_offer() {
    assert_eq!(Accept::from_str("text/html"), Some(Accept::Html));
    assert_eq!(Accept::from_str("application/json"), Some(Accept::Json));
    assert_eq!(Accept::from_str("text/plain"), None);
    assert_eq!(Accept::from_str(" text/html"), None);
}

#[test]
fn header_picks_first_entry_on_offer() {
    assert_eq!(Accept::from_header("application/json"), Some(Accept::Json));
    assert_eq!(Accept::from_header("text/plain,text/html,application/json"), Some(Accept::Html));
    assert_eq!(Accept::from_header("application/json,text/html"), Some(Accept::Json));
    assert_eq!(Accept::from_header("image/png,*/*"), None);
    assert_eq!(Accept::from_header(""), None);
    assert_eq!(Accept::from_header(",,text/html"), Some(Accept::Html));
    assert_eq!(Accept::from_header("text/html;q=0.9"), None);
}
