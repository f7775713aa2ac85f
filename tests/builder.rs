use kitsu_io::builder::Search;

#[test]
fn empty_search_renders_nothing() {
    assert_eq!(Search::new().as_str(), "");
    assert_eq!(Search::default().as_str(), "");
}

#[test]
fn repeated_filters_are_all_kept_in_order() {
    let s = Search::new().filter("text", "a").filter("text", "b");
    assert_eq!(s.as_str(), "&filter[text]=a&filter[text]=b");
}

#[test]
fn each_call_appends_one_segment() {
    let s = Search::new()
        .filter("text", "non non biyori")
        .limit(10)
        .offset(20)
        .sort("-id");
    assert_eq!(
        s.as_str(),
        "&filter[text]=non non biyori&page[limit]=10&page[offset]=20&sort=-id"
    );
}

#[test]
fn limits_render_in_decimal() {
    assert_eq!(Search::new().limit(0).as_str(), "&page[limit]=0");
    assert_eq!(Search::new().offset(7).as_str(), "&page[offset]=7");
    assert_eq!(
        Search::new().limit(u64::MAX).as_str(),
        "&page[limit]=18446744073709551615"
    );
}

#[test]
fn sort_then_filter_keeps_call_order() {
    let s = Search::new().sort("id,-slug").filter("season", "winter");
    assert_eq!(s.as_str(), "&sort=id,-slug&filter[season]=winter");
}

#[test]
fn values_are_not_escaped() {
    let s = Search::new().filter("a&b", "c=d");
    assert_eq!(s.as_str(), "&filter[a&b]=c=d");
}
