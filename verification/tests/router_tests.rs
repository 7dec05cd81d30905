use docker2fl::error::ConversionError;
use docker2fl::router::{parse_store_spec, parse_store_specs, Router};

#[test]
fn parse_sharded_spec() {
    let rs = parse_store_spec("00-80=dir:///tmp/store").unwrap();
    assert_eq!(rs.low, 0x00);
    assert_eq!(rs.high, 0x80);
    assert_eq!(rs.url, "dir:///tmp/store");
}

#[test]
fn parse_sharded_spec_high_range() {
    let rs = parse_store_spec("81-ff=zdb://host:9900/ns").unwrap();
    assert_eq!(rs.low, 0x81);
    assert_eq!(rs.high, 0xff);
    assert_eq!(rs.url, "zdb://host:9900/ns");
}

#[test]
fn parse_bare_url_gets_full_range() {
    let rs = parse_store_spec("dir:///tmp/store").unwrap();
    assert_eq!(rs.low, 0x00);
    assert_eq!(rs.high, 0xff);
    assert_eq!(rs.url, "dir:///tmp/store");
}

#[test]
fn parse_rejects_non_hex_range() {
    let r = parse_store_spec("zz-xx=store");
    assert_eq!(r.unwrap_err(), ConversionError::InvalidRangeFormat);
}

#[test]
fn parse_rejects_uppercase_hex_range() {
    let r = parse_store_spec("AA-BB=store");
    assert_eq!(r.unwrap_err(), ConversionError::InvalidRangeFormat);
}

#[test]
fn parse_rejects_range_missing_separator() {
    let r = parse_store_spec("aabb=store");
    assert_eq!(r.unwrap_err(), ConversionError::InvalidRangeFormat);
    let r2 = parse_store_spec("00ff=redis://localhost");
    assert_eq!(r2.unwrap_err(), ConversionError::InvalidRangeFormat);
}

#[test]
fn spec_without_url_suffix_is_bare_for_the_factory() {
    // No `=`, so no range token: the grammar reads the whole string as a
    // bare URL; having no scheme, it then fails in the store factory
    // (StoreInitError), so router construction still fails.
    let rs = parse_store_spec("ab-cd").unwrap();
    assert_eq!((rs.low, rs.high), (0x00, 0xff));
    assert_eq!(rs.url, "ab-cd");
}

#[test]
fn bare_url_with_query_equals_stays_bare() {
    let rs = parse_store_spec("zdb://host:9900/ns?password=x").unwrap();
    assert_eq!((rs.low, rs.high), (0x00, 0xff));
    assert_eq!(rs.url, "zdb://host:9900/ns?password=x");
}

#[test]
fn colon_less_spec_is_bare_for_the_factory() {
    let rs = parse_store_spec("localhost").unwrap();
    assert_eq!((rs.low, rs.high), (0x00, 0xff));
    assert_eq!(rs.url, "localhost");
}

#[test]
fn parse_rejects_sharded_spec_with_empty_url() {
    let r = parse_store_spec("ab-cd=");
    assert_eq!(r.unwrap_err(), ConversionError::InvalidRangeFormat);
}

#[test]
fn parse_spec_list_keeps_order() {
    let specs = vec![
        String::from("00-7f=dir:///a"),
        String::from("80-ff=dir:///b"),
        String::from("dir:///c"),
    ];
    let parsed = parse_store_specs(&specs).unwrap();
    assert_eq!(parsed.len(), 3);
    assert_eq!((parsed[0].low, parsed[0].high), (0x00, 0x7f));
    assert_eq!((parsed[1].low, parsed[1].high), (0x80, 0xff));
    assert_eq!((parsed[2].low, parsed[2].high), (0x00, 0xff));
    assert_eq!(parsed[2].url, "dir:///c");
}

#[test]
fn parse_spec_list_rejects_any_malformed_entry() {
    let specs = vec![String::from("dir:///a"), String::from("gg-00=dir:///b")];
    let r = parse_store_specs(&specs);
    assert_eq!(r.unwrap_err(), ConversionError::InvalidRangeFormat);
}

#[test]
fn route_returns_first_matching_range() {
    let mut router: Router<u32> = Router::new();
    router.add(0x00, 0x7f, 1);
    router.add(0x00, 0xff, 2);
    assert_eq!(*router.route(0x10).unwrap(), 1);
    assert_eq!(*router.route(0x7f).unwrap(), 1);
    assert_eq!(*router.route(0x80).unwrap(), 2);
    assert_eq!(*router.route(0xff).unwrap(), 2);
}

#[test]
fn route_shadowed_range_never_wins() {
    let mut router: Router<&str> = Router::new();
    router.add(0x00, 0xff, "first");
    router.add(0x40, 0x80, "shadowed");
    for b in 0u16..=0xff {
        assert_eq!(*router.route(b as u8).unwrap(), "first");
    }
}

#[test]
fn bare_url_router_resolves_every_byte() {
    let specs = vec![String::from("dir:///tmp/store")];
    let parsed = parse_store_specs(&specs).unwrap();
    let stores = vec![String::from("the-store")];
    let router = Router::from_parts(&parsed, stores);
    for b in 0u16..=0xff {
        assert_eq!(*router.route(b as u8).unwrap(), "the-store");
    }
}

#[test]
fn sharded_router_splits_byte_space() {
    let specs = vec![String::from("00-7f=dir:///a"), String::from("80-ff=dir:///b")];
    let parsed = parse_store_specs(&specs).unwrap();
    let router = Router::from_parts(&parsed, vec!["a", "b"]);
    assert_eq!(*router.route(0x00).unwrap(), "a");
    assert_eq!(*router.route(0x7f).unwrap(), "a");
    assert_eq!(*router.route(0x80).unwrap(), "b");
    assert_eq!(*router.route(0xff).unwrap(), "b");
}

#[test]
fn route_without_matching_range_fails() {
    let mut router: Router<u32> = Router::new();
    router.add(0x10, 0x20, 7);
    assert_eq!(router.route(0x05).unwrap_err(), ConversionError::RouteNotFound);
    assert_eq!(router.route(0x21).unwrap_err(), ConversionError::RouteNotFound);
    assert_eq!(*router.route(0x15).unwrap(), 7);
}

#[test]
fn route_on_empty_router_fails() {
    let router: Router<u32> = Router::new();
    assert_eq!(router.route(0x00).unwrap_err(), ConversionError::RouteNotFound);
}

#[test]
fn inverted_range_matches_nothing() {
    let rs = parse_store_spec("ff-00=dir:///x").unwrap();
    assert_eq!((rs.low, rs.high), (0xff, 0x00));
    let mut router: Router<u32> = Router::new();
    router.add(rs.low, rs.high, 1);
    assert_eq!(router.route(0x50).unwrap_err(), ConversionError::RouteNotFound);
}
