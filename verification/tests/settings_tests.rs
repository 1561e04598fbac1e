use image_server::keys::cache_relative_path;
use image_server::keys::origin_url;
use image_server::settings::parse_u64;
use image_server::settings::Settings;
use image_server::settings::DEFAULT_LOCAL_CACHE_TTL_MS;

#[test]
fn parse_plain_number() {
    assert_eq!(parse_u64("12345"), Some(12345));
}

#[test]
fn parse_zero() {
    assert_eq!(parse_u64("0"), Some(0));
}

#[test]
fn parse_leading_plus() {
    assert_eq!(parse_u64("+500"), Some(500));
}

#[test]
fn parse_empty_is_none() {
    assert_eq!(parse_u64(""), None);
    assert_eq!(parse_u64("+"), None);
}

#[test]
fn parse_non_digit_is_none() {
    assert_eq!(parse_u64("abc"), None);
    assert_eq!(parse_u64("12x4"), None);
    assert_eq!(parse_u64("-5"), None);
    assert_eq!(parse_u64(" 7"), None);
}

#[test]
fn parse_u64_max_boundary() {
    assert_eq!(parse_u64("18446744073709551615"), Some(u64::MAX));
    assert_eq!(parse_u64("18446744073709551616"), None);
}

#[test]
fn parse_leading_zeros() {
    assert_eq!(parse_u64("0021600000"), Some(21600000));
}

#[test]
fn settings_defaults() {
    let s = Settings::from_values(None, None);
    assert_eq!(
        s.image_host_base_url(),
        "https://raw.githubusercontent.com/Poke-cord/images/main/"
    );
    assert_eq!(s.local_cache_ttl(), 21600000);
    assert_eq!(s.local_cache_ttl(), DEFAULT_LOCAL_CACHE_TTL_MS);
}

#[test]
fn settings_overrides() {
    let s = Settings::from_values(
        Some(String::from("http://localhost:8080/images")),
        Some(String::from("1000")),
    );
    assert_eq!(s.image_host_base_url(), "http://localhost:8080/images");
    assert_eq!(s.local_cache_ttl(), 1000);
}

#[test]
fn settings_unparsable_ttl_falls_back_to_default() {
    let s = Settings::from_values(None, Some(String::from("six hours")));
    assert_eq!(s.local_cache_ttl(), DEFAULT_LOCAL_CACHE_TTL_MS);
}

#[test]
fn relative_path_joins_with_slash() {
    let p = cache_relative_path("pokemon", "pikachu.png");
    assert_eq!(p, "pokemon/pikachu.png");
}

#[test]
fn origin_url_appends_path_to_base() {
    let p = cache_relative_path("pokemon", "pikachu.png");
    let u = origin_url("https://example.test/images", p.as_str());
    assert_eq!(u, "https://example.test/images/pokemon/pikachu.png");
}
