use image_server::fetcher::is_image_content_type;
use image_server::fetcher::origin_accepts;
use image_server::fetcher::OriginProbe;
use image_server::orchestrator::dispatch_validation;
use image_server::orchestrator::hit_read_step;
use image_server::orchestrator::FetchUnit;
use image_server::orchestrator::HitStreamAction;
use image_server::orchestrator::ReadOutcome;
use image_server::orchestrator::ValidationStep;
use image_server::response::BodySource;
use image_server::response::Handoff;
use image_server::response::PendingResponse;
use image_server::validator::validate_cache;
use image_server::validator::CacheDecision;
use image_server::validator::CacheProbe;

const TTL_MS: u64 = 21600000;

#[test]
fn fresh_file_is_served_with_length_and_image_type() {
    let d = validate_cache(&CacheProbe::Found { len: 1024, age_ms: Some(1000) }, TTL_MS);
    assert!(matches!(d, CacheDecision::Hit { len: 1024 }));
    match dispatch_validation(&d) {
        ValidationStep::Serve { response } => {
            assert_eq!(response.status, 200);
            assert_eq!(response.content_length, Some(1024));
            assert!(response.image_png_content_type);
            assert!(matches!(response.body, BodySource::CacheFile { len: 1024 }));
        },
        _ => panic!("a fresh file must be served directly"),
    }
}

#[test]
fn stale_file_is_deleted_then_refetched() {
    let d = validate_cache(&CacheProbe::Found { len: 10, age_ms: Some(TTL_MS + 1) }, TTL_MS);
    assert!(matches!(d, CacheDecision::MissExpired));
    assert!(matches!(dispatch_validation(&d), ValidationStep::DeleteThenFetch));
}

#[test]
fn age_equal_to_ttl_is_still_fresh() {
    let d = validate_cache(&CacheProbe::Found { len: 10, age_ms: Some(TTL_MS) }, TTL_MS);
    assert!(matches!(d, CacheDecision::Hit { len: 10 }));
}

#[test]
fn unmeasurable_age_counts_as_fresh() {
    let d = validate_cache(&CacheProbe::Found { len: 10, age_ms: None }, TTL_MS);
    assert!(matches!(d, CacheDecision::Hit { len: 10 }));
}

#[test]
fn missing_file_triggers_a_fetch() {
    let d = validate_cache(&CacheProbe::NotFound, TTL_MS);
    assert!(matches!(d, CacheDecision::MissNotFound));
    assert!(matches!(dispatch_validation(&d), ValidationStep::Fetch));
}

#[test]
fn unreadable_file_fails_immediately_with_500() {
    let d = validate_cache(&CacheProbe::IoError, TTL_MS);
    assert!(matches!(d, CacheDecision::Error));
    match dispatch_validation(&d) {
        ValidationStep::Fail { response } => {
            assert_eq!(response.status, 500);
            assert!(matches!(response.body, BodySource::Empty));
        },
        _ => panic!("an unreadable file must short-circuit"),
    }
}

#[test]
fn image_content_types_are_accepted() {
    assert!(is_image_content_type("image/png"));
    assert!(is_image_content_type("image/jpeg"));
    assert!(is_image_content_type("image/"));
}

#[test]
fn non_image_content_types_are_rejected() {
    assert!(!is_image_content_type("text/html"));
    assert!(!is_image_content_type("image"));
    assert!(!is_image_content_type(""));
    assert!(!is_image_content_type("application/octet-stream"));
}

#[test]
fn origin_probe_acceptance() {
    assert!(origin_accepts(&OriginProbe::ContentType { ct: String::from("image/png") }));
    assert!(!origin_accepts(&OriginProbe::ContentType { ct: String::from("text/html") }));
    assert!(!origin_accepts(&OriginProbe::NoContentType));
    assert!(!origin_accepts(&OriginProbe::Unreachable));
}

#[test]
fn invalid_content_yields_bad_request_and_no_file() {
    let mut u = FetchUnit::new();
    let probe = OriginProbe::ContentType { ct: String::from("text/html") };
    let fired = u.on_origin(&probe).expect("the rejection must be decided at once");
    assert_eq!(fired.status, 400);
    assert_eq!(fired.content_length, None);
    assert!(matches!(fired.body, BodySource::Empty));
}

#[test]
fn unreachable_origin_yields_bad_request() {
    let mut u = FetchUnit::new();
    let fired = u.on_origin(&OriginProbe::Unreachable).expect("the rejection must be decided");
    assert_eq!(fired.status, 400);
    assert!(matches!(fired.body, BodySource::Empty));
}

#[test]
fn accepted_origin_fires_ok_before_the_body_streams() {
    let mut u = FetchUnit::new();
    let probe = OriginProbe::ContentType { ct: String::from("image/png") };
    assert!(u.on_origin(&probe).is_none());
    assert!(u.on_directory_result(true).is_none());
    let fired = u.on_file_result(true).expect("the success response fires before streaming");
    assert_eq!(fired.status, 200);
    assert!(matches!(fired.body, BodySource::LiveStream));
}

#[test]
fn directory_create_failure_yields_internal_error() {
    let mut u = FetchUnit::new();
    let probe = OriginProbe::ContentType { ct: String::from("image/gif") };
    assert!(u.on_origin(&probe).is_none());
    let fired = u.on_directory_result(false).expect("the failure must be decided");
    assert_eq!(fired.status, 500);
    assert!(matches!(fired.body, BodySource::Empty));
}

#[test]
fn file_create_failure_yields_internal_error() {
    let mut u = FetchUnit::new();
    let probe = OriginProbe::ContentType { ct: String::from("image/webp") };
    assert!(u.on_origin(&probe).is_none());
    assert!(u.on_directory_result(true).is_none());
    let fired = u.on_file_result(false).expect("the failure must be decided");
    assert_eq!(fired.status, 500);
    assert!(matches!(fired.body, BodySource::Empty));
}

#[test]
fn handoff_delivers_the_fired_response() {
    let mut h = Handoff::new();
    h.fire(PendingResponse::bad_request());
    let r = h.take();
    assert_eq!(r.status, 400);
    assert!(matches!(r.body, BodySource::Empty));
}

#[test]
fn hit_reader_forwards_stops_and_aborts() {
    assert!(matches!(hit_read_step(&ReadOutcome::Read { n: 512 }), HitStreamAction::Send { n: 512 }));
    assert!(matches!(hit_read_step(&ReadOutcome::Read { n: 0 }), HitStreamAction::Stop));
    assert!(matches!(hit_read_step(&ReadOutcome::ReadError), HitStreamAction::Abort));
}
