use app_forge_kit::grpc_client::{ChannelProviderFromConfig, Config, Metadata, Provider};
use app_forge_kit::http_client::url_path::Location;

fn pairs(items: &[(&str, &str)]) -> Vec<(String, String)> {
    items.iter().map(|(k, v)| (k.to_string(), v.to_string())).collect()
}

#[test]
fn no_metadata_leaves_request() {
    let mut m = Metadata(None);
    let r = m.call(tonic::Request::new(())).unwrap();
    assert!(r.metadata().is_empty());
    let mut m = Metadata(Some(Vec::new()));
    let r = m.call(tonic::Request::new(())).unwrap();
    assert!(r.metadata().is_empty());
}

#[test]
fn metadata_is_added_unless_present() {
    let mut request = tonic::Request::new(());
    request.metadata_mut().insert("x-keep", "mine".parse().unwrap());
    let mut m = Metadata(Some(pairs(&[("x-keep", "theirs"), ("X-New", "v")])));
    let r = m.call(request).unwrap();
    assert_eq!(r.metadata().get("x-keep").unwrap(), "mine");
    assert_eq!(r.metadata().get("x-new").unwrap(), "v");
    assert_eq!(r.metadata().len(), 2);
}

#[test]
fn invalid_metadata_is_an_internal_status() {
    let mut m = Metadata(Some(pairs(&[("bad key", "v")])));
    let status = m.call(tonic::Request::new(())).unwrap_err();
    assert_eq!(status.code(), tonic::Code::Internal);

    let mut m = Metadata(Some(pairs(&[("trace-BIN", "v")])));
    assert_eq!(m.call(tonic::Request::new(())).unwrap_err().code(), tonic::Code::Internal);

    let mut m = Metadata(Some(pairs(&[("x-ok", "bad\nvalue")])));
    assert_eq!(m.call(tonic::Request::new(())).unwrap_err().code(), tonic::Code::Internal);
}

#[test]
fn present_keys_are_not_parsed() {
    let mut request = tonic::Request::new(());
    request.metadata_mut().insert("x-set", "1".parse().unwrap());
    let mut m = Metadata(Some(pairs(&[("x-set", "bad\nvalue")])));
    let r = m.call(request).unwrap();
    assert_eq!(r.metadata().get("x-set").unwrap(), "1");
}

#[test]
fn try_call_within_limit() {
    let mut m = Metadata(Some(pairs(&[("x-a", "1")])));
    let r = m.try_call(tonic::Request::new(())).unwrap().unwrap();
    assert_eq!(r.metadata().get("x-a").unwrap(), "1");
}

fn config(url: &str, metadata: Option<Vec<(String, String)>>) -> Config {
    Config { destination: Location::parse(url).unwrap(), metadata }
}

#[test]
fn providers_from_configs_keep_names_and_order() {
    let configs = vec![
        ("echo".to_string(), config("http://echo.test:50051", None)),
        ("other".to_string(), config("http://other.test:1", Some(pairs(&[("k", "v")])))),
    ];
    let providers = configs.channel_provider_from_config();
    assert_eq!(providers.len(), 2);
    assert_eq!(providers[0].0, "echo");
    assert_eq!(providers[0].1.config.destination.as_str(), "http://echo.test:50051");
    assert_eq!(providers[1].0, "other");
    assert_eq!(providers[1].1.config.metadata, Some(pairs(&[("k", "v")])));
}

#[test]
fn provider_copies_config() {
    let c = config("http://echo.test", Some(pairs(&[("a", "b")])));
    let p = Provider::new(&c);
    assert_eq!(p.config.destination.as_str(), c.destination.as_str());
    assert_eq!(p.config.metadata, c.metadata);
    let p = c.channel_provider_from_config();
    assert_eq!(p.config.destination.as_str(), "http://echo.test");
}

#[test]
fn keys_present_in_any_case_or_encoding_are_passed_over() {
    let mut request = tonic::Request::new(());
    request.metadata_mut().insert_bin("trace-bin", tonic::metadata::MetadataValue::from_bytes(b"\x00\x01"));
    request.metadata_mut().insert("x-keep", "1".parse().unwrap());
    let mut m = Metadata(Some(pairs(&[("trace-bin", "text"), ("X-Keep", "2"), ("x-add", "3")])));
    let r = m.call(request).unwrap();
    assert_eq!(r.metadata().get("x-keep").unwrap(), "1");
    assert_eq!(r.metadata().get("x-add").unwrap(), "3");
    assert_eq!(r.metadata().len(), 3);
}

#[test]
fn first_bad_entry_stops_even_after_good_ones() {
    let mut m = Metadata(Some(pairs(&[("x-good", "1"), ("x-bad", "a\rb"), ("x-later", "2")])));
    let status = m.call(tonic::Request::new(())).unwrap_err();
    assert_eq!(status.code(), tonic::Code::Internal);
}

#[test]
fn single_entry_gives_one_value() {
    let mut m = Metadata(Some(pairs(&[("x-tenant", "acme")])));
    let r = m.call(tonic::Request::new(())).unwrap();
    assert_eq!(r.metadata().get("x-tenant").unwrap(), "acme");
    assert_eq!(r.metadata().len(), 1);
}

#[test]
fn present_value_wins_and_is_not_duplicated() {
    let mut request = tonic::Request::new(());
    request.metadata_mut().insert("x-tenant", "orig".parse().unwrap());
    let mut m = Metadata(Some(pairs(&[("x-tenant", "acme"), ("x-b", "2")])));
    let r = m.call(request).unwrap();
    assert_eq!(r.metadata().get("x-tenant").unwrap(), "orig");
    assert_eq!(r.metadata().get_all("x-tenant").iter().count(), 1);
    assert_eq!(r.metadata().get("x-b").unwrap(), "2");
    assert_eq!(r.metadata().len(), 2);
}

#[test]
fn refused_entries_give_internal_through_try_call() {
    let mut m = Metadata(Some(pairs(&[("x-a", "a\nb")])));
    let status = m.try_call(tonic::Request::new(())).unwrap().unwrap_err();
    assert_eq!(status.code(), tonic::Code::Internal);
}

#[test]
fn refusals_say_what_was_refused() {
    let mut m = Metadata(Some(pairs(&[("x-ok", "1"), ("bad key", "v"), ("x-b", "a\nb")])));
    assert_eq!(m.call(tonic::Request::new(())).unwrap_err().message(), "invalid gRPC metadata key name");
    let mut m = Metadata(Some(pairs(&[("x-b", "a\nb"), ("bad key", "v")])));
    assert_eq!(m.call(tonic::Request::new(())).unwrap_err().message(), "failed to parse metadata value");
}
