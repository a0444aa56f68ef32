use glance_mind_agent::adapters::multi_platform::{MultiPlatformCommentGateway, MultiPlatformContentGateway};
use glance_mind_agent::domain::entities::SearchOptions;
use glance_mind_agent::domain::errors::GatewayError;

#[test]
fn test_multi_platform_gateway_creation() {
    let gateway: MultiPlatformContentGateway<()> = MultiPlatformContentGateway::new("tiktok");
    assert_eq!(gateway.platform(), "multi");
}

#[test]
fn content_gateway_routes_by_platform_then_default() {
    let gateway = MultiPlatformContentGateway::new("tiktok")
        .add_adapter("tiktok", 1)
        .add_adapter("twitter", 2);
    assert_eq!(*gateway.get_adapter("twitter").unwrap(), 2);
    assert_eq!(*gateway.get_adapter("reddit").unwrap(), 1);
    let options = SearchOptions::new("q").with_platform("twitter");
    assert_eq!(*gateway.adapter_for_search(&options).unwrap(), 2);
    let options = SearchOptions::new("q");
    assert_eq!(*gateway.adapter_for_search(&options).unwrap(), 1);
    assert_eq!(*gateway.adapter_for_current().unwrap(), 1);
    assert_eq!(gateway.current(), "tiktok");
}

#[test]
fn content_gateway_later_registration_wins() {
    let gateway = MultiPlatformContentGateway::new("tiktok")
        .add_adapter("reddit", 1)
        .add_adapter("reddit", 9);
    assert_eq!(*gateway.get_adapter("reddit").unwrap(), 9);
}

#[test]
fn content_gateway_without_adapter_fails() {
    let gateway = MultiPlatformContentGateway::new("tiktok").add_adapter("reddit", 1);
    match gateway.get_adapter("facebook") {
        Err(GatewayError::InvalidParams(m)) => assert_eq!(m, "No adapter for platform: facebook"),
        other => panic!("unexpected {other:?}"),
    }
}

#[test]
fn comment_gateway_follows_current_platform() {
    let mut gateway = MultiPlatformCommentGateway::new("tiktok")
        .add_adapter("tiktok", "tt")
        .add_adapter("twitter", "tw");
    assert_eq!(*gateway.adapter_for_current().unwrap(), "tt");
    gateway.set_platform("twitter");
    assert_eq!(gateway.current(), "twitter");
    assert_eq!(*gateway.adapter_for_current().unwrap(), "tw");
    assert_eq!(gateway.platform(), "multi");
    let empty: MultiPlatformCommentGateway<u8> = MultiPlatformCommentGateway::new("x");
    match empty.get_adapter("y") {
        Err(GatewayError::InvalidParams(m)) => assert_eq!(m, "No comment adapter for platform: y"),
        other => panic!("unexpected {other:?}"),
    }
}
