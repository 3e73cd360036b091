use std::sync::Arc;

use mania::client::{Client, ClientHandle};
use mania::config::{CacheMode, ClientConfig, FetchGroupMemberStrategy, Protocol};

#[test]
fn default_config() {
    let c = ClientConfig::default();
    assert_eq!(c.protocol, Protocol::Linux);
    assert!(c.auto_reconnect);
    assert!(!c.use_ipv6_network);
    assert!(c.get_optimum_server);
    assert!(c.sign_provider.is_none());
    assert_eq!(c.highway_chuck_size, 1024 * 1024);
    assert_eq!(c.highway_concurrency, 4);
    assert_eq!(c.cache_mode, CacheMode::Half);
    assert_eq!(c.fetch_group_member_strategy, FetchGroupMemberStrategy::Simple);
}

#[test]
fn handles_share_the_business_handle() {
    let business = Arc::new(String::from("business"));
    let context = Arc::new(7u32);
    let client = Client::from_parts(0u8, ClientHandle::new(business.clone(), context.clone()));
    let h1 = client.handle();
    let h2 = client.handle();
    assert!(Arc::ptr_eq(&h1.operator(), &business));
    assert!(Arc::ptr_eq(&h2.operator(), &h1.operator()));
    assert_eq!(*h1.operator(), "business");
}
