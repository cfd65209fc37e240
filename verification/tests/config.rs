use surrealmud_portal::config::{PortalConf, SurrealConf, TotalConf};

#[test]
fn default_configuration_is_empty() {
    let c = TotalConf::default();
    assert_eq!(c.surreal, SurrealConf::default());
    assert_eq!(c.portal, PortalConf { telnet: String::new() });
    assert!(!c.surreal.tls);
    let d = c.clone();
    assert_eq!(c, d);
}
