use findip_lib::types::IpAddress;

#[test]
fn an_address_is_its_text() {
    let ip = IpAddress::new("2001:db8::1".to_string());
    assert_eq!(ip.as_str(), "2001:db8::1");
    assert_eq!(ip.to_string(), "2001:db8::1");
    assert_eq!(ip.clone(), ip);
}

#[test]
fn addresses_are_the_same_when_their_texts_are() {
    assert!(IpAddress::new("1.2.3.4".to_string()) == IpAddress::new("1.2.3.4".to_string()));
    assert!(IpAddress::new("1.2.3.4".to_string()) != IpAddress::new("1.2.3.5".to_string()));
    assert!(IpAddress::new("1.2.3.4".to_string()) != IpAddress::new("1.2.3.4\n".to_string()));
}
