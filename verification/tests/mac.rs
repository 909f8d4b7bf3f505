use oz::mac::{mac_from_bytes, random_mac, mac_from_ip_output, record_mac};

fn hex_value(c: u8) -> u8 {
    match c {
        b'0'..=b'9' => c - b'0',
        b'a'..=b'f' => c - b'a' + 10,
        _ => panic!("not a lower-case hex digit: {}", c as char),
    }
}

#[test]
fn mac_from_bytes_formats_and_marks_local_unicast() {
    assert_eq!(mac_from_bytes([0x00, 0x11, 0x22, 0xaa, 0xbb, 0xff]), "02:11:22:aa:bb:ff");
    assert_eq!(mac_from_bytes([0xff, 0xff, 0xff, 0xff, 0xff, 0xff]), "fe:ff:ff:ff:ff:ff");
    assert_eq!(mac_from_bytes([0x01, 0x0a, 0xb0, 0x00, 0x09, 0x10]), "02:0a:b0:00:09:10");
}

#[test]
fn random_mac_is_local_unicast() {
    for _ in 0..50 {
        let mac = random_mac().expect("the test machine has entropy");
        assert_eq!(mac.len(), 17);
        let bytes = mac.as_bytes();
        for (i, b) in bytes.iter().enumerate() {
            if i % 3 == 2 {
                assert_eq!(*b, b':');
            } else {
                hex_value(*b);
            }
        }
        let first = hex_value(bytes[0]) * 16 + hex_value(bytes[1]);
        assert_eq!(first & 0x01, 0);
        assert_eq!(first & 0x02, 0x02);
    }
}

#[test]
fn mac_is_read_from_ip_addr_output() {
    let output = "2: eth0@if12: <BROADCAST,MULTICAST,UP,LOWER_UP> mtu 1500 qdisc noqueue state UP group default qlen 1000\r\n    link/ether 6a:1f:02:9c:4e:b3 brd ff:ff:ff:ff:ff:ff link-netnsid 0\r\n    inet 192.0.0.6/24 scope global eth0\r\n";
    assert_eq!(mac_from_ip_output(output), Some("6a:1f:02:9c:4e:b3".to_string()));
    assert_eq!(mac_from_ip_output("Device \"eth0\" does not exist."), None);
    assert_eq!(mac_from_ip_output("link/ether 6a:1f"), None);
}

#[test]
fn record_mac_keeps_found_addresses() {
    let mut nodes = vec!["aa".to_string()];
    record_mac(&mut nodes, Some("bb".to_string()));
    record_mac(&mut nodes, None);
    assert_eq!(nodes, vec!["aa".to_string(), "bb".to_string()]);
}
