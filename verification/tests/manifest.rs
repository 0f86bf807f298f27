use rrddmma::cluster::{Cluster, Ipv4};
use rrddmma::manifest::{
    manifest_peers, parse_all, read_empty_elements, read_toml_peer_texts, ManifestError, XmlAttr,
    XmlElement,
};

fn ip(a: u8, b: u8, c: u8, d: u8) -> Ipv4 {
    Ipv4::new(a, b, c, d)
}

fn attr(k: &str, v: &str) -> Option<XmlAttr> {
    Some(XmlAttr { key: k.as_bytes().to_vec(), value: v.as_bytes().to_vec() })
}

fn elem(name: &str, attrs: Vec<Option<XmlAttr>>) -> XmlElement {
    XmlElement { name: name.as_bytes().to_vec(), attrs }
}

const CLOUDLAB: &str = r#"<?xml version="1.0" encoding="UTF-8"?>
<rspec xmlns="http://www.geni.net/resources/rspec/3" type="manifest">
  <node client_id="node-0" exclusive="true">
    <interface client_id="node-0:if0">
      <ip address="10.10.1.1" netmask="255.255.255.0" type="ipv4"/>
    </interface>
    <host name="node-0.example.net" ipv4="128.110.219.1"/>
  </node>
  <node client_id="node-1" exclusive="true">
    <interface client_id="node-1:if0">
      <ip type="ipv4" address="10.10.1.2" netmask="255.255.255.0"/>
    </interface>
  </node>
</rspec>
"#;

#[test]
fn cloudlab_manifest_lists_ip_tags_in_order() {
    let elements = read_empty_elements(CLOUDLAB).unwrap();
    assert_eq!(elements.len(), 3);
    assert_eq!(manifest_peers(&elements), Some(vec![ip(10, 10, 1, 1), ip(10, 10, 1, 2)]));
}

#[test]
fn cloudlab_manifest_makes_cluster() {
    let local = [ip(10, 10, 1, 2)];
    let c = Cluster::from_cloudlab_xml(CLOUDLAB, &local).unwrap();
    assert_eq!(c.id(), 1);
    assert_eq!(c.peers(), &vec![ip(10, 10, 1, 1), ip(10, 10, 1, 2)]);
}

#[test]
fn cloudlab_manifest_without_this_machine() {
    let local = [ip(10, 10, 1, 9)];
    assert_eq!(Cluster::from_cloudlab_xml(CLOUDLAB, &local).err(), Some(ManifestError::NotInCluster));
}

#[test]
fn cloudlab_manifest_ill_formed_xml() {
    let text = "<rspec><node><ip address=\"10.0.0.1\"/></rspec>";
    assert_eq!(read_empty_elements(text).err(), Some(ManifestError::Syntax));
    let local = [ip(10, 0, 0, 1)];
    assert_eq!(Cluster::from_cloudlab_xml(text, &local).err(), Some(ManifestError::Syntax));
}

#[test]
fn cloudlab_manifest_ip_tag_without_address() {
    let text = "<rspec><ip netmask=\"255.0.0.0\"/></rspec>";
    let local = [ip(10, 0, 0, 1)];
    assert_eq!(Cluster::from_cloudlab_xml(text, &local).err(), Some(ManifestError::Malformed));
}

#[test]
fn manifest_peers_from_elements() {
    let elements = vec![
        elem("host", vec![attr("address", "1.1.1.1")]),
        elem("ip", vec![attr("type", "ipv4"), attr("address", "10.0.0.7")]),
        elem("ip", vec![attr("address", "10.0.0.8"), attr("address", "10.0.0.9")]),
    ];
    assert_eq!(manifest_peers(&elements), Some(vec![ip(10, 0, 0, 7), ip(10, 0, 0, 8)]));
    assert_eq!(manifest_peers(&[]), Some(vec![]));
}

#[test]
fn manifest_peers_refuses_bad_ip_tags() {
    let broken_first = vec![elem("ip", vec![None, attr("address", "10.0.0.7")])];
    assert_eq!(manifest_peers(&broken_first), None);
    let missing = vec![elem("ip", vec![attr("netmask", "255.0.0.0")])];
    assert_eq!(manifest_peers(&missing), None);
    let not_ip = vec![elem("ip", vec![attr("address", "host.example.net")])];
    assert_eq!(manifest_peers(&not_ip), None);
    let broken_after = vec![elem("ip", vec![attr("address", "10.0.0.7"), None])];
    assert_eq!(manifest_peers(&broken_after), Some(vec![ip(10, 0, 0, 7)]));
}

#[test]
fn cluster_from_manifest_elements_errors() {
    let local = [ip(10, 0, 0, 7)];
    let bad = vec![elem("ip", vec![])];
    assert_eq!(Cluster::from_manifest_elements(&bad, &local).err(), Some(ManifestError::Malformed));
    let good = vec![elem("ip", vec![attr("address", "10.0.0.7")])];
    let c = Cluster::from_manifest_elements(&good, &local).unwrap();
    assert_eq!(c.id(), 0);
}

#[test]
fn toml_manifest_makes_cluster() {
    let text = "peers = [\"10.0.0.1\", \"10.0.0.2\", \"10.0.0.3\"]\n";
    let local = [ip(10, 0, 0, 3)];
    let c = Cluster::from_toml(text, &local).unwrap();
    assert_eq!(c.id(), 2);
    assert_eq!(c.size(), 3);
}

#[test]
fn toml_manifest_errors() {
    let local = [ip(10, 0, 0, 1)];
    assert_eq!(Cluster::from_toml("peers = [", &local).err(), Some(ManifestError::Syntax));
    assert_eq!(Cluster::from_toml("hosts = []", &local).err(), Some(ManifestError::Malformed));
    assert_eq!(Cluster::from_toml("peers = 3", &local).err(), Some(ManifestError::Malformed));
    assert_eq!(Cluster::from_toml("peers = [1, 2]", &local).err(), Some(ManifestError::Malformed));
    assert_eq!(Cluster::from_toml("peers = [\"10.0.0.300\"]", &local).err(), Some(ManifestError::Malformed));
    assert_eq!(Cluster::from_toml("peers = [\"10.0.0.2\"]", &local).err(), Some(ManifestError::NotInCluster));
}

#[test]
fn toml_peer_texts_read_in_order() {
    let texts = read_toml_peer_texts("peers = [\"a\", 1, \"10.0.0.2\"]").unwrap();
    assert_eq!(texts, vec![Some(b"a".to_vec()), None, Some(b"10.0.0.2".to_vec())]);
}

#[test]
fn parse_all_needs_every_text() {
    let ok = vec![Some(b"1.2.3.4".to_vec()), Some(b"5.6.7.8".to_vec())];
    assert_eq!(parse_all(&ok), Some(vec![ip(1, 2, 3, 4), ip(5, 6, 7, 8)]));
    let missing = vec![Some(b"1.2.3.4".to_vec()), None];
    assert_eq!(parse_all(&missing), None);
    let bad = vec![Some(b"1.2.3.4.5".to_vec())];
    assert_eq!(parse_all(&bad), None);
}

#[test]
fn cloudlab_manifest_ignores_non_empty_ip_elements() {
    let text = "<rspec><ip address=\"10.0.0.7\">x</ip><ip address=\"10.0.0.1\"/><ip address=\"10.0.0.2\"/></rspec>";
    let local = [ip(10, 0, 0, 2), ip(10, 0, 0, 1)];
    let c = Cluster::from_cloudlab_xml(text, &local).unwrap();
    assert_eq!(c.peers(), &vec![ip(10, 0, 0, 1), ip(10, 0, 0, 2)]);
    assert_eq!(c.id(), 0);
}
