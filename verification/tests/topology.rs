use mixnet_core::addressing::AddressEncodingError;
use mixnet_core::addressing::ROUTING_ADDRESS_LENGTH;
use mixnet_core::addressing::SocketAddress;
use mixnet_core::addressing::SocketAddressV4;
use mixnet_core::addressing::SocketAddressV6;
use mixnet_core::addressing::decode_routing_address;
use mixnet_core::addressing::encode_routing_address;
use mixnet_core::gateway::Client;
use mixnet_core::gateway::TopologyNode;

fn example_node(mixnet_listener: SocketAddress, clients: Vec<Client>) -> TopologyNode {
    TopologyNode {
        location: String::from("exampletown"),
        client_listener: String::from("ws://127.0.0.1:9000"),
        mixnet_listener,
        identity_key: [7u8; 32],
        sphinx_key: [9u8; 32],
        registered_clients: clients,
        last_seen: 1_620_000_000,
        version: String::from("0.8.1"),
    }
}

fn v4_example() -> SocketAddress {
    SocketAddress::V4(SocketAddressV4 {
        octets: [203, 0, 113, 7],
        port: 1789,
    })
}

fn v6_example() -> SocketAddress {
    SocketAddress::V6(SocketAddressV6 {
        octets: [
            0x20, 0x01, 0x0d, 0xb8, 0, 0, 0, 0, 0, 0, 0, 0, 0, 0, 0x00, 0x42,
        ],
        port: 1789,
    })
}

#[test]
fn encoded_v4_address_has_the_documented_layout() {
    let encoded = encode_routing_address(&v4_example()).unwrap();
    assert_eq!(encoded.len(), ROUTING_ADDRESS_LENGTH);
    // Tag byte, the four octets, the port big-endian (1789 = 6 * 256 + 253),
    // then zero padding.
    let mut expected = vec![4u8, 203, 0, 113, 7, 6, 253];
    expected.resize(ROUTING_ADDRESS_LENGTH, 0u8);
    assert_eq!(encoded, expected);
}

#[test]
fn encoded_v6_address_has_the_documented_layout() {
    let encoded = encode_routing_address(&v6_example()).unwrap();
    assert_eq!(encoded.len(), ROUTING_ADDRESS_LENGTH);
    let mut expected = vec![
        6u8, 0x20, 0x01, 0x0d, 0xb8, 0, 0, 0, 0, 0, 0, 0, 0, 0, 0, 0x00, 0x42, 6, 253,
    ];
    expected.resize(ROUTING_ADDRESS_LENGTH, 0u8);
    assert_eq!(encoded, expected);
}

#[test]
fn v4_address_round_trips_through_the_wire_format() {
    let a = v4_example();
    let encoded = encode_routing_address(&a).unwrap();
    assert_eq!(decode_routing_address(&encoded), Ok(a));
}

#[test]
fn v6_address_round_trips_through_the_wire_format() {
    let a = v6_example();
    let encoded = encode_routing_address(&a).unwrap();
    assert_eq!(decode_routing_address(&encoded), Ok(a));
}

#[test]
fn malformed_routing_addresses_are_rejected() {
    // Wrong length.
    assert_eq!(
        decode_routing_address(&vec![4u8; 31]),
        Err(AddressEncodingError)
    );
    // Unknown family tag.
    let mut bad_tag = vec![0u8; ROUTING_ADDRESS_LENGTH];
    bad_tag[0] = 5;
    assert_eq!(decode_routing_address(&bad_tag), Err(AddressEncodingError));
    // Nonzero padding after an otherwise valid IPv4 encoding.
    let mut bad_padding = encode_routing_address(&v4_example()).unwrap();
    bad_padding[31] = 1;
    assert_eq!(
        decode_routing_address(&bad_padding),
        Err(AddressEncodingError)
    );
}

#[test]
fn projection_carries_the_encoded_listener_and_the_sphinx_key() {
    let node = example_node(v4_example(), Vec::new());
    let routing = node.to_routing_node().unwrap();
    let expected = encode_routing_address(&v4_example()).unwrap();
    assert_eq!(routing.address.to_bytes().to_vec(), expected);
    assert_eq!(*routing.pub_key.as_bytes(), [9u8; 32]);
}

#[test]
fn projection_of_a_v6_listener_round_trips() {
    let node = example_node(v6_example(), Vec::new());
    let routing = node.to_routing_node().unwrap();
    let carried = routing.address.to_bytes().to_vec();
    assert_eq!(decode_routing_address(&carried), Ok(v6_example()));
}

#[test]
fn has_client_matches_byte_identical_keys_only() {
    let clients = vec![
        Client {
            pub_key: String::from("alpha"),
        },
        Client {
            pub_key: String::from("BRAVO"),
        },
    ];
    let node = example_node(v4_example(), clients);
    assert!(node.has_client(String::from("alpha")));
    assert!(node.has_client(String::from("BRAVO")));
    // Case-sensitive: a differently-cased key is a different key.
    assert!(!node.has_client(String::from("bravo")));
    assert!(!node.has_client(String::from("charlie")));
}

#[test]
fn has_client_is_false_on_an_empty_registration_list() {
    let node = example_node(v4_example(), Vec::new());
    assert!(!node.has_client(String::from("alpha")));
}

#[test]
fn version_returns_the_advertised_string() {
    let node = example_node(v4_example(), Vec::new());
    assert_eq!(node.version(), String::from("0.8.1"));
}
