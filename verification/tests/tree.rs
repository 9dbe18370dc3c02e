use ts3_status::records::{ChannelRecord, ClientRecord, VOICE_CLIENT};
use ts3_status::tree::{clients_in, ChannelNode, Client};

fn leaf(id: u64, name: &str) -> ChannelNode {
    ChannelNode { id, name: name.to_string(), clients: Vec::new(), children: Vec::new() }
}

fn person(channel_id: u64, client_type: i8, nickname: &str) -> ClientRecord {
    ClientRecord {
        channel_id,
        client_type,
        nickname: nickname.to_string(),
        country: "DE".to_string(),
        input_muted: false,
        output_muted: true,
        away: false,
    }
}

#[test]
fn add_to_parent_appends_under_matching_root() {
    let mut root = leaf(0, "Root");
    root.add_to_parent(0, &leaf(1, "A"));
    root.add_to_parent(0, &leaf(2, "B"));
    assert_eq!(root.children.len(), 2);
    assert_eq!(root.children[0], leaf(1, "A"));
    assert_eq!(root.children[1], leaf(2, "B"));
}

#[test]
fn add_to_parent_finds_nested_parent() {
    let mut root = leaf(0, "Root");
    root.add_to_parent(0, &leaf(1, "A"));
    root.add_to_parent(1, &leaf(2, "B"));
    root.add_to_parent(2, &leaf(3, "C"));
    assert_eq!(root.children.len(), 1);
    assert_eq!(root.children[0].children.len(), 1);
    assert_eq!(root.children[0].children[0].id, 2);
    assert_eq!(root.children[0].children[0].children, vec![leaf(3, "C")]);
}

#[test]
fn add_to_parent_without_parent_changes_nothing() {
    let mut root = leaf(0, "Root");
    root.add_to_parent(0, &leaf(1, "A"));
    let mut expected = leaf(0, "Root");
    expected.children.push(leaf(1, "A"));
    root.add_to_parent(7, &leaf(2, "B"));
    assert_eq!(root, expected);
}

#[test]
fn add_to_parent_copies_the_whole_subtree() {
    let mut branch = leaf(5, "Branch");
    branch.children.push(leaf(6, "Twig"));
    branch.clients.push(Client::from(&person(5, VOICE_CLIENT, "Ann")));
    let mut root = leaf(0, "Root");
    root.add_to_parent(0, &branch);
    assert_eq!(root.children, vec![branch]);
}

#[test]
fn add_to_parent_does_not_search_below_a_match() {
    let mut root = leaf(4, "Outer");
    root.children.push(leaf(4, "Inner"));
    root.add_to_parent(4, &leaf(9, "New"));
    assert_eq!(root.children.len(), 2);
    assert_eq!(root.children[0], leaf(4, "Inner"));
    assert_eq!(root.children[1], leaf(9, "New"));
}

#[test]
fn add_to_parent_serves_every_sibling_with_the_id() {
    let mut root = leaf(0, "Root");
    root.children.push(leaf(4, "First"));
    root.children.push(leaf(5, "Other"));
    root.children.push(leaf(4, "Second"));
    root.add_to_parent(4, &leaf(9, "New"));
    assert_eq!(root.children[0].children, vec![leaf(9, "New")]);
    assert!(root.children[1].children.is_empty());
    assert_eq!(root.children[2].children, vec![leaf(9, "New")]);
}

#[test]
fn client_from_record_keeps_names_and_flags() {
    let record = ClientRecord {
        channel_id: 3,
        client_type: VOICE_CLIENT,
        nickname: "Bob".to_string(),
        country: "FR".to_string(),
        input_muted: true,
        output_muted: false,
        away: true,
    };
    let client = Client::from(&record);
    assert_eq!(
        client,
        Client {
            nickname: "Bob".to_string(),
            country: "FR".to_string(),
            input_muted: true,
            output_muted: false,
            away: true,
        }
    );
}

#[test]
fn clients_in_keeps_voice_clients_of_the_channel_in_order() {
    let clients = vec![
        person(2, VOICE_CLIENT, "Ann"),
        person(3, VOICE_CLIENT, "Bob"),
        person(2, 1, "Bot"),
        person(2, VOICE_CLIENT, "Cid"),
    ];
    let listed = clients_in(&clients, 2);
    let names: Vec<&str> = listed.iter().map(|c| c.nickname.as_str()).collect();
    assert_eq!(names, vec!["Ann", "Cid"]);
    assert!(clients_in(&clients, 4).is_empty());
    assert!(clients_in(&Vec::new(), 2).is_empty());
}

#[test]
fn clients_in_rejects_every_other_client_type() {
    let clients = vec![person(2, 1, "Query"), person(2, -1, "Odd"), person(2, 127, "Far")];
    assert!(clients_in(&clients, 2).is_empty());
}

#[test]
fn record_listed_in_needs_type_and_channel() {
    assert!(person(2, VOICE_CLIENT, "Ann").listed_in(2));
    assert!(!person(2, VOICE_CLIENT, "Ann").listed_in(3));
    assert!(!person(2, 1, "Bot").listed_in(2));
}

#[test]
fn clone_of_a_node_is_equal_to_it() {
    let mut node = leaf(1, "A");
    node.children.push(leaf(2, "B"));
    node.children[0].children.push(leaf(3, "C"));
    node.clients.push(Client::from(&person(1, VOICE_CLIENT, "Ann")));
    let copy = node.clone();
    assert_eq!(copy, node);
}

#[test]
fn default_node_and_client_are_empty() {
    assert_eq!(ChannelNode::default(), leaf(0, ""));
    assert_eq!(
        Client::default(),
        Client {
            nickname: String::new(),
            country: String::new(),
            input_muted: false,
            output_muted: false,
            away: false,
        }
    );
}

#[test]
fn channel_record_holds_its_fields() {
    let record = ChannelRecord { id: 4, parent_id: 2, name: "Lobby".to_string() };
    assert_eq!(record.id, 4);
    assert_eq!(record.parent_id, 2);
    assert_eq!(record.name, "Lobby");
}
