use ts3_status::metadata::Metadata;
use ts3_status::records::{ChannelRecord, ClientRecord, VOICE_CLIENT};
use ts3_status::summary::{
    channel_tree, summarize, ServerInfo, NAME_KEY, PLATFORM_KEY, VERSION_KEY,
};
use ts3_status::tree::ChannelNode;

fn channel(id: u64, parent_id: u64, name: &str) -> ChannelRecord {
    ChannelRecord { id, parent_id, name: name.to_string() }
}

fn person(channel_id: u64, client_type: i8, nickname: &str) -> ClientRecord {
    ClientRecord {
        channel_id,
        client_type,
        nickname: nickname.to_string(),
        country: "DE".to_string(),
        input_muted: false,
        output_muted: false,
        away: false,
    }
}

fn metadata() -> Metadata {
    let mut metadata = Metadata::new();
    metadata.insert(NAME_KEY.to_string(), Some("Home".to_string()));
    metadata.insert(VERSION_KEY.to_string(), Some("3.13.7".to_string()));
    metadata.insert(PLATFORM_KEY.to_string(), Some("Linux".to_string()));
    metadata
}

fn ids(nodes: &[ChannelNode]) -> Vec<u64> {
    nodes.iter().map(|n| n.id).collect()
}

fn holds(nodes: &[ChannelNode], id: u64) -> bool {
    nodes.iter().any(|n| n.id == id || holds(&n.children, id))
}

fn non_voice_anywhere(nodes: &[ChannelNode], nickname: &str) -> bool {
    nodes
        .iter()
        .any(|n| n.clients.iter().any(|c| c.nickname == nickname) || non_voice_anywhere(&n.children, nickname))
}

#[test]
fn tree_of_three_channels_and_one_client() {
    let channels = vec![channel(1, 0, "A"), channel(2, 1, "B"), channel(3, 0, "C")];
    let clients = vec![person(2, VOICE_CLIENT, "Bob")];
    let info = channel_tree(&metadata(), channels, clients);
    assert_eq!(info.channels.len(), 2);
    let a = &info.channels[0];
    assert_eq!(a.id, 1);
    assert_eq!(a.name, "A");
    assert!(a.clients.is_empty());
    assert_eq!(a.children.len(), 1);
    let b = &a.children[0];
    assert_eq!(b.id, 2);
    assert_eq!(b.name, "B");
    assert!(b.children.is_empty());
    assert_eq!(b.clients.len(), 1);
    assert_eq!(b.clients[0].nickname, "Bob");
    assert_eq!(b.clients[0].country, "DE");
    let c = &info.channels[1];
    assert_eq!(c.id, 3);
    assert_eq!(c.name, "C");
    assert!(c.children.is_empty());
    assert!(c.clients.is_empty());
}

#[test]
fn summary_takes_its_texts_from_the_metadata() {
    let info = channel_tree(&metadata(), Vec::new(), Vec::new());
    assert_eq!(info.name, "Home");
    assert_eq!(info.version, "3.13.7");
    assert_eq!(info.platform, "Linux");
    assert!(info.channels.is_empty());
}

#[test]
fn summary_text_of_a_key_without_value_is_empty() {
    let mut metadata = metadata();
    metadata.insert(VERSION_KEY.to_string(), None);
    let info = channel_tree(&metadata, Vec::new(), Vec::new());
    assert_eq!(info.name, "Home");
    assert_eq!(info.version, "");
    assert_eq!(info.platform, "Linux");
}

#[test]
fn non_voice_client_never_shows_up() {
    let channels = vec![channel(1, 0, "A"), channel(2, 1, "B")];
    let clients = vec![
        person(1, 1, "Query"),
        person(2, 1, "Query"),
        person(2, VOICE_CLIENT, "Bob"),
        person(0, 1, "Query"),
    ];
    let info = channel_tree(&metadata(), channels, clients);
    assert!(!non_voice_anywhere(&info.channels, "Query"));
    assert_eq!(info.channels[0].children[0].clients.len(), 1);
    assert_eq!(info.channels[0].children[0].clients[0].nickname, "Bob");
}

#[test]
fn dropping_non_voice_clients_changes_nothing() {
    let channels = || vec![channel(1, 0, "A"), channel(2, 1, "B"), channel(3, 0, "C")];
    let all = vec![
        person(1, VOICE_CLIENT, "Ann"),
        person(1, 1, "Bot"),
        person(3, 2, "Odd"),
        person(2, VOICE_CLIENT, "Bob"),
    ];
    let voice = vec![person(1, VOICE_CLIENT, "Ann"), person(2, VOICE_CLIENT, "Bob")];
    assert_eq!(
        channel_tree(&metadata(), channels(), all),
        channel_tree(&metadata(), channels(), voice)
    );
}

#[test]
fn client_is_attached_by_exact_channel_only() {
    let channels = vec![channel(1, 0, "A"), channel(2, 1, "B")];
    let clients = vec![person(1, VOICE_CLIENT, "Ann")];
    let info = channel_tree(&metadata(), channels, clients);
    assert_eq!(info.channels[0].clients.len(), 1);
    assert!(info.channels[0].children[0].clients.is_empty());
}

#[test]
fn clients_keep_the_order_of_the_list() {
    let channels = vec![channel(1, 0, "A")];
    let clients = vec![
        person(1, VOICE_CLIENT, "Zoe"),
        person(1, VOICE_CLIENT, "Ann"),
        person(1, VOICE_CLIENT, "Moe"),
    ];
    let info = channel_tree(&metadata(), channels, clients);
    let names: Vec<&str> = info.channels[0].clients.iter().map(|c| c.nickname.as_str()).collect();
    assert_eq!(names, vec!["Zoe", "Ann", "Moe"]);
}

#[test]
fn channel_before_its_parent_is_dropped() {
    let channels = vec![channel(2, 1, "B"), channel(1, 0, "A"), channel(3, 0, "C")];
    let info = channel_tree(&metadata(), channels, Vec::new());
    assert_eq!(ids(&info.channels), vec![1, 3]);
    assert!(info.channels[0].children.is_empty());
    assert!(!holds(&info.channels, 2));
}

#[test]
fn channel_with_unknown_parent_is_dropped_with_its_descendants() {
    let channels =
        vec![channel(1, 0, "A"), channel(5, 9, "Lost"), channel(6, 5, "Below"), channel(3, 1, "C")];
    let info = channel_tree(&metadata(), channels, vec![person(5, VOICE_CLIENT, "Ann")]);
    assert_eq!(ids(&info.channels), vec![1]);
    assert_eq!(ids(&info.channels[0].children), vec![3]);
    assert!(!holds(&info.channels, 5));
    assert!(!holds(&info.channels, 6));
}

#[test]
fn dropped_channel_leaves_the_tree_of_the_other_records() {
    let with = vec![channel(1, 0, "A"), channel(5, 9, "Lost"), channel(3, 1, "C")];
    let without = vec![channel(1, 0, "A"), channel(3, 1, "C")];
    assert_eq!(
        channel_tree(&metadata(), with, Vec::new()),
        channel_tree(&metadata(), without, Vec::new())
    );
}

#[test]
fn root_takes_no_clients() {
    let channels = vec![channel(1, 0, "A")];
    let clients = vec![person(0, VOICE_CLIENT, "Ghost")];
    let info = channel_tree(&metadata(), channels, clients);
    assert_eq!(info.channels.len(), 1);
    assert!(info.channels[0].clients.is_empty());
}

#[test]
fn top_level_channels_keep_the_order_of_the_list() {
    let channels = vec![channel(7, 0, "X"), channel(2, 0, "Y"), channel(5, 0, "Z")];
    let info = channel_tree(&metadata(), channels, Vec::new());
    assert_eq!(ids(&info.channels), vec![7, 2, 5]);
}

#[test]
fn summarize_reads_the_lines_and_builds_the_tree() {
    let lines = vec![
        "virtualserver_name=My\\sServer virtualserver_platform=Linux".to_string(),
        "virtualserver_version=3.13.7\\s[Build:\\s1655727713]".to_string(),
        "error id=0 msg=ok".to_string(),
    ];
    let info = summarize(lines, vec![channel(1, 0, "A")], vec![person(1, VOICE_CLIENT, "Ann")])
        .expect("all three keys are there");
    assert_eq!(info.name, "My Server");
    assert_eq!(info.version, "3.13.7 [Build: 1655727713]");
    assert_eq!(info.platform, "Linux");
    assert_eq!(info.channels.len(), 1);
    assert_eq!(info.channels[0].clients[0].nickname, "Ann");
}

#[test]
fn summarize_gives_none_where_a_key_is_missing() {
    let lines = vec!["virtualserver_name=Home virtualserver_version=3".to_string()];
    assert_eq!(summarize(lines, Vec::new(), Vec::new()), None);
    assert_eq!(summarize(Vec::new(), Vec::new(), Vec::new()), None);
}

#[test]
fn summarize_accepts_keys_without_values() {
    let lines =
        vec!["virtualserver_name virtualserver_version virtualserver_platform".to_string()];
    let info = summarize(lines, Vec::new(), Vec::new()).expect("the keys are there");
    assert_eq!(info.name, "");
    assert_eq!(info.version, "");
    assert_eq!(info.platform, "");
}

#[test]
fn default_summary_is_empty() {
    let info = ServerInfo::default();
    assert_eq!(info.name, "");
    assert_eq!(info.version, "");
    assert_eq!(info.platform, "");
    assert!(info.channels.is_empty());
}

#[test]
fn clone_of_a_summary_is_equal_to_it() {
    let channels = vec![channel(1, 0, "A"), channel(2, 1, "B")];
    let info = channel_tree(&metadata(), channels, vec![person(2, VOICE_CLIENT, "Bob")]);
    assert_eq!(info.clone(), info);
}
