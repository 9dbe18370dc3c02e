//! Building the server summary: the channel tree out of the flat records,
//! beside the server's name, version and platform.

use crate::laws::lemma_tree_lists_voice_clients;
use crate::metadata::{line_views, parsed_entries, text_of, Metadata, MetadataView};
use crate::records::{
    channel_views, client_views, ChannelRecord, ChannelRecordView, ClientRecord, ClientRecordView,
    ROOT_ID,
};
use crate::tree::{clients_in, node_list, voice_clients, ChannelNode, ChannelNodeView};
use vstd::prelude::*;

verus! {

/// The metadata key of the server's name.
pub const NAME_KEY: &'static str = "virtualserver_name";

/// The metadata key of the server's version.
pub const VERSION_KEY: &'static str = "virtualserver_version";

/// The metadata key of the platform the server runs on.
pub const PLATFORM_KEY: &'static str = "virtualserver_platform";

/// The name of the synthetic root, which is never handed out itself.
pub const ROOT_NAME: &'static str = "Root";

/// Server-wide metadata together with the top-level channels of the tree.
#[derive(Debug, PartialEq, Eq)]
pub struct ServerInfo {
    pub name: String,
    pub version: String,
    pub platform: String,
    pub channels: Vec<ChannelNode>,
}

/// Mathematical value of a [`ServerInfo`].
pub struct ServerInfoView {
    pub name: Seq<char>,
    pub version: Seq<char>,
    pub platform: Seq<char>,
    pub channels: Seq<ChannelNodeView>,
}

impl View for ServerInfo {
    type V = ServerInfoView;

    open spec fn view(&self) -> ServerInfoView {
        ServerInfoView {
            name: self.name@,
            version: self.version@,
            platform: self.platform@,
            channels: node_list(self.channels@),
        }
    }
}

impl Clone for ServerInfo {
    fn clone(&self) -> (copy: Self)
        ensures
            copy@ == self@,
    {
        let copy = ServerInfo {
            name: self.name.clone(),
            version: self.version.clone(),
            platform: self.platform.clone(),
            channels: self.channels.clone(),
        };
        assert(copy@.channels =~= self@.channels);
        copy
    }
}

impl Default for ServerInfo {
    fn default() -> (info: Self)
        ensures
            info@ == ServerInfoView::empty(),
    {
        let info = ServerInfo {
            name: String::new(),
            version: String::new(),
            platform: String::new(),
            channels: Vec::new(),
        };
        assert(info@.channels =~= Seq::empty());
        info
    }
}

impl ServerInfoView {
    /// The summary that is served before the first refresh: no names and no
    /// channels.
    pub open spec fn empty() -> ServerInfoView {
        ServerInfoView {
            name: Seq::empty(),
            version: Seq::empty(),
            platform: Seq::empty(),
            channels: Seq::empty(),
        }
    }
}

/// The synthetic root before any channel is inserted.
pub open spec fn root() -> ChannelNodeView {
    ChannelNodeView::bare(ROOT_ID, ROOT_NAME@)
}

/// The node that stands for one channel record when it is inserted: the
/// channel's id and name, its voice clients, and no nested channels yet.
pub open spec fn channel_node(
    channel: ChannelRecordView,
    clients: Seq<ClientRecordView>,
) -> ChannelNodeView {
    ChannelNodeView {
        id: channel.id,
        name: channel.name,
        clients: voice_clients(clients, channel.id),
        children: Seq::empty(),
    }
}

/// The tree, root included, after the channel records were inserted one by
/// one in the order of the list, each under the node that has its parent id
/// at that moment.
pub open spec fn build_tree(
    channels: Seq<ChannelRecordView>,
    clients: Seq<ClientRecordView>,
) -> ChannelNodeView
    decreases channels.len(),
{
    if channels.len() == 0 {
        root()
    } else {
        build_tree(channels.drop_last(), clients).attach(
            channels.last().parent_id,
            channel_node(channels.last(), clients),
        )
    }
}

/// The record at position `k` finds its parent: when its turn comes, the tree
/// built from the records before it has a node with the record's parent id.
pub open spec fn finds_parent(
    channels: Seq<ChannelRecordView>,
    clients: Seq<ClientRecordView>,
    k: int,
) -> bool {
    build_tree(channels.take(k), clients).contains_id(channels[k].parent_id)
}

/// The metadata names the server, its version and its platform.
pub open spec fn has_summary_keys(metadata: MetadataView) -> bool {
    &&& metadata.contains_key(NAME_KEY@)
    &&& metadata.contains_key(VERSION_KEY@)
    &&& metadata.contains_key(PLATFORM_KEY@)
}

/// The summary of one refresh: three texts of the metadata and the top-level
/// channels of the tree built from the records.
pub open spec fn summary(
    metadata: MetadataView,
    channels: Seq<ChannelRecordView>,
    clients: Seq<ClientRecordView>,
) -> ServerInfoView {
    ServerInfoView {
        name: text_of(metadata, NAME_KEY@),
        version: text_of(metadata, VERSION_KEY@),
        platform: text_of(metadata, PLATFORM_KEY@),
        channels: build_tree(channels, clients).children,
    }
}

/// Builds the summary from the metadata and the two flat lists.
///
/// A channel whose parent is not in the tree when its turn comes is left out,
/// and with it every channel that names it as parent later on. Every channel
/// of the tree shows the voice clients that sit in it and nobody else.
///
/// The metadata has to name the server, its version and its platform;
/// [`summarize`] tests that before it builds.
pub fn channel_tree(
    server_info: &Metadata,
    channels: Vec<ChannelRecord>,
    clients: Vec<ClientRecord>,
) -> (info: ServerInfo)
    requires
        has_summary_keys(server_info@),
    ensures
        info@ == summary(server_info@, channel_views(channels@), client_views(clients@)),
        forall|i: int|
            0 <= i < info@.channels.len() ==> (#[trigger] info@.channels[i]).lists_voice_clients(
                client_views(clients@),
            ),
{
    proof {
        lemma_tree_lists_voice_clients(channel_views(channels@), client_views(clients@));
    }
    let ghost all = channel_views(channels@);
    let ghost people = client_views(clients@);
    let mut root = ChannelNode {
        id: ROOT_ID,
        name: ROOT_NAME.to_owned(),
        clients: Vec::new(),
        children: Vec::new(),
    };
    proof {
        assert(root@.clients =~= Seq::empty());
        assert(root@.children =~= Seq::empty());
    }
    let mut i: usize = 0;
    while i < channels.len()
        invariant
            i <= channels.len(),
            all == channel_views(channels@),
            people == client_views(clients@),
            root@ == build_tree(all.take(i as int), people),
        decreases channels.len() - i,
    {
        let channel = &channels[i];
        let node = ChannelNode {
            id: channel.id,
            name: channel.name.clone(),
            clients: clients_in(&clients, channel.id),
            children: Vec::new(),
        };
        proof {
            assert(node@.children =~= Seq::empty());
            assert(all.take(i + 1).drop_last() =~= all.take(i as int));
        }
        root.add_to_parent(channel.parent_id, &node);
        i += 1;
    }
    proof {
        assert(all.take(channels.len() as int) =~= all);
    }
    let info = ServerInfo {
        name: server_info.text(NAME_KEY),
        version: server_info.text(VERSION_KEY),
        platform: server_info.text(PLATFORM_KEY),
        channels: root.children,
    };
    assert(info@.channels =~= root@.children);
    info
}

/// Reads the metadata out of the lines of the `serverinfo` answer and builds
/// the summary, where the metadata names the server, its version and its
/// platform; `None` where one of the three is missing.
pub fn summarize(
    lines: Vec<String>,
    channels: Vec<ChannelRecord>,
    clients: Vec<ClientRecord>,
) -> (built: Option<ServerInfo>)
    ensures
        match built {
            Some(info) => {
                &&& has_summary_keys(parsed_entries(line_views(lines@), true))
                &&& info@ == summary(
                    parsed_entries(line_views(lines@), true),
                    channel_views(channels@),
                    client_views(clients@),
                )
            },
            None => !has_summary_keys(parsed_entries(line_views(lines@), true)),
        },
{
    let metadata = Metadata::parse(lines);
    if metadata.contains_key(NAME_KEY) && metadata.contains_key(VERSION_KEY)
        && metadata.contains_key(PLATFORM_KEY) {
        Some(channel_tree(&metadata, channels, clients))
    } else {
        None
    }
}

} // verus!
