//! The channel tree: channels nested under their parents, each with the voice
//! clients that sit in it.

use crate::laws::lemma_attach_without_parent;
use crate::records::{client_views, ClientRecord, ClientRecordView};
use vstd::prelude::*;

verus! {

/// One voice participant as the tree shows it.
#[derive(Debug, PartialEq, Eq)]
pub struct Client {
    pub nickname: String,
    pub country: String,
    pub input_muted: bool,
    pub output_muted: bool,
    pub away: bool,
}

/// Mathematical value of a [`Client`].
pub struct ClientView {
    pub nickname: Seq<char>,
    pub country: Seq<char>,
    pub input_muted: bool,
    pub output_muted: bool,
    pub away: bool,
}

impl View for Client {
    type V = ClientView;

    open spec fn view(&self) -> ClientView {
        ClientView {
            nickname: self.nickname@,
            country: self.country@,
            input_muted: self.input_muted,
            output_muted: self.output_muted,
            away: self.away,
        }
    }
}

impl ClientRecordView {
    /// What the tree shows of this connection: its names and flags, without
    /// the channel id and the client type.
    pub open spec fn shown(self) -> ClientView {
        ClientView {
            nickname: self.nickname,
            country: self.country,
            input_muted: self.input_muted,
            output_muted: self.output_muted,
            away: self.away,
        }
    }
}

impl From<&ClientRecord> for Client {
    fn from(record: &ClientRecord) -> (client: Client) {
        Client {
            nickname: record.nickname.clone(),
            country: record.country.clone(),
            input_muted: record.input_muted,
            output_muted: record.output_muted,
            away: record.away,
        }
    }
}

impl vstd::std_specs::convert::FromSpecImpl<&ClientRecord> for Client {
    open spec fn obeys_from_spec() -> bool {
        true
    }

    open spec fn from_spec(record: &ClientRecord) -> Client {
        Client {
            nickname: record.nickname,
            country: record.country,
            input_muted: record.input_muted,
            output_muted: record.output_muted,
            away: record.away,
        }
    }
}

impl Clone for Client {
    fn clone(&self) -> (copy: Self)
        ensures
            copy@ == self@,
    {
        Client {
            nickname: self.nickname.clone(),
            country: self.country.clone(),
            input_muted: self.input_muted,
            output_muted: self.output_muted,
            away: self.away,
        }
    }
}

impl Default for Client {
    fn default() -> (client: Self)
        ensures
            client@ == (ClientView {
                nickname: Seq::empty(),
                country: Seq::empty(),
                input_muted: false,
                output_muted: false,
                away: false,
            }),
    {
        Client {
            nickname: String::new(),
            country: String::new(),
            input_muted: false,
            output_muted: false,
            away: false,
        }
    }
}

/// The views of a list of clients, in order.
pub open spec fn client_list(clients: Seq<Client>) -> Seq<ClientView> {
    clients.map_values(|c: Client| c@)
}

/// The test that picks the voice clients of one channel out of a list.
pub open spec fn voice_in(channel_id: u64) -> spec_fn(ClientRecordView) -> bool {
    |c: ClientRecordView| c.listed_in(channel_id)
}

/// The clients that a channel shows: of the connections, in the order in
/// which they were enumerated, those that are voice participants and sit in
/// exactly this channel.
pub open spec fn voice_clients(clients: Seq<ClientRecordView>, channel_id: u64) -> Seq<
    ClientView,
> {
    clients.filter(voice_in(channel_id)).map_values(|c: ClientRecordView| c.shown())
}

/// Collects the clients that the channel with the given id shows.
pub fn clients_in(clients: &Vec<ClientRecord>, channel_id: u64) -> (listed: Vec<Client>)
    ensures
        client_list(listed@) == voice_clients(
            client_views(clients@),
            channel_id,
        ),
{
    let ghost all = client_views(clients@);
    let mut listed: Vec<Client> = Vec::new();
    let mut i: usize = 0;
    proof {
        reveal(Seq::filter);
    }
    while i < clients.len()
        invariant
            i <= clients.len(),
            all == client_views(clients@),
            client_list(listed@) == voice_clients(all.take(i as int), channel_id),
        decreases clients.len() - i,
    {
        proof {
            assert(all.take(i + 1) =~= all.take(i as int).push(all[i as int]));
            all.take(i as int).lemma_filter_push(all[i as int], voice_in(channel_id));
        }
        if clients[i].listed_in(channel_id) {
            let client = Client::from(&clients[i]);
            listed.push(client);
            assert(voice_clients(all.take(i + 1), channel_id) =~= voice_clients(
                all.take(i as int),
                channel_id,
            ).push(all[i as int].shown()));
        }
        i += 1;
    }
    proof {
        assert(all.take(clients.len() as int) =~= all);
    }
    listed
}

/// One channel with the clients that sit in it and the channels nested
/// directly under it.
#[derive(Debug, PartialEq, Eq)]
pub struct ChannelNode {
    pub id: u64,
    pub name: String,
    pub clients: Vec<Client>,
    pub children: Vec<ChannelNode>,
}

/// Mathematical value of a [`ChannelNode`]: the whole subtree below it.
pub struct ChannelNodeView {
    pub id: u64,
    pub name: Seq<char>,
    pub clients: Seq<ClientView>,
    pub children: Seq<ChannelNodeView>,
}

impl ChannelNode {
    /// The subtree that this node stands for.
    pub open spec fn tree(self) -> ChannelNodeView
        decreases self,
    {
        ChannelNodeView {
            id: self.id,
            name: self.name@,
            clients: client_list(self.clients@),
            children: Seq::new(
                self.children@.len(),
                |i: int|
                    if 0 <= i < self.children@.len() {
                        self.children@[i].tree()
                    } else {
                        arbitrary()
                    },
            ),
        }
    }
}

impl View for ChannelNode {
    type V = ChannelNodeView;

    open spec fn view(&self) -> ChannelNodeView {
        self.tree()
    }
}

/// The views of a list of nodes, in order.
pub open spec fn node_list(nodes: Seq<ChannelNode>) -> Seq<ChannelNodeView> {
    nodes.map_values(|n: ChannelNode| n@)
}

impl ChannelNodeView {
    /// A channel without clients and without nested channels.
    pub open spec fn bare(id: u64, name: Seq<char>) -> ChannelNodeView {
        ChannelNodeView { id, name, clients: Seq::empty(), children: Seq::empty() }
    }

    /// Some node of this subtree, the top one included, has the given id.
    pub open spec fn contains_id(self, id: u64) -> bool
        decreases self,
    {
        self.id == id || exists|i: int|
            0 <= i < self.children.len() && (#[trigger] self.children[i]).contains_id(id)
    }

    /// The subtree after `channel` was offered to it as a child of
    /// `parent_id`.
    ///
    /// The search runs from the top. A node with the wanted id takes the
    /// channel as its new last child, and the search does not go on below that
    /// node. Any other node hands the offer to each of its children. Where no
    /// node has the wanted id the subtree stays as it is.
    pub open spec fn attach(self, parent_id: u64, channel: ChannelNodeView) -> ChannelNodeView
        decreases self,
    {
        if self.id == parent_id {
            ChannelNodeView { children: self.children.push(channel), ..self }
        } else {
            ChannelNodeView {
                children: Seq::new(
                    self.children.len(),
                    |i: int|
                        if 0 <= i < self.children.len() {
                            self.children[i].attach(parent_id, channel)
                        } else {
                            arbitrary()
                        },
                ),
                ..self
            }
        }
    }

    /// No id occurs twice in this subtree: the top node's id occurs in none
    /// of its children, no id occurs in two of them, and none occurs twice
    /// within one of them.
    pub open spec fn ids_unique(self) -> bool
        decreases self,
    {
        &&& forall|i: int|
            0 <= i < self.children.len() ==> !(#[trigger] self.children[i]).contains_id(self.id)
        &&& forall|i: int, j: int, id: u64|
            #![trigger self.children[i].contains_id(id), self.children[j].contains_id(id)]
            0 <= i < j < self.children.len() ==> !(self.children[i].contains_id(id)
                && self.children[j].contains_id(id))
        &&& forall|i: int|
            0 <= i < self.children.len() ==> (#[trigger] self.children[i]).ids_unique()
    }

    /// Some node of this subtree with id `parent_id` has a node with id
    /// `child_id` directly under it.
    pub open spec fn has_edge(self, parent_id: u64, child_id: u64) -> bool
        decreases self,
    {
        ||| self.id == parent_id && exists|i: int|
            0 <= i < self.children.len() && (#[trigger] self.children[i]).id == child_id
        ||| exists|i: int|
            0 <= i < self.children.len() && (#[trigger] self.children[i]).has_edge(
                parent_id,
                child_id,
            )
    }

    /// Every node of this subtree, the top one included, shows exactly the
    /// voice clients that the list places in a channel with the node's id.
    pub open spec fn lists_voice_clients(self, clients: Seq<ClientRecordView>) -> bool
        decreases self,
    {
        &&& self.clients == voice_clients(clients, self.id)
        &&& forall|i: int|
            0 <= i < self.children.len() ==> (#[trigger] self.children[i]).lists_voice_clients(
                clients,
            )
    }
}

impl ChannelNode {
    /// Offers `channel` to this subtree as a child of the node with id
    /// `parent_id`; a copy of it is appended where that node is found. Where
    /// no node has that id, the channel is dropped and the subtree stays as it
    /// is.
    pub fn add_to_parent(&mut self, parent_id: u64, channel: &ChannelNode)
        ensures
            final(self)@ == old(self)@.attach(parent_id, channel@),
            !old(self)@.contains_id(parent_id) ==> final(self)@ == old(self)@,
        decreases *old(self),
    {
        proof {
            if !old(self)@.contains_id(parent_id) {
                lemma_attach_without_parent(old(self)@, parent_id, channel@);
            }
        }
        if self.id == parent_id {
            self.children.push(channel.clone());
            assert(self@.children =~= old(self)@.children.push(channel@));
        } else {
            let n = self.children.len();
            let mut i: usize = 0;
            while i < n
                invariant
                    i <= n,
                    n == old(self).children@.len(),
                    self.children@.len() == n,
                    self.id == old(self).id,
                    self.id != parent_id,
                    self.name == old(self).name,
                    self.clients == old(self).clients,
                    forall|j: int|
                        0 <= j < i ==> (#[trigger] self.children@[j])@ == old(
                            self,
                        ).children@[j]@.attach(parent_id, channel@),
                    forall|j: int|
                        i <= j < n ==> #[trigger] self.children@[j] == old(self).children@[j],
                decreases n - i,
            {
                self.children[i].add_to_parent(parent_id, channel);
                i += 1;
            }
            assert(self@.children =~= old(self)@.attach(parent_id, channel@).children);
        }
    }
}

impl Clone for ChannelNode {
    fn clone(&self) -> (copy: Self)
        ensures
            copy@ == self@,
        decreases self,
    {
        let mut children: Vec<ChannelNode> = Vec::new();
        let mut i: usize = 0;
        while i < self.children.len()
            invariant
                i <= self.children.len(),
                children@.len() == i,
                forall|j: int| 0 <= j < i ==> (#[trigger] children@[j])@ == self.children@[j]@,
            decreases self.children.len() - i,
        {
            children.push(self.children[i].clone());
            i += 1;
        }
        let copy = ChannelNode {
            id: self.id,
            name: self.name.clone(),
            clients: self.clients.clone(),
            children,
        };
        assert(copy@.clients =~= self@.clients);
        assert(copy@.children =~= self@.children);
        copy
    }
}

impl Default for ChannelNode {
    fn default() -> (node: Self)
        ensures
            node@ == ChannelNodeView::bare(0, Seq::empty()),
    {
        let node = ChannelNode {
            id: 0,
            name: String::new(),
            clients: Vec::new(),
            children: Vec::new(),
        };
        assert(node@.clients =~= Seq::empty());
        assert(node@.children =~= Seq::empty());
        node
    }
}

} // verus!
