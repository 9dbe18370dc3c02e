//! What holds of every tree that the builder makes.

use crate::records::{ChannelRecordView, ClientRecordView, ROOT_ID};
use crate::summary::{build_tree, channel_node, finds_parent, root};
use crate::tree::{voice_clients, voice_in, ChannelNodeView};
use vstd::prelude::*;

verus! {

/// Offering a channel to a subtree that has no node with the wanted parent id
/// leaves the subtree as it is.
pub proof fn lemma_attach_without_parent(
    tree: ChannelNodeView,
    parent_id: u64,
    channel: ChannelNodeView,
)
    requires
        !tree.contains_id(parent_id),
    ensures
        tree.attach(parent_id, channel) == tree,
    decreases tree,
{
    assert forall|i: int| 0 <= i < tree.children.len() implies (#[trigger] tree.children[i]).attach(
        parent_id,
        channel,
    ) == tree.children[i] by {
        lemma_attach_without_parent(tree.children[i], parent_id, channel);
    }
    assert(tree.attach(parent_id, channel).children =~= tree.children);
}

/// The ids of a subtree after a channel was offered to it: those it had, and,
/// where it had the wanted parent id, those of the channel.
pub proof fn lemma_attach_ids(
    tree: ChannelNodeView,
    parent_id: u64,
    channel: ChannelNodeView,
    id: u64,
)
    ensures
        tree.attach(parent_id, channel).contains_id(id) <==> tree.contains_id(id) || (
        tree.contains_id(parent_id) && channel.contains_id(id)),
    decreases tree,
{
    let after = tree.attach(parent_id, channel);
    let n = tree.children.len() as int;
    if tree.id == parent_id {
        if tree.contains_id(id) && tree.id != id {
            let i = choose|i: int|
                0 <= i < tree.children.len() && (#[trigger] tree.children[i]).contains_id(id);
            assert(after.children[i].contains_id(id));
        }
        if channel.contains_id(id) {
            assert(after.children[n].contains_id(id));
        }
    } else {
        assert forall|i: int| 0 <= i < n implies ((#[trigger] after.children[i]).contains_id(id)
            <==> tree.children[i].contains_id(id) || (tree.children[i].contains_id(parent_id)
            && channel.contains_id(id))) by {
            lemma_attach_ids(tree.children[i], parent_id, channel, id);
        }
        if tree.contains_id(id) && tree.id != id {
            let i = choose|i: int|
                0 <= i < tree.children.len() && (#[trigger] tree.children[i]).contains_id(id);
            assert(after.children[i].contains_id(id));
        }
        if tree.contains_id(parent_id) && channel.contains_id(id) {
            let i = choose|i: int|
                0 <= i < tree.children.len() && (#[trigger] tree.children[i]).contains_id(
                    parent_id,
                );
            assert(after.children[i].contains_id(id));
        }
    }
}

/// A channel record that does not find its parent when its turn comes leaves
/// no trace: the tree is the one built from the list without that record.
pub proof fn lemma_orphan_is_dropped(
    channels: Seq<ChannelRecordView>,
    clients: Seq<ClientRecordView>,
    k: int,
)
    requires
        0 <= k < channels.len(),
        !finds_parent(channels, clients, k),
    ensures
        build_tree(channels, clients) == build_tree(channels.remove(k), clients),
    decreases channels.len(),
{
    let front = channels.drop_last();
    if k == channels.len() - 1 {
        lemma_attach_without_parent(
            build_tree(front, clients),
            channels[k].parent_id,
            channel_node(channels[k], clients),
        );
    } else {
        assert(front.take(k) =~= channels.take(k));
        lemma_orphan_is_dropped(front, clients, k);
        assert(channels.remove(k).drop_last() =~= front.remove(k));
    }
}

/// The ids of the tree: the root's, and the ids of the records that found
/// their parent when their turn came.
pub proof fn lemma_tree_ids(
    channels: Seq<ChannelRecordView>,
    clients: Seq<ClientRecordView>,
    id: u64,
)
    ensures
        build_tree(channels, clients).contains_id(id) <==> id == ROOT_ID || exists|k: int|
            0 <= k < channels.len() && channels[k].id == id && #[trigger] finds_parent(
                channels,
                clients,
                k,
            ),
    decreases channels.len(),
{
    if channels.len() == 0 {
        assert(root().children.len() == 0);
    } else {
        let front = channels.drop_last();
        let last = channels.len() - 1;
        let node = channel_node(channels.last(), clients);
        lemma_tree_ids(front, clients, id);
        lemma_attach_ids(build_tree(front, clients), channels.last().parent_id, node, id);
        assert forall|k: int| 0 <= k < last implies (#[trigger] finds_parent(channels, clients, k)
            <==> finds_parent(front, clients, k)) by {
            assert(front.take(k) =~= channels.take(k));
        }
        if build_tree(channels, clients).contains_id(id) && id != ROOT_ID {
            if build_tree(front, clients).contains_id(id) {
                let k = choose|k: int|
                    0 <= k < front.len() && front[k].id == id && #[trigger] finds_parent(
                        front,
                        clients,
                        k,
                    );
                assert(finds_parent(channels, clients, k));
            } else {
                assert(finds_parent(channels, clients, last));
            }
        }
    }
}

/// A channel record that does not find its parent is absent from the tree:
/// no node has its id, unless that id is the root's or belongs as well to
/// another record, one that did find its parent.
pub proof fn lemma_orphan_is_absent(
    channels: Seq<ChannelRecordView>,
    clients: Seq<ClientRecordView>,
    k: int,
)
    requires
        0 <= k < channels.len(),
        !finds_parent(channels, clients, k),
        channels[k].id != ROOT_ID,
        forall|j: int|
            0 <= j < channels.len() && channels[j].id == channels[k].id ==> !#[trigger] finds_parent(
                channels,
                clients,
                j,
            ),
    ensures
        !build_tree(channels, clients).contains_id(channels[k].id),
{
    lemma_tree_ids(channels, clients, channels[k].id);
}

/// Offering a channel to a subtree in which no id occurs twice keeps it that
/// way, where no id occurs twice in the channel and none in both.
pub proof fn lemma_attach_keeps_ids_unique(
    tree: ChannelNodeView,
    parent_id: u64,
    channel: ChannelNodeView,
)
    requires
        tree.ids_unique(),
        channel.ids_unique(),
        forall|id: u64| !(tree.contains_id(id) && channel.contains_id(id)),
    ensures
        tree.attach(parent_id, channel).ids_unique(),
    decreases tree,
{
    let after = tree.attach(parent_id, channel);
    let n = tree.children.len() as int;
    if tree.id != parent_id {
        assert forall|i: int, id: u64| 0 <= i < n implies ((
        #[trigger] after.children[i].contains_id(id)) <==> tree.children[i].contains_id(id) || (
        tree.children[i].contains_id(parent_id) && channel.contains_id(id))) by {
            lemma_attach_ids(tree.children[i], parent_id, channel, id);
        }
        assert forall|i: int| 0 <= i < after.children.len() implies !(
        #[trigger] after.children[i]).contains_id(after.id) by {
            assert(!tree.children[i].contains_id(tree.id));
        }
        assert forall|i: int, j: int, id: u64|
            #![trigger after.children[i].contains_id(id), after.children[j].contains_id(id)]
            0 <= i < j < after.children.len() implies !(after.children[i].contains_id(id)
            && after.children[j].contains_id(id)) by {
            assert(!(tree.children[i].contains_id(parent_id) && tree.children[j].contains_id(
                parent_id,
            )));
        }
        assert forall|i: int| 0 <= i < after.children.len() implies (
        #[trigger] after.children[i]).ids_unique() by {
            lemma_attach_keeps_ids_unique(tree.children[i], parent_id, channel);
        }
    }
}

/// Where every channel record has an id of its own, and none the root's, no
/// id occurs twice in the tree.
pub proof fn lemma_tree_ids_unique(
    channels: Seq<ChannelRecordView>,
    clients: Seq<ClientRecordView>,
)
    requires
        forall|k: int| 0 <= k < channels.len() ==> (#[trigger] channels[k]).id != ROOT_ID,
        forall|j: int, k: int|
            0 <= j < k < channels.len() ==> (#[trigger] channels[j]).id != (
            #[trigger] channels[k]).id,
    ensures
        build_tree(channels, clients).ids_unique(),
    decreases channels.len(),
{
    if channels.len() == 0 {
        assert(root().children.len() == 0);
    } else {
        let front = channels.drop_last();
        let node = channel_node(channels.last(), clients);
        let before = build_tree(front, clients);
        assert forall|k: int| 0 <= k < front.len() implies (#[trigger] front[k]).id
            != ROOT_ID by {
            assert(front[k] == channels[k]);
        }
        assert forall|j: int, k: int| 0 <= j < k < front.len() implies (#[trigger] front[j]).id
            != (#[trigger] front[k]).id by {
            assert(front[k] == channels[k]);
        }
        lemma_tree_ids_unique(front, clients);
        assert forall|id: u64| !(before.contains_id(id) && node.contains_id(id)) by {
            if node.contains_id(id) {
                lemma_tree_ids(front, clients, id);
            }
        }
        lemma_attach_keeps_ids_unique(before, channels.last().parent_id, node);
    }
}

/// The nodes that hang directly under one another after a channel was offered
/// to a subtree: those that did before, and, where the subtree had the wanted
/// parent id, the channel under that parent and what hangs within the channel.
pub proof fn lemma_attach_edges(
    tree: ChannelNodeView,
    parent_id: u64,
    channel: ChannelNodeView,
    a: u64,
    b: u64,
)
    ensures
        tree.attach(parent_id, channel).has_edge(a, b) <==> tree.has_edge(a, b) || (
        tree.contains_id(parent_id) && ((a == parent_id && b == channel.id) || channel.has_edge(
            a,
            b,
        ))),
    decreases tree,
{
    let after = tree.attach(parent_id, channel);
    let n = tree.children.len() as int;
    if tree.id == parent_id {
        if tree.has_edge(a, b) {
            if tree.id == a && exists|i: int|
                0 <= i < tree.children.len() && (#[trigger] tree.children[i]).id == b {
                let i = choose|i: int|
                    0 <= i < tree.children.len() && (#[trigger] tree.children[i]).id == b;
                assert(after.children[i].id == b);
            } else {
                let i = choose|i: int|
                    0 <= i < tree.children.len() && (#[trigger] tree.children[i]).has_edge(a, b);
                assert(after.children[i].has_edge(a, b));
            }
        }
        if a == parent_id && b == channel.id {
            assert(after.children[n].id == b);
        }
        if channel.has_edge(a, b) {
            assert(after.children[n].has_edge(a, b));
        }
    } else {
        assert forall|i: int| 0 <= i < n implies ((#[trigger] after.children[i]).has_edge(a, b)
            <==> tree.children[i].has_edge(a, b) || (tree.children[i].contains_id(parent_id) && ((a
            == parent_id && b == channel.id) || channel.has_edge(a, b)))) by {
            lemma_attach_edges(tree.children[i], parent_id, channel, a, b);
        }
        assert forall|i: int| 0 <= i < n implies (#[trigger] after.children[i]).id
            == tree.children[i].id by {
            reveal_with_fuel(ChannelNodeView::attach, 2);
        }
        if tree.has_edge(a, b) {
            if tree.id == a && exists|i: int|
                0 <= i < tree.children.len() && (#[trigger] tree.children[i]).id == b {
                let i = choose|i: int|
                    0 <= i < tree.children.len() && (#[trigger] tree.children[i]).id == b;
                assert(after.children[i].id == b);
            } else {
                let i = choose|i: int|
                    0 <= i < tree.children.len() && (#[trigger] tree.children[i]).has_edge(a, b);
                assert(after.children[i].has_edge(a, b));
            }
        }
        if tree.contains_id(parent_id) && ((a == parent_id && b == channel.id) || channel.has_edge(
            a,
            b,
        )) {
            let i = choose|i: int|
                0 <= i < tree.children.len() && (#[trigger] tree.children[i]).contains_id(
                    parent_id,
                );
            assert(after.children[i].has_edge(a, b));
        }
    }
}

/// A channel's place in the tree is given by its record's parent id alone: a
/// node hangs directly under another exactly where a record that found its
/// parent names the two ids.
pub proof fn lemma_tree_edges(
    channels: Seq<ChannelRecordView>,
    clients: Seq<ClientRecordView>,
    a: u64,
    b: u64,
)
    ensures
        build_tree(channels, clients).has_edge(a, b) <==> exists|k: int|
            0 <= k < channels.len() && channels[k].parent_id == a && channels[k].id == b
                && #[trigger] finds_parent(channels, clients, k),
    decreases channels.len(),
{
    if channels.len() == 0 {
        assert(root().children.len() == 0);
    } else {
        let front = channels.drop_last();
        let last = channels.len() - 1;
        let node = channel_node(channels.last(), clients);
        lemma_tree_edges(front, clients, a, b);
        lemma_attach_edges(build_tree(front, clients), channels.last().parent_id, node, a, b);
        assert forall|k: int| 0 <= k < last implies (#[trigger] finds_parent(channels, clients, k)
            <==> finds_parent(front, clients, k)) by {
            assert(front.take(k) =~= channels.take(k));
        }
        if build_tree(channels, clients).has_edge(a, b) {
            if build_tree(front, clients).has_edge(a, b) {
                let k = choose|k: int|
                    0 <= k < front.len() && front[k].parent_id == a && front[k].id == b
                        && #[trigger] finds_parent(front, clients, k);
                assert(finds_parent(channels, clients, k));
            } else {
                assert(finds_parent(channels, clients, last));
            }
        }
    }
}

/// Offering a channel whose nodes show their voice clients to a subtree whose
/// nodes do so keeps it that way.
pub proof fn lemma_attach_lists_voice_clients(
    tree: ChannelNodeView,
    parent_id: u64,
    channel: ChannelNodeView,
    clients: Seq<ClientRecordView>,
)
    requires
        tree.lists_voice_clients(clients),
        channel.lists_voice_clients(clients),
    ensures
        tree.attach(parent_id, channel).lists_voice_clients(clients),
    decreases tree,
{
    let after = tree.attach(parent_id, channel);
    if tree.id != parent_id {
        assert forall|i: int| 0 <= i < after.children.len() implies (
        #[trigger] after.children[i]).lists_voice_clients(clients) by {
            lemma_attach_lists_voice_clients(tree.children[i], parent_id, channel, clients);
        }
    }
}

/// Every channel of the tree shows exactly the voice clients that sit in it:
/// no connection of another type, and none of another channel.
pub proof fn lemma_tree_lists_voice_clients(
    channels: Seq<ChannelRecordView>,
    clients: Seq<ClientRecordView>,
)
    ensures
        build_tree(channels, clients).id == ROOT_ID,
        forall|i: int|
            0 <= i < build_tree(channels, clients).children.len() ==> (#[trigger] build_tree(
                channels,
                clients,
            ).children[i]).lists_voice_clients(clients),
    decreases channels.len(),
{
    if channels.len() > 0 {
        let before = build_tree(channels.drop_last(), clients);
        let node = channel_node(channels.last(), clients);
        let parent_id = channels.last().parent_id;
        let after = before.attach(parent_id, node);
        lemma_tree_lists_voice_clients(channels.drop_last(), clients);
        assert forall|i: int| 0 <= i < after.children.len() implies (
        #[trigger] after.children[i]).lists_voice_clients(clients) by {
            if before.id != parent_id {
                lemma_attach_lists_voice_clients(before.children[i], parent_id, node, clients);
            }
        }
    }
}

/// Every client that a channel shows comes from a connection of the list
/// that is a voice participant and sits in that channel.
pub proof fn lemma_voice_clients_come_from_voice(
    clients: Seq<ClientRecordView>,
    channel_id: u64,
    k: int,
)
    requires
        0 <= k < voice_clients(clients, channel_id).len(),
    ensures
        exists|j: int|
            0 <= j < clients.len() && (#[trigger] clients[j]).is_voice() && clients[j].channel_id
                == channel_id && clients[j].shown() == voice_clients(clients, channel_id)[k],
{
    let picked = clients.filter(voice_in(channel_id));
    clients.lemma_filter_pred(voice_in(channel_id), k);
    clients.lemma_filter_contains_rev(voice_in(channel_id), picked[k]);
    assert(clients.contains(picked[k]));
}

/// The test that picks the voice participants out of a list.
pub open spec fn voice() -> spec_fn(ClientRecordView) -> bool {
    |c: ClientRecordView| c.is_voice()
}

proof fn lemma_filter_voice_first(clients: Seq<ClientRecordView>, channel_id: u64)
    ensures
        clients.filter(voice()).filter(voice_in(channel_id)) == clients.filter(
            voice_in(channel_id),
        ),
    decreases clients.len(),
{
    if clients.len() == 0 {
        reveal(Seq::filter);
    } else {
        let front = clients.drop_last();
        let last = clients.last();
        assert(clients =~= front.push(last));
        lemma_filter_voice_first(front, channel_id);
        front.lemma_filter_push(last, voice());
        front.lemma_filter_push(last, voice_in(channel_id));
        front.filter(voice()).lemma_filter_push(last, voice_in(channel_id));
    }
}

/// Connections that are no voice participants have no part in what a channel
/// shows: dropping them from the list changes nothing.
pub proof fn lemma_voice_clients_ignore_others(clients: Seq<ClientRecordView>, channel_id: u64)
    ensures
        voice_clients(clients.filter(voice()), channel_id) == voice_clients(
            clients,
            channel_id,
        ),
{
    lemma_filter_voice_first(clients, channel_id);
}

/// Connections that are no voice participants have no part in the tree.
pub proof fn lemma_tree_ignores_others(
    channels: Seq<ChannelRecordView>,
    clients: Seq<ClientRecordView>,
)
    ensures
        build_tree(channels, clients.filter(voice())) == build_tree(channels, clients),
    decreases channels.len(),
{
    if channels.len() > 0 {
        lemma_tree_ignores_others(channels.drop_last(), clients);
        lemma_voice_clients_ignore_others(clients, channels.last().id);
    }
}

} // verus!
