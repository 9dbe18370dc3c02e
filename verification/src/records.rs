//! Flat records as the remote query service enumerates them.
//!
//! A refresh hands the library two lists: one record per channel, carrying the
//! id of the channel it hangs under, and one record per connected client,
//! carrying the id of the channel the client sits in.

use vstd::prelude::*;

verus! {

/// The client type that marks a regular voice participant. Every other value
/// marks a query or other internal connection.
pub const VOICE_CLIENT: i8 = 0;

/// The id of the synthetic root that top-level channels name as their parent.
pub const ROOT_ID: u64 = 0;

/// One channel of the remote server.
#[derive(Debug, PartialEq, Eq)]
pub struct ChannelRecord {
    pub id: u64,
    pub parent_id: u64,
    pub name: String,
}

/// Mathematical value of a [`ChannelRecord`].
pub struct ChannelRecordView {
    pub id: u64,
    pub parent_id: u64,
    pub name: Seq<char>,
}

impl View for ChannelRecord {
    type V = ChannelRecordView;

    open spec fn view(&self) -> ChannelRecordView {
        ChannelRecordView { id: self.id, parent_id: self.parent_id, name: self.name@ }
    }
}

/// One connection to the remote server.
#[derive(Debug, PartialEq, Eq)]
pub struct ClientRecord {
    pub channel_id: u64,
    pub client_type: i8,
    pub nickname: String,
    pub country: String,
    pub input_muted: bool,
    pub output_muted: bool,
    pub away: bool,
}

/// Mathematical value of a [`ClientRecord`].
pub struct ClientRecordView {
    pub channel_id: u64,
    pub client_type: i8,
    pub nickname: Seq<char>,
    pub country: Seq<char>,
    pub input_muted: bool,
    pub output_muted: bool,
    pub away: bool,
}

impl View for ClientRecord {
    type V = ClientRecordView;

    open spec fn view(&self) -> ClientRecordView {
        ClientRecordView {
            channel_id: self.channel_id,
            client_type: self.client_type,
            nickname: self.nickname@,
            country: self.country@,
            input_muted: self.input_muted,
            output_muted: self.output_muted,
            away: self.away,
        }
    }
}

impl ClientRecordView {
    /// The connection is a regular voice participant.
    pub open spec fn is_voice(self) -> bool {
        self.client_type == VOICE_CLIENT
    }

    /// The connection is a voice participant that sits in exactly this channel.
    pub open spec fn listed_in(self, channel_id: u64) -> bool {
        self.is_voice() && self.channel_id == channel_id
    }
}

/// The views of a list of channel records, in order.
pub open spec fn channel_views(channels: Seq<ChannelRecord>) -> Seq<ChannelRecordView> {
    channels.map_values(|c: ChannelRecord| c@)
}

/// The views of a list of client records, in order.
pub open spec fn client_views(clients: Seq<ClientRecord>) -> Seq<ClientRecordView> {
    clients.map_values(|c: ClientRecord| c@)
}

impl ClientRecord {
    /// Whether the connection is a regular voice participant of the given channel.
    pub fn listed_in(&self, channel_id: u64) -> (listed: bool)
        ensures
            listed == self@.listed_in(channel_id),
    {
        self.client_type == VOICE_CLIENT && self.channel_id == channel_id
    }
}

} // verus!
