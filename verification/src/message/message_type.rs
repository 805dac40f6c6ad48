use vstd::prelude::*;

verus! {

/// The kind of a protocol message; it is carried in every message header.
#[derive(Debug, Clone, Copy, PartialEq, Eq, Structural)]
pub enum MessageType {
    /// Client sends the dir/file path
    SyncRequest,
    /// Server responds to SyncRequest with its own dir/file information (paths, checksums)
    ChecksumsResponse,
    /// Client requests specific block by block index an path
    BlockRequest,
    /// Server responds to BlockRequest with block index, path, and the block data
    BlockData,
    /// Server reports that it could not serve a request
    Error,
}

/// Index of a message type on the wire (the variant's position in the declaration).
pub open spec fn type_index(t: MessageType) -> u32 {
    match t {
        MessageType::SyncRequest => 0,
        MessageType::ChecksumsResponse => 1,
        MessageType::BlockRequest => 2,
        MessageType::BlockData => 3,
        MessageType::Error => 4,
    }
}

/// The message type with wire index `i`, if there is one.
pub open spec fn type_from_index(i: u32) -> Option<MessageType> {
    if i == 0 {
        Some(MessageType::SyncRequest)
    } else if i == 1 {
        Some(MessageType::ChecksumsResponse)
    } else if i == 2 {
        Some(MessageType::BlockRequest)
    } else if i == 3 {
        Some(MessageType::BlockData)
    } else if i == 4 {
        Some(MessageType::Error)
    } else {
        None
    }
}

/// How a message type is named in messages for people.
pub open spec fn spec_display_name(t: MessageType) -> Seq<char> {
    match t {
        MessageType::SyncRequest => "Sync Request"@,
        MessageType::ChecksumsResponse => "Checksums Response"@,
        MessageType::BlockRequest => "Block Request"@,
        MessageType::BlockData => "Block Data"@,
        MessageType::Error => "Error"@,
    }
}

impl MessageType {
    /// The name of the message type as it is shown to people.
    pub fn display_name(&self) -> (res: String)
        ensures
            res@ == spec_display_name(*self),
    {
        match self {
            MessageType::SyncRequest => String::from_str("Sync Request"),
            MessageType::ChecksumsResponse => String::from_str("Checksums Response"),
            MessageType::BlockRequest => String::from_str("Block Request"),
            MessageType::BlockData => String::from_str("Block Data"),
            MessageType::Error => String::from_str("Error"),
        }
    }

    /// Wire index of this message type.
    pub fn index(&self) -> (res: u32)
        ensures
            res == type_index(*self),
    {
        match self {
            MessageType::SyncRequest => 0,
            MessageType::ChecksumsResponse => 1,
            MessageType::BlockRequest => 2,
            MessageType::BlockData => 3,
            MessageType::Error => 4,
        }
    }

    /// The message type whose wire index is `i`; `None` for an unknown index.
    pub fn from_index(i: u32) -> (res: Option<MessageType>)
        ensures
            res == type_from_index(i),
    {
        if i == 0 {
            Some(MessageType::SyncRequest)
        } else if i == 1 {
            Some(MessageType::ChecksumsResponse)
        } else if i == 2 {
            Some(MessageType::BlockRequest)
        } else if i == 3 {
            Some(MessageType::BlockData)
        } else if i == 4 {
            Some(MessageType::Error)
        } else {
            None
        }
    }
}

/// Every message type comes back from its own wire index, and an index names
/// a message type exactly when it is the index of that type.
pub proof fn lemma_type_index_roundtrip(t: MessageType, i: u32)
    ensures
        type_from_index(type_index(t)) == Some(t),
        type_from_index(i) matches Some(u) ==> type_index(u) == i,
        type_from_index(i) is Some <==> i < 5,
{
}

} // verus!
