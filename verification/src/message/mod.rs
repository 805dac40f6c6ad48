//! Protocol messages and their wire framing.

pub mod message_type;
pub mod wire;
pub mod message_header;
pub mod message_framing;
pub mod sync_request_message;
pub mod block_request_message;
pub mod block_data_message;
pub mod checksums_response_message;
pub mod error_message;

pub use message_type::MessageType;
pub use message_header::{MessageHeader, HeaderError, HEADER_LEN};
pub use message_framing::{
    compressed_on_wire, message_serialize_and_frame, open_message_body, unframe_message, FrameError,
};
pub use sync_request_message::{SyncRequestMessage, SyncTargetType};
pub use block_request_message::BlockRequestMessage;
pub use block_data_message::BlockDataMessage;
pub use checksums_response_message::ChecksumsResponseMessage;
pub use error_message::ErrorMessage;
