//! A harness that emulates a vendor binary to produce a device validation blob.
//!
//! `loader` picks the x86-64 slice out of a multi-architecture container,
//! `calls` lays out calls by the System V convention, `table` assigns each
//! imported symbol a trampoline address, `objects` is the handle table of
//! emulated runtime objects, and `hooks` answers each intercepted call from
//! that table and a fixture dataset. The CPU emulator itself runs outside this
//! crate and carries out the reads, writes and returns the hooks ask for.

pub mod calls;
pub mod driver;
pub mod error;
pub mod hex;
pub mod hooks;
pub mod loader;
pub mod messages;
pub mod objects;
pub mod table;

pub use driver::{base64_decode, base64_encode, generate_validation_data};
pub use error::{EmuError, EmulationFault, FormatError};
pub use hex::{decode_hex, encode_hex, HexError};
pub use messages::{
    add_prefix, remove_prefix, Attachment, AttachmentType, BalloonBody, ChangeParticipantMessage,
    ConversationData, EditMessage, IMessage, IconChangeMessage, IndexedMessagePart, KeyPair,
    MMCSFile, Message, MessagePart, MessageParts, NormalMessage, ReactMessage, Reaction,
    RenameMessage, UnsendMessage,
};
