//! A client library for the Rust+ companion protocol: the builder, request
//! construction, response interpretation, event decoding and the
//! conversions from protocol messages into the library's own records.

pub mod error;
pub mod events;
pub mod pending;
pub mod proto;
pub mod socket;
pub mod structs;

pub use error::Error;
pub use socket::{RustSocket, RustSocketBuilder};
pub use events::RustEvent;
pub use pending::PendingTable;
pub use structs::clan::{RustClanChat, RustClanInfo, RustClanMessage, RustInvite, RustMember, RustRole};
pub use structs::entity::{RustEntityInfo, RustEntityItem, RustEntityPayload, RustEntityType};
pub use structs::server_info::RustInfo;
pub use structs::team::{RustTeamChat, RustTeamMessage};
