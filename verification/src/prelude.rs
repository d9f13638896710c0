//! A useful collection of this crate's types.

pub use crate::Orchestrator;
pub use crate::RequestID;
pub use crate::chat::siso::ChatSisoRequest;
pub use crate::chat::siso::ChatSisoResponse;
pub use crate::keys::Keys;
pub use crate::policies::Policies;
