//! Core of the Jade engine editor: the system log, the platform
//! abstraction types, the mock platform's answers and the editor's
//! console state, each with its contract.

pub mod clock;
pub mod editor;
pub mod laws;
pub mod logger;
pub mod mock_platform;
pub mod platform;
