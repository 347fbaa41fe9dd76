pub mod text;
pub mod storage;
pub mod semantic;
pub mod tray;
pub mod shortcuts;
pub mod model;
pub mod notebook;
pub mod laws;
pub mod probability;
