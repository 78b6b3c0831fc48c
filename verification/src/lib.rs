//! A live frame broadcast server core: one producer captures and encodes
//! frames, a hub keeps only the latest encoded frame, and any number of
//! viewers each follow the stream at their own pace.
//!
//! The crate holds the decision logic and the wire framing; the binary that
//! owns the capture device and the sockets drives these types from its own
//! threads.

pub mod errors;
pub mod frame;
pub mod hub;
pub mod models;
pub mod pages;
pub mod protocol;
pub mod source;
pub mod viewer;
pub mod views;

pub use errors::CustomError;
pub use frame::EncodedFrame;
pub use frame::Frame;
pub use hub::BroadcastHub;
pub use models::NewProfile;
pub use models::Profile;
pub use source::encode_result;
pub use source::FrameSource;
pub use source::ProducerAction;
pub use viewer::ViewerConnection;
pub use viewer::ViewerState;
