//! Marshaling layer between application code and a callback-driven
//! publish/subscribe host: text and mail decoding, parameter retrieval,
//! outbound notifications and the handle's lifecycle, on plain values.

pub mod app;
pub mod interface;
pub mod mail;
pub mod message;
pub mod native;
pub mod param;
pub mod registry;
pub mod text;

pub use app::{MoosApp, Phase};
pub use interface::MoosInterface;
pub use mail::{decode_mail, Mailbox};
pub use message::{DataType, DecodeFault, Envelope, FaultKind, MoosMessageData};
pub use native::{NativeCall, NativeReply};
pub use param::{convert_f64, convert_str, param_result, ParamScope};
pub use registry::{this, to_app, Registry};
