//! A runtime for OneBot v11 chat bots: request/response correlation by echo
//! token, typed event decoding with a per-event cache, per-plugin access
//! control, plugin shutdown order and cron scheduling decisions.

pub mod access;
pub mod api;
pub mod connect;
pub mod correlator;
pub mod cron;
pub mod dispatch;
pub mod event;
pub mod json;
pub mod logger;
pub mod plugin;
pub mod text;

pub use api::{ApiReturn, SendApi};
pub use event::{GroupMsgEvent, InternalEvent, NoticeEvent};
pub use logger::try_set_logger;
