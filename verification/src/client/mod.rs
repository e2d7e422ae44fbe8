//! Provider clients: what a model costs and allows, and how a request is sent.

pub mod common;
pub mod message;
pub mod model_info;
pub mod prompt;
pub mod session;

pub use common::{
    BuildFailure, ClientOptions, ExtraConfig, InvalidProxy, MissingCredential, NoSuchClient, TransportFailure,
};
pub use message::{Message, MessageRole};
pub use model_info::{LimitExceeded, ModelInfo, TokensCountFactors};
