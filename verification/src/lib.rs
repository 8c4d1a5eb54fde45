pub mod block;
pub mod chain;
pub mod decimal;
pub mod digest;
pub mod nonce;

pub use block::Block;
pub use block::BlockData;
pub use block::BlockMetadata;
pub use block::StringData;
pub use chain::Blockchain;
