pub mod attrjson;
pub mod codec;
pub mod contract;
pub mod data;
pub mod laws;
pub mod policy;
pub mod schema;
pub mod text;
pub mod types;

pub use contract::{on_clone, on_execute, on_mint};
pub use data::{DataStructFork, OpenSeaAttributes};
pub use policy::{is_nft_storage_link, is_profane, text_is_flagged};
pub use types::{FinalMetadata, MetaContract, MetaContractResult, Metadata, Transaction};
