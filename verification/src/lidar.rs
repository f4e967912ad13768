//! The LIDAR packet codec: return-block codecs (one per profile), the
//! column codec that composes a header with one return block, and the
//! packet codec that composes a fixed number of columns.

pub mod block;
pub mod column;
pub mod packet;
pub mod dual_returns;
pub mod fusa_dual_returns;
pub mod header;
pub mod profile;
pub mod single_returns;
pub mod single_returns_low_data_rate;

pub use block::Block;
pub use column::{Column, Header, Status};
pub use packet::Packet;
pub use dual_returns::DualReturnBlock;
pub use fusa_dual_returns::FuSaDualReturnBlock;
pub use profile::Profile;
pub use single_returns::SingleReturnBlock;
pub use single_returns_low_data_rate::SingleLowDataRateReturnBlock;
