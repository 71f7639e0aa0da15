//! What the data sources do apart from fetching: building statements from
//! what was fetched.

pub mod akshare;
pub mod mock;
pub mod tushare;

pub use akshare::AkshareClient;
pub use mock::MockDataSource;
