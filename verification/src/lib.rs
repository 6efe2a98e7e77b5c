pub mod error;
pub mod locator;
pub mod session;

pub use error::TokenizerError;
pub use locator::ModelPathKind;
pub use locator::PathStat;
pub use session::Session;
