pub mod acc;
pub mod cert;
pub mod dir;
pub mod error;
pub mod json;
pub mod jwt;
pub mod model;
pub mod providers;
pub mod req;
pub mod trans;
pub mod util;

pub use acc::Account;
pub use cert::Certificate;
pub use error::{AcmeError, AcmeErrorKind, AcmeIdentifier, AcmeSubproblem, Error};
pub use model::{Directory, DirectoryMetadata};
pub use providers::{AcmeProvider, DynamicLetsEncrypt, LetsEncrypt, LetsEncryptStaging};
