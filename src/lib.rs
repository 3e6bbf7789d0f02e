//! Data model and request-route logic of a command-line client for a
//! source-control hosting platform's REST API.

pub mod access_token;
pub mod branches;
pub mod commit;
pub mod endpoint;
pub mod events;
pub mod features;
pub mod groups;
pub mod projects;
pub mod route;
pub mod runner;
pub mod user;

pub use access_token::AccessToken;
pub use branches::{Branch, BranchCreatePayload, BranchQuery};
pub use events::Event;
pub use features::{Definition, Feature, Gate};
pub use runner::Runner;
