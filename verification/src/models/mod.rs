//! A collection of data types for working with various Spectacles modules.
pub mod channel;
pub mod gateway;
pub mod guild;
pub mod invite;
pub mod message;
pub mod presence;
pub mod snowflake;
pub mod user;
pub mod voice;

pub use snowflake::Snowflake;
pub use user::User;
