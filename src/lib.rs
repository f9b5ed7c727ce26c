//! JSON:API documents for application resources: resource objects, links,
//! relationships, error documents, input documents and content negotiation.
//!
//! Documents are written as JSON text. What only the application can
//! serialize, the attributes of a resource and the metadata of a link, comes
//! in as JSON text too, and is written as it stands.
//!
//! Choices where the format leaves room:
//! - the links of a resource are the links of its document, and a list's
//!   links are given with the list; no links means no `links` member;
//! - a document answer takes its status code from the caller, an error answer
//!   carries its own;
//! - an input document of the wrong shape or type is answered with 409
//!   Conflict, text that is not JSON with 400 Bad Request.
pub mod text;
pub mod resource;
pub mod links;
pub mod error;
pub mod document;
pub mod response;
pub mod input;
pub mod request;
pub mod relationship;
pub mod derive;

pub use links::Linkify;
pub use resource::ResourceIdentifiable;
pub use resource::ResourceType;
