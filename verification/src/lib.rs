//! Collects marketplace listing and sale data for named collections:
//! resolves display names to collection identifiers, walks a cursor-paginated
//! graph API, normalizes the raw item documents into flat records, and
//! encodes them for persistence.

pub mod catalog;
pub mod docs;
pub mod normalize;
pub mod numbers;
pub mod paginate;
pub mod persist;
pub mod query;
pub mod resolver;
pub mod text;
