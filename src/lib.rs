//! A terminal client for a feed-aggregation service: the data model, the
//! view-models of the entry list and the reading view, navigation between
//! views, and the dispatcher that reduces messages to state changes and
//! background effects.

pub mod config;
pub mod feed;
pub mod input;
pub mod list;
pub mod message;
pub mod model;
pub mod nav;
pub mod reader;
pub mod text;
