//! Client core for a remote tabular engine: a correlation registry that
//! multiplexes request/response exchanges and event subscriptions over one
//! ordered channel, and the `Table` / `View` proxies that speak the protocol.
//!
//! The transport, and the waiting on responses, belong to the caller: the
//! library builds each request envelope, registers its handler before the
//! envelope leaves, routes each inbound response, and interprets the payloads.

pub mod client;
pub mod config;
pub mod error;
pub mod proto;
pub mod table;
pub mod view;

pub use client::{Client, ManyCallback, OnceCallback, Registry, Route, TableData};
pub use config::{Aggregate, Expressions, Filter, FilterTerm, Scalar, Sort, SortDir, ViewConfig, ViewConfigUpdate};
pub use error::{ClientError, ClientResult};
pub use proto::ColumnType;
pub use table::{Table, TableInitOptions, UpdateOptions, ValidateExpressionsData};
pub use view::{Dimensions, OnUpdateMode, OnUpdateOptions, View, ViewWindow};
