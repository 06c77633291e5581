//! Pagination over a query: page counts, page windows, and a cursor that
//! moves from page to page.

pub mod errors;
pub mod layout;
pub mod page;
pub mod paginator;
pub mod query;

pub use errors::{PaginationError, SourceFault};
pub use page::Page;
pub use paginator::SqlitePaginator;
pub use query::{BaseQuery, PageWindow};
