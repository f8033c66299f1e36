//! A small web listing of to-do items kept in one relational table.
//!
//! The request pipeline (acquire a pooled connection, run the listing query,
//! decode every row, render the page, answer) is modelled here as a state
//! machine whose every decision is verified; the program around it performs
//! the database and network work that the machine asks for.
pub mod decode;
pub mod handler;
pub mod laws;
pub mod render;
pub mod response;

pub use decode::{decode_row, CellKind, CellValue, MapError, TodoEntry, ID_COLUMN, TEXT_COLUMN};
pub use handler::{Action, Event, RequestHandler, Stage, LISTING_QUERY};
pub use render::{
    render_page, RenderError, ITEM_CLOSE, ITEM_OPEN, ITEM_SEPARATOR, PAGE_HEAD, PAGE_TAIL,
};
pub use response::{
    ErrorKind, FetchError, HandlerError, Response, HTML_CONTENT_TYPE, POOL_MESSAGE, QUERY_MESSAGE,
    RENDER_MESSAGE, STATUS_OK, STATUS_SERVER_ERROR, TEXT_CONTENT_TYPE,
};
