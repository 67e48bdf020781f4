pub mod pagination;
pub mod pagination_helper;
pub mod syntax_highlight;
pub mod time;
pub mod view_helper;
