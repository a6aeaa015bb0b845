pub mod get;
pub mod list;
pub mod source_list;
pub mod summary;
pub mod history;
pub mod note_get;
pub mod params;
pub mod note_create;
pub mod note_list;
pub mod source_fulltext;
pub mod source_guide;
pub mod source_add_youtube;
pub mod source_get;
pub mod add_source_flow;
pub mod status;
