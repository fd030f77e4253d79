//! Text rendering and navigation engine for a terminal text editor.
pub mod text;
pub mod width;
pub mod segmentation;
pub mod position;
pub mod annotated_string;
pub mod line;
pub mod buffer;
pub mod command;
pub mod attribute;
pub mod terminal;
pub mod document_status;
pub mod view;
pub mod highlighter;
pub mod ui_components;
pub mod editor;
