//! Windows as the focus logic sees them: titles, visibility, and the cursor.

pub mod auto_focus_shift;
pub mod window_search;
