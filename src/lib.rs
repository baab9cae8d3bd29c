pub mod content;
pub mod laws;
pub mod local_tasks;
pub mod model;
pub mod registry;
pub mod services_sidebar;
pub mod sidebar;
pub mod task;
mod timestamp;
pub mod toast;
