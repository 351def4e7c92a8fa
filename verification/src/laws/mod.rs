//! What holds of the program as a whole, whatever it is told.

pub mod asked;
pub mod browsing;
pub mod deletion;
pub mod focus;
pub mod forms;
pub mod program;
pub mod rows;
pub mod runs;
pub mod said;
pub mod saves;
pub mod sessions;
pub mod shown;
pub mod steady;
pub mod tabs;
pub mod variables;
