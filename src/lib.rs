pub mod snippet;
pub mod store;
pub mod text;
pub mod model;

pub use model::{App, Mode};
pub use snippet::Snippet;
pub use store::{SnippetFile, StoredSnippet};
