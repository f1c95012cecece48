pub mod dispatch;
pub mod listing;
pub mod utils;

pub use dispatch::{dispatch, run, Action, Config};
pub use listing::{list_ls, shifted_date, standard_ls, Entry, EntryMeta, ListError, LongListItem};
