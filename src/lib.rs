//! Assembly of the ordered directory list used to locate helper executables,
//! and its rendering into the value of the executable search variable.

pub mod path_list;
pub mod platform;
pub mod search_paths;
pub mod user_dirs;
