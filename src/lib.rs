//! Object-pool editing core for an ISOBUS Virtual Terminal designer: the
//! relationship schema, the object pool model, object metadata and naming, and
//! the transactional project state with undo and redo.

pub mod editor_project;
pub mod object_info;
pub mod object_pool;
pub mod object_type;
pub mod possible_events;
pub mod relationships;
pub mod smart_naming;
pub mod text;

pub use editor_project::{EditorProject, SortOrder};
pub use object_info::ObjectInfo;
pub use object_pool::{Object, ObjectPool, NULL_OBJECT_ID};
pub use object_type::{ObjectType, VtVersion};
pub use relationships::get_allowed_child_refs;
