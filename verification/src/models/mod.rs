pub mod todo;
pub mod user;

pub use todo::TodoItem;
pub use todo::TodoItemDTO;
pub use user::User;
pub use user::UserDTO;
