pub mod image;
pub mod new_user;
pub mod post;
pub mod text_body;
pub mod user_email;
pub mod user_password;
pub mod username;

pub use image::Image;
pub use new_user::NewUser;

pub use post::NewPost;
pub use text_body::{PostBody, PostError};
pub use user_email::UserEmail;

pub use user_password::{PassHash, PasswordError};
pub use username::Username;
