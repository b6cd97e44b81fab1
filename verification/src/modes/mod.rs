pub mod edit;
pub mod home;
pub mod lock;
pub mod view;
