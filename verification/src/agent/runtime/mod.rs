pub mod status;
pub mod worker;
pub mod board;
pub mod tools;
pub mod replies;
pub mod wait;
pub mod schema;
pub mod definitions;
pub mod toolsets;
pub mod steering;
pub mod toolloop;
pub mod lifecycle;
pub mod dispatch;
