pub mod call;
pub mod ebo;

pub use call::BufferCall;
pub use ebo::EBO;
