pub mod choice;
pub mod engine;
pub mod number;
pub mod randomizable;

pub use choice::RandomChoice;
pub use engine::{generate_random_u64, init_state, mix, Generator};
pub use number::RandomNumber;
pub use randomizable::Randomizable;
