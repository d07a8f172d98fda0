pub mod term;

pub use term::Terminal;
