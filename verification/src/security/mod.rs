pub mod hex;
pub mod manifest;
pub mod taint;
pub mod audit;
pub mod secrets;
