pub mod imgur;
