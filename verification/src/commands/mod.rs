pub mod recap;
