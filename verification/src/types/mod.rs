pub mod replaced;
