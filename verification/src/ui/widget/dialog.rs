pub mod setup;
