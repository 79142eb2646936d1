pub mod df;
