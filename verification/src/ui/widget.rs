pub mod dialog;
