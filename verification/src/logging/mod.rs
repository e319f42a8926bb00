pub mod reporter;
