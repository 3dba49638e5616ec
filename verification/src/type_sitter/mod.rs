pub mod ink;
