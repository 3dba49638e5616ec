pub mod constrained_value;
