pub mod decimal;
