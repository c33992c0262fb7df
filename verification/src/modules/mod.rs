pub mod chicken;
