pub mod parsed;
