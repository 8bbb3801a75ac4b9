pub mod instructions;
