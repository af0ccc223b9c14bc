pub mod builder;
pub mod cell;
pub mod cell_serialization;
pub mod parser;
pub mod verifiy_boc;
