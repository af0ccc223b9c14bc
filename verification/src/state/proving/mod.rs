pub mod plonky2_state;
