pub mod token_oc_data;
