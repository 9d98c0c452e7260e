pub mod clients;
