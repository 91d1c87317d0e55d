pub mod dep_set;
pub mod genesis;
pub mod laws;
pub mod mock_chain;
pub mod model;
pub mod provider;
pub mod resolver;
