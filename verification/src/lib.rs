//! Order construction for a prediction-market exchange client: validation of
//! limit and market orders, the fixed-point arithmetic that turns prices and
//! sizes into maker and taker amounts, and the routing decisions of the
//! conditional-token contract client.
pub mod decimal;
pub mod types;
pub mod order_builder;
pub mod market_order;
pub mod order_laws;
pub mod ctf;
pub mod overflow;
