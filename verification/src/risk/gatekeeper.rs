//! The pre-trade risk gatekeeper: price collars, position limits and the
//! order queue that every outbound order passes through.

pub mod fat_finger_collars;
pub mod lock_free_order_queue;
pub mod position_accumulator;
pub mod pre_trade_filter;
pub mod pre_trade_interceptor;
pub mod price_collar;
