//! Queues of database operations, their dispatch onto PostgreSQL connections,
//! the decisions of those connections, and the reading of their results.
pub mod decimal;
pub mod op;
pub mod pq_result;
pub mod op_base;
pub mod pq_conn;
pub mod op_queue;
pub mod opdb;
pub mod signal;
pub mod hello;
pub mod conn;
pub mod report;
