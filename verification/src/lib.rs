//! A small web-service scaffold around a verified lifecycle
//! coordinator: named background tasks and an HTTP listener race
//! against OS signals, the first completion decides shutdown, every
//! remaining task is cancelled, and an ordered teardown registry runs
//! exactly once before the outcome is reported. Beside the coordinator
//! stand the service's static page model and its liveness endpoints.

pub mod decimal;
pub mod health_check;
pub mod lifecycle;
pub mod pages;
pub mod service_setup;
