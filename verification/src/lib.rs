//! Sum of the first `n` terms of a geometric sequence, computed by
//! orchestrating four arithmetic services (power, multiply, subtract,
//! divide). The library holds the service's identity, the routing of each
//! arithmetic step to its service, and the decision procedure that turns the
//! services' answers into the reply; the HTTP plumbing lives outside it.

pub mod api;
pub mod series;
pub mod laws;
pub mod openapi;
