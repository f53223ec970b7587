//! Decisions of an authentication service: the errors it answers with, how a
//! session identity is resolved, and the steps of the credential and GitHub
//! OAuth flows. The HTTP server, the session store and the user store drive
//! these functions and perform the input and output they ask for.

pub mod error;
pub mod middleware;
pub mod routes;
