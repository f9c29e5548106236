//! Verified core of a session-switching pipeline for an installed client
//! application: it terminates running client processes, resolves the
//! installation path of the client's launcher, relaunches it, and (on the
//! one platform with an automation interface) generates a script that types
//! stored credentials into the client's login form.
//!
//! All OS interaction (process control, filesystem checks, environment
//! variables) is delegated to an unverified driver: the library decides
//! *what* to run and proves the decisions correct; the driver performs the
//! spawns and reports their outcomes back.

pub mod decimal;
pub mod escape;
pub mod locate;
pub mod pipeline;
pub mod platform;
pub mod script;
pub mod spawn;
mod text;
