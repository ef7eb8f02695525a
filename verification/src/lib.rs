//! A lightweight process supervisor for a single dependent local service.
//!
//! On host startup the supervisor derives the backend's working directory and
//! interpreter path from the host's build directory, builds a fixed argument
//! vector for a loopback web server, and plans the capture of the child's
//! output into two append-mode log files. After the one spawn attempt it
//! turns the outcome into a one-line status record. The planning and the
//! record construction are verified here; the host performs the file and
//! process work that the plan describes.

pub mod plan;
pub mod status;
