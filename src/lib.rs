// A relay between a framed transport connection and a duplex byte stream:
// the decisions of a session, the capture of outbound chunks, the echo of
// relayed payloads, and control over a transport's read deadline.

pub mod bridge;
pub mod deadline;
pub mod echo;
pub mod pump;
pub mod trace;
