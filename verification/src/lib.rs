//! Sans-I/O core of a host security posture scanner.
//!
//! Five collectors look at one subsystem each: registered antivirus
//! products, the firewall, the account-control configuration, the local
//! accounts and the pending updates. None of them touches the operating
//! system. A collector is a state machine: it hands its caller one action at
//! a time, the caller performs it and reports the outcome, and the collector
//! decides what happens next, decodes what was read, and asks back every
//! resource it was granted, in reverse order of acquisition, before it hands
//! out its result.
//!
//! * [`protocol`] holds the vocabulary of actions and answers and the
//!   ledger of held resources, with the laws that every collector inherits.
//! * [`session`] judges the status of opening the per-call session.
//! * [`value`] reads typed values out of tagged containers.
//! * [`status`] decodes the packed status code of a security product.
//! * [`security_center`], [`antivirus`] and [`firewall`] make up the two
//!   product collectors; [`uac`], [`uas`] and [`updates`] the other three.
//!   [`update_runs`] states what a whole update search returns.
//! * [`defender`] decides the state of the built-in antimalware product
//!   from registry reads, and [`time`] tells the time of day for reports.

pub mod antivirus;
pub mod defender;
pub mod firewall;
pub mod protocol;
pub mod security_center;
pub mod session;
pub mod status;
pub mod time;
pub mod uac;
pub mod uas;
pub mod update_runs;
pub mod updates;
pub mod value;
