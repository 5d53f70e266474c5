//! The engine of a git-hook package manager.
//!
//! A package of hooks is named by an identifier such as `owner/name`. The
//! engine brings the identifier into canonical form ([`util`]), looks the
//! package up in a cache ([`package::cache`]), resolves a name and version
//! against a list of repositories ([`package::resolve`]), fetches the
//! package into a project ([`package`], [`project`]), and schedules the
//! hooks that its manifest ([`config`]) declares ([`conditions`]).
//!
//! Nothing here reads a file, asks the network or looks at the
//! environment. Whoever uses the engine does that and tells it what was
//! found ([`paths`], [`os`]); the engine decides, and its decisions are
//! stated in contracts and proved.
pub mod conditions;
pub mod config;
pub mod errors;
pub mod os;
pub mod package;
pub mod paths;
pub mod project;
pub mod text;
pub mod util;
