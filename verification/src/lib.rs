//! The clipboard worker of a clipboard daemon, as a verified state machine.
//!
//! The worker sits between three parts of the daemon that it does not own: the
//! source of clipboard events, the clip store that holds the managed clips in
//! memory, and the history store that keeps them across restarts. It decides
//! what is done with each of them and in which order; the caller does the work
//! and tells the worker how it went.
//!
//! A caller starts a worker with [`worker::start`] and then, over and over,
//! does what [`worker::ClipboardWorker::pending`] names and hands the outcome
//! to [`worker::ClipboardWorker::step`], until the action named is
//! [`protocol::Action::Finish`].
//!
//! - [`clip`]: clips, and the events that carry them.
//! - [`protocol`]: the actions that the worker asks for, the replies to them,
//!   and the incidents that a reply can tell of.
//! - [`worker`]: the worker and its stages.
//! - [`daemon`]: the daemon around the worker, as the laws speak of it.
//! - [`laws`]: what is proved of the worker.

pub mod clip;
pub mod protocol;
pub mod worker;
pub mod daemon;
pub mod laws;
