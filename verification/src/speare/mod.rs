//! The actor runtime's verified core.
pub mod exit;
pub mod lifecycle;
pub mod mini;
pub mod pubsub;
pub mod registry;
pub mod req_res;
pub mod restart;
pub mod streams;
pub mod watch;

pub use exit::ExitReason;
pub use lifecycle::{AfterExit, CtxCore, Exit, ProcAction, ProcMsg, Run};
pub use pubsub::{PubSub, PubSubError, Subscriber, TopicEntry};
pub use registry::{Registry, RegistryError};
pub use req_res::ReqErr;
pub use restart::{Backoff, Limit, Restart, Supervision};
pub use streams::{Merge, NoStream, SourceSet};
pub use watch::{NoWatch, OnErrTerminate};
