//! Verified decision logic of the speare actor framework: supervision and
//! restart policies, actor lifecycles, child bookkeeping, the name registry,
//! topic-based publish/subscribe and the task tables of the minimal runtime.
pub mod speare;
pub mod keyed;
pub mod children;
pub mod named;
pub mod type_ids;
pub mod process_api;
pub mod id_map;
pub mod simple_api;
pub mod macros;

pub use crate::speare::{
    AfterExit, Backoff, CtxCore, Exit, ExitReason, Limit, Merge, NoStream, NoWatch, OnErrTerminate, ProcAction,
    ProcMsg, PubSub, PubSubError, Registry, RegistryError, ReqErr, Restart, Run, SourceSet, Subscriber,
    Supervision, TopicEntry,
};
