//! Building blocks for asynchronous programs: one-shot completion slots,
//! request/response pairs, a lookup queue that groups concurrent requests
//! for the same key, and the decisions that drive a restartable task.

pub mod manual;
pub mod sync;
pub mod channel;
pub mod lookup;
pub mod enums;
pub mod bitrigger;
pub mod task;
