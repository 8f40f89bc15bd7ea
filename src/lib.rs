//! Bindings that let native plugin code embed into a stack-based scripting VM:
//! the rules for handing numbers to the VM, error classification and messages,
//! reference and call discipline on the VM stack, tagged userdata, and the
//! queue through which other threads hand work to the VM thread.

pub mod argcheck;
pub mod calls;
pub mod checkpoint;
pub mod consts;
pub mod error;
pub mod function_return;
pub mod number;
pub mod task_queue;
pub mod text;
pub mod userdata;
