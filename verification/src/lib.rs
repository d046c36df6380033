//! Verified building blocks for PostgreSQL extensions: the value
//! representation the server hands to extension functions, the call frame it
//! builds for each call, the module descriptor it reads at load time, and the
//! rewrite that turns an ordinary function declaration into an exported entry
//! point.

pub mod datum;
pub mod export;
pub mod fmgr;
pub mod magic;
pub mod node;
pub mod varlena;
pub mod vector;

pub use datum::{Datum, DatumPtr, MemoryContext};
pub use export::{expand_pg_export, plugin_registrar};
pub use fmgr::{FmgrInfo, FunctionCallInfo, FunctionCallInfoData, FUNC_MAX_ARGS};
pub use magic::{pg_module, Pg_magic_func, Pg_magic_struct};
pub use node::{Node, NodeTag};
pub use varlena::{Bytea, BpChar, DecodeError, PgConvert, Text, VarChar, Varlena};
pub use vector::{PgType, PgVector};
