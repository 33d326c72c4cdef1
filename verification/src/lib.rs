//! A stack of nested resource scopes.
//!
//! A scope store holds the frames of the scopes that are live in one
//! execution context, the table of the resources that are active, and the
//! cookie of the innermost live scope. Scopes are declared, entered and
//! exited in strictly nested order; only the innermost live scope may reach
//! the store's resources, and a value leaves a scope only through the escape
//! slot that an enclosing scope reserved for it.

pub mod active;
pub mod aspect;
pub mod data;
pub mod effective_scope;
pub mod frame;
pub mod frame_stack;
pub mod invariants;
pub mod model;
pub mod raw;
pub mod runtime;
pub mod scope;
pub mod store;

pub use active::ContextScope;
pub use active::EscapableHandleScope;
pub use active::HandleScope;
pub use active::TryCatch;
pub use effective_scope::EffectiveScope;
pub use runtime::Context;
pub use runtime::Data;
pub use runtime::Integer;
pub use runtime::Isolate;
pub use runtime::Local;
pub use runtime::Message;
pub use runtime::Primitive;
pub use runtime::RootHandleScopeParam;
pub use runtime::Value;
pub use scope::AddContextScope;
pub use scope::AddEscapableHandleScope;
pub use scope::AddHandleScope;
pub use scope::AddTryCatch;
pub use scope::GetEffectiveScope;
pub use store::ScopeStore;

