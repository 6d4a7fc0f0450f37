//! Lazy binding for functions exported by a dynamically loaded shared
//! library: a per-library handle cache that loads on first use, a symbol
//! resolver keyed by name or export ordinal, and a compiler that turns a
//! declarative block of foreign function declarations into per-function
//! binding plans.

pub mod cache;
pub mod descriptor;
pub mod flags;
pub mod symbol;

pub use cache::DllCache;
pub use cache::DllHandle;
pub use descriptor::Attr;
pub use descriptor::AttrInput;
pub use descriptor::AttrValue;
pub use descriptor::ArgPat;
pub use descriptor::CompileError;
pub use descriptor::FnDecl;
pub use descriptor::ForeignItem;
pub use descriptor::LibraryDescriptor;
pub use descriptor::WrapperPlan;
pub use descriptor::find_link_ordinal;
pub use descriptor::parse_extern_block;
pub use descriptor::wide_null;
pub use symbol::DllError;
pub use symbol::ProcAddress;
pub use symbol::SymbolKey;
pub use symbol::acquire_result;
pub use symbol::get_proc;
pub use symbol::name_lpcstr_bytes;
pub use symbol::wrapper_error_message;
