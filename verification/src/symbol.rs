//! Symbol resolution: turning the address that the platform's symbol lookup
//! returned for a name or ordinal key into either a resolved callable or a
//! `ProcNotFound` error, and building the diagnostic a generated wrapper
//! fails with.
//!
//! The platform lookup itself happens outside this crate; `get_proc` is the
//! decision that follows it, verified for every address the lookup may have
//! returned.

use vstd::prelude::*;

use crate::cache::DllHandle;

verus! {

/// The key under which one exported function is resolved: by name, or by its
/// position in the library's export table.
#[derive(Debug)]
pub enum SymbolKey {
    Name(String),
    Ordinal(u16),
}

/// The runtime error surface: a failed library load, or a symbol the loaded
/// library does not export. Each carries the context needed to format a
/// diagnostic.
#[derive(Debug)]
pub enum DllError {
    LoadFailed { lib: String },
    ProcNotFound { lib: String, symbol: SymbolKey },
}

/// A resolved export: a non-null raw address that the caller may reinterpret
/// as a callable of the declared signature. The reinterpretation itself is
/// the caller's narrow unsafe boundary; it never happens here.
#[derive(Clone, Copy, PartialEq, Eq, Structural, Debug)]
pub struct ProcAddress {
    pub addr: usize,
}

/// What resolution returns for each address the platform lookup may hand
/// back: the null address means the export was not found, any other address
/// is the resolved callable. The outcome depends on the address alone, never
/// on which key (name or ordinal) was looked up.
pub open spec fn spec_resolve(raw_addr: usize, lib: String, symbol: SymbolKey) -> Result<
    ProcAddress,
    DllError,
> {
    if raw_addr == 0 {
        Err(DllError::ProcNotFound { lib, symbol })
    } else {
        Ok(ProcAddress { addr: raw_addr })
    }
}

/// The decision after the platform's symbol lookup: a null address becomes a
/// `ProcNotFound` error naming the library and the symbol key; any other
/// address is returned as the resolved callable.
pub fn get_proc(raw_addr: usize, lib: String, symbol: SymbolKey) -> (r: Result<
    ProcAddress,
    DllError,
>)
    ensures
        r == spec_resolve(raw_addr, lib, symbol),
        r is Ok <==> raw_addr != 0,
{
    if raw_addr == 0 {
        Err(DllError::ProcNotFound { lib, symbol })
    } else {
        Ok(ProcAddress { addr: raw_addr })
    }
}

/// Two lookups that the platform answers with the same non-null address —
/// for instance a name and an ordinal that denote the same export — resolve
/// to the same address, so invoking either resolved callable with identical
/// arguments runs the same code.
pub proof fn lemma_resolve_key_independent(
    raw_addr: usize,
    lib_a: String,
    symbol_a: SymbolKey,
    lib_b: String,
    symbol_b: SymbolKey,
)
    requires
        raw_addr != 0,
    ensures
        spec_resolve(raw_addr, lib_a, symbol_a) == spec_resolve(raw_addr, lib_b, symbol_b),
        spec_resolve(raw_addr, lib_a, symbol_a) == Ok::<ProcAddress, DllError>(
            (ProcAddress { addr: raw_addr }),
        ),
{
}

/// A name key as the platform's symbol lookup receives it: the name's
/// bytes followed by the null terminator. Exported names are ASCII; a name
/// that is not cannot be encoded for the lookup and yields `None`.
pub fn name_lpcstr_bytes(name: &str) -> (r: Option<Vec<u8>>)
    ensures
        r is Some <==> name.is_ascii(),
        r matches Some(v) ==> {
            &&& v@.len() == name@.len() + 1
            &&& forall|i: int| 0 <= i < name@.len() ==> v@[i] == name@[i] as u8
            &&& v@[name@.len() as int] == 0u8
        },
{
    if !name.is_ascii() {
        return None;
    }
    proof {
        vstd::string::is_ascii_spec_bytes(name);
    }
    let mut v: Vec<u8> = vstd::slice::slice_to_vec(name.as_bytes());
    v.push(0u8);
    Some(v)
}

/// The runtime layer's view of a completed acquisition, for callers that
/// want a recoverable error instead of a wrapper's termination: a load that
/// produced the null handle is a `LoadFailed` error naming the library; any
/// other handle is success.
pub fn acquire_result(h: DllHandle, lib: String) -> (r: Result<DllHandle, DllError>)
    ensures
        h.addr != 0 ==> r == Ok::<DllHandle, DllError>(h),
        h.addr == 0 ==> r == Err::<DllHandle, DllError>((DllError::LoadFailed { lib })),
{
    if h.is_null() {
        Err(DllError::LoadFailed { lib })
    } else {
        Ok(h)
    }
}

/// The diagnostic a generated wrapper terminates with when its binding
/// fails: it names both the declared function and the library.
pub fn wrapper_error_message(func: &str, lib: &str) -> (m: String)
    ensures
        m@ == "Could not load function "@ + func@ + " from "@ + lib@,
{
    let mut m = String::from_str("Could not load function ");
    m.append(func);
    m.append(" from ");
    m.append(lib);
    m
}

} // verus!
