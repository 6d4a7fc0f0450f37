//! The lazy binding runtime, driven by a simulated platform loader: the
//! handle cache slot, the symbol resolver, and the generated wrapper's
//! bind-and-invoke path.

use windows_dll::ArgPat;
use windows_dll::Attr;
use windows_dll::AttrInput;
use windows_dll::AttrValue;
use windows_dll::DllCache;
use windows_dll::DllError;
use windows_dll::DllHandle;
use windows_dll::FnDecl;
use windows_dll::ForeignItem;
use windows_dll::SymbolKey;
use windows_dll::acquire_result;
use windows_dll::get_proc;
use windows_dll::name_lpcstr_bytes;
use windows_dll::parse_extern_block;

/// A simulated platform: one library whose export table maps an ordinal and
/// a name to addresses; address 0 is "no such export". The "address" of an
/// export is its 1-based index into `exports`.
struct StubPlatform {
    loads: usize,
    frees: usize,
    exports: Vec<(Option<u16>, &'static str, fn(i32) -> i32)>,
}

fn stub_double(x: i32) -> i32 {
    x * 2
}

impl StubPlatform {
    fn new() -> Self {
        StubPlatform { loads: 0, frees: 0, exports: vec![(Some(5), "Double", stub_double)] }
    }

    fn load(&mut self) -> DllHandle {
        self.loads += 1;
        DllHandle { addr: 0x7000 }
    }

    fn free(&mut self, _h: DllHandle) -> bool {
        self.frees += 1;
        true
    }

    fn lookup(&self, _h: DllHandle, key: &SymbolKey) -> usize {
        for (i, (ord, name, _)) in self.exports.iter().enumerate() {
            let hit = match key {
                SymbolKey::Ordinal(n) => *ord == Some(*n),
                SymbolKey::Name(s) => s.as_str() == *name,
            };
            if hit {
                return i + 1;
            }
        }
        0
    }

    fn invoke(&self, addr: usize, arg: i32) -> i32 {
        (self.exports[addr - 1].2)(arg)
    }
}

/// One complete acquisition: the cache's fast path, then the platform
/// loader on a miss, its result stored last-write-wins.
fn acquire(cache: &mut DllCache, platform: &mut StubPlatform) -> DllHandle {
    match cache.get() {
        Some(h) => h,
        None => {
            let loaded = platform.load();
            cache.load_and_cache_lib(loaded)
        }
    }
}

/// One complete release: the cache decides, the platform unloads.
fn release(cache: &mut DllCache, platform: &mut StubPlatform) -> bool {
    match cache.free_lib() {
        None => false,
        Some(h) => platform.free(h),
    }
}

#[test]
fn acquire_twice_loads_once() {
    let mut platform = StubPlatform::new();
    let mut cache = DllCache::empty();
    let h1 = acquire(&mut cache, &mut platform);
    let h2 = acquire(&mut cache, &mut platform);
    assert_eq!(h1.addr, h2.addr);
    assert!(!h1.is_null());
    assert_eq!(platform.loads, 1);
}

#[test]
fn release_never_acquired_is_false() {
    let mut platform = StubPlatform::new();
    let mut cache = DllCache::empty();
    assert!(!release(&mut cache, &mut platform));
    assert_eq!(platform.frees, 0);
    assert!(cache.get().is_none());
}

#[test]
fn release_after_acquire_resets_and_reloads() {
    let mut platform = StubPlatform::new();
    let mut cache = DllCache::empty();
    let h = acquire(&mut cache, &mut platform);
    assert!(!h.is_null());
    assert!(release(&mut cache, &mut platform));
    assert!(cache.get().is_none());
    let h2 = acquire(&mut cache, &mut platform);
    assert!(!h2.is_null());
    assert_eq!(platform.loads, 2);
    assert_eq!(platform.frees, 1);
}

#[test]
fn failed_load_is_retried_not_cached() {
    let mut cache = DllCache::empty();
    // The loader failed: its null result is stored all the same.
    let h = cache.load_and_cache_lib(DllHandle::null());
    assert!(h.is_null());
    // The next acquisition does not short-circuit on the remembered failure.
    assert!(cache.get().is_none());
}

#[test]
fn acquire_result_reports_load_failure() {
    match acquire_result(DllHandle { addr: 0 }, String::from("example.dll")) {
        Err(DllError::LoadFailed { lib }) => assert_eq!(lib, "example.dll"),
        _ => panic!("null handle must be a load failure"),
    }
    match acquire_result(DllHandle { addr: 0x7000 }, String::from("example.dll")) {
        Ok(h) => assert_eq!(h.addr, 0x7000),
        Err(_) => panic!("non-null handle must be success"),
    }
}

#[test]
fn duplicate_load_race_last_write_wins() {
    let mut platform = StubPlatform::new();
    let mut cache = DllCache::empty();
    // Two first-time callers each observe the empty slot...
    assert!(cache.get().is_none());
    assert!(cache.get().is_none());
    // ...each load independently, and each store; the last store survives.
    let ha = DllHandle { addr: 0x7000 };
    let hb = DllHandle { addr: 0x8000 };
    platform.loads += 2;
    let ra = cache.load_and_cache_lib(ha);
    let rb = cache.load_and_cache_lib(hb);
    // Every caller observed its own non-null handle.
    assert!(!ra.is_null());
    assert!(!rb.is_null());
    // The slot holds the handle of the last store, a real loader result.
    assert_eq!(cache.get().unwrap().addr, 0x8000);
}

#[test]
fn name_key_is_null_terminated_ascii() {
    assert_eq!(name_lpcstr_bytes("Double"), Some(b"Double\0".to_vec()));
    assert_eq!(name_lpcstr_bytes(""), Some(vec![0u8]));
    // A name outside ASCII cannot be encoded for the platform lookup.
    assert_eq!(name_lpcstr_bytes("D\u{f6}uble"), None);
}

#[test]
fn resolve_missing_symbol_is_proc_not_found() {
    let platform = StubPlatform::new();
    let h = DllHandle { addr: 0x7000 };
    let key = SymbolKey::Name(String::from("MissingExport"));
    let raw = platform.lookup(h, &key);
    match get_proc(raw, String::from("example.dll"), key) {
        Err(DllError::ProcNotFound { lib, symbol }) => {
            assert_eq!(lib, "example.dll");
            match symbol {
                SymbolKey::Name(s) => assert_eq!(s, "MissingExport"),
                SymbolKey::Ordinal(_) => panic!("key must be the name that was looked up"),
            }
        }
        _ => panic!("a null address must resolve to ProcNotFound"),
    }
}

#[test]
fn resolve_by_name_and_ordinal_agree() {
    let platform = StubPlatform::new();
    let h = DllHandle { addr: 0x7000 };
    let raw_by_ordinal = platform.lookup(h, &SymbolKey::Ordinal(5));
    let raw_by_name = platform.lookup(h, &SymbolKey::Name(String::from("Double")));
    let pa = get_proc(raw_by_ordinal, String::from("example.dll"), SymbolKey::Ordinal(5))
        .expect("ordinal lookup must resolve");
    let pb = get_proc(raw_by_name, String::from("example.dll"), SymbolKey::Name(String::from("Double")))
        .expect("name lookup must resolve");
    assert_eq!(pa.addr, pb.addr);
    assert_eq!(platform.invoke(pa.addr, 21), platform.invoke(pb.addr, 21));
}

#[test]
fn wrapper_scenario_ordinal_five_doubles() {
    // Declared: library "example.dll", fn double(x) with ordinal 5.
    let decl = ForeignItem::Fn(FnDecl {
        name: String::from("double"),
        attrs: vec![Attr::Meta {
            name: String::from("link_ordinal"),
            input: AttrInput::List(vec![AttrValue::Int(5)]),
        }],
        args: vec![ArgPat::Captured(String::from("x"))],
    });
    let items = vec![decl];
    let plans = parse_extern_block("example.dll", &items).expect("block must compile");
    assert_eq!(plans.len(), 1);
    let plan = &plans[0];
    assert_eq!(plan.name, "double");

    // The wrapper's call path against the platform stub.
    let mut platform = StubPlatform::new();
    let mut cache = DllCache::empty();
    let handle = acquire(&mut cache, &mut platform);
    let raw = platform.lookup(handle, &plan.symbol);
    let proc_addr = plan.bind(raw).expect("ordinal 5 is exported");
    assert_eq!(platform.invoke(proc_addr.addr, 21), 42);
}

#[test]
fn wrapper_scenario_missing_export_message() {
    let decl = ForeignItem::Fn(FnDecl {
        name: String::from("MissingExport"),
        attrs: vec![],
        args: vec![],
    });
    let items = vec![decl];
    let plans = parse_extern_block("example.dll", &items).expect("block must compile");
    let plan = &plans[0];

    let mut platform = StubPlatform::new();
    let mut cache = DllCache::empty();
    let handle = acquire(&mut cache, &mut platform);
    let raw = platform.lookup(handle, &plan.symbol);
    let message = match plan.bind(raw) {
        Err(m) => m,
        Ok(_) => panic!("the export does not exist"),
    };
    assert!(message.contains("MissingExport"));
    assert!(message.contains("example.dll"));
    assert_eq!(message, "Could not load function MissingExport from example.dll");
}
