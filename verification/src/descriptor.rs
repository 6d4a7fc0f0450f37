//! The interface descriptor compiler: from a declared library name and a
//! block of foreign function declarations to one binding plan per function.
//!
//! A declaration is carried here as plain data — its name, its attributes,
//! its argument binding forms — extracted from whatever surface syntax the
//! caller parses. The compiler interprets the ordinal attribute, rejects
//! blocks it cannot compile, encodes the library name the way the platform
//! loader wants it (UTF-16, null-terminated), and fixes per function the
//! symbol key, the forwarded argument names and the failure diagnostic.

use vstd::prelude::*;

use crate::symbol::ProcAddress;
use crate::symbol::SymbolKey;
use crate::symbol::wrapper_error_message;

verus! {

/// A literal value carried by an attribute: an integer that fits an export
/// ordinal, or anything else.
#[derive(Clone, Copy, PartialEq, Eq, Structural, Debug)]
pub enum AttrValue {
    Int(u16),
    Other,
}

/// The shape of an attribute's input: a parenthesised list of values, a
/// single value after `=`, or a bare path.
pub enum AttrInput {
    List(Vec<AttrValue>),
    NameValue(AttrValue),
    Plain,
}

/// One attribute on a declaration. An attribute that is not in meta form
/// cannot name a key, so the ordinal search skips it.
pub enum Attr {
    Meta { name: String, input: AttrInput },
    Unparsable,
}

/// True when the attribute parses to meta form and names the ordinal key.
pub open spec fn is_link_ordinal_attr(a: Attr) -> bool {
    a matches Attr::Meta { name, input } && name@ == "link_ordinal"@
}

/// The ordinal an attribute's input supplies: a list holding exactly one
/// integer, or a name-value form whose value is an integer. Any other shape
/// supplies none — the binding falls back to lookup by name.
pub open spec fn spec_attr_ordinal(input: AttrInput) -> Option<u16> {
    match input {
        AttrInput::List(vals) => if vals@.len() == 1 {
            match vals@[0] {
                AttrValue::Int(n) => Some(n),
                AttrValue::Other => None,
            }
        } else {
            None
        },
        AttrInput::NameValue(v) => match v {
            AttrValue::Int(n) => Some(n),
            AttrValue::Other => None,
        },
        AttrInput::Plain => None,
    }
}

/// The ordinal a declaration's attribute list supplies: the first attribute
/// that names the ordinal key decides, by its shape alone; the search does
/// not continue past it.
pub open spec fn spec_find_link_ordinal(attrs: Seq<Attr>) -> Option<u16>
    decreases attrs.len(),
{
    if attrs.len() == 0 {
        None
    } else if is_link_ordinal_attr(attrs[0]) {
        match attrs[0] {
            Attr::Meta { name, input } => spec_attr_ordinal(input),
            Attr::Unparsable => None,
        }
    } else {
        spec_find_link_ordinal(attrs.drop_first())
    }
}

fn attr_ordinal(input: &AttrInput) -> (r: Option<u16>)
    ensures
        r == spec_attr_ordinal(*input),
{
    match input {
        AttrInput::List(vals) => {
            if vals.len() == 1 {
                match vals[0] {
                    AttrValue::Int(n) => Some(n),
                    AttrValue::Other => None,
                }
            } else {
                None
            }
        },
        AttrInput::NameValue(v) => match v {
            AttrValue::Int(n) => Some(*n),
            AttrValue::Other => None,
        },
        AttrInput::Plain => None,
    }
}

/// Find the explicit export ordinal a declaration carries, if any: the first
/// attribute naming the ordinal key is interpreted by its shape, and any
/// shape that supplies no integer means lookup by name.
pub fn find_link_ordinal(attrs: &Vec<Attr>) -> (r: Option<u16>)
    ensures
        r == spec_find_link_ordinal(attrs@),
{
    let key: String = String::from_str("link_ordinal");
    let n: usize = attrs.len();
    let mut i: usize = 0;
    proof {
        assert(attrs@.skip(0) =~= attrs@);
    }
    while i < n
        invariant
            n == attrs@.len(),
            i <= n,
            key@ == "link_ordinal"@,
            spec_find_link_ordinal(attrs@) == spec_find_link_ordinal(attrs@.skip(i as int)),
            forall|k: int| 0 <= k < i ==> !is_link_ordinal_attr(attrs@[k]),
        decreases n - i,
    {
        assert(attrs@.skip(i as int)[0] == attrs@[i as int]);
        match &attrs[i] {
            Attr::Meta { name, input } => {
                if name.eq(&key) {
                    assert(is_link_ordinal_attr(attrs@[i as int]));
                    return attr_ordinal(input);
                }
            },
            Attr::Unparsable => {},
        }
        proof {
            assert(!is_link_ordinal_attr(attrs@[i as int]));
            assert(attrs@.skip(i as int).drop_first() =~= attrs@.skip(i as int + 1));
        }
        i = i + 1;
    }
    proof {
        assert(attrs@.skip(n as int) =~= Seq::<Attr>::empty());
    }
    None
}

/// The UTF-16 code units that encode one character: one unit below `0x10000`,
/// otherwise a surrogate pair.
pub open spec fn utf16_units(c: char) -> Seq<u16> {
    let v = c as u32;
    if v < 0x10000 {
        seq![v as u16]
    } else {
        seq![((v - 0x10000) / 0x400 + 0xD800) as u16, ((v - 0x10000) % 0x400 + 0xDC00) as u16]
    }
}

/// The UTF-16 encoding of a character sequence.
pub open spec fn utf16_seq(s: Seq<char>) -> Seq<u16>
    decreases s.len(),
{
    if s.len() == 0 {
        Seq::empty()
    } else {
        utf16_units(s[0]) + utf16_seq(s.drop_first())
    }
}

/// The library name as the platform loader expects it: its UTF-16 encoding
/// followed by the null terminator.
pub open spec fn wide_name(s: Seq<char>) -> Seq<u16> {
    utf16_seq(s) + seq![0u16]
}

proof fn lemma_utf16_seq_push(s: Seq<char>, c: char)
    ensures
        utf16_seq(s.push(c)) == utf16_seq(s) + utf16_units(c),
    decreases s.len(),
{
    if s.len() == 0 {
        assert(s.push(c)[0] == c);
        assert(s.push(c).drop_first() =~= Seq::<char>::empty());
        assert(utf16_seq(Seq::<char>::empty()) =~= Seq::<u16>::empty());
        assert(utf16_seq(s.push(c)) =~= utf16_seq(s) + utf16_units(c));
    } else {
        assert(s.push(c)[0] == s[0]);
        assert(s.push(c).drop_first() =~= s.drop_first().push(c));
        lemma_utf16_seq_push(s.drop_first(), c);
        assert(utf16_seq(s.push(c)) =~= utf16_seq(s) + utf16_units(c));
    }
}

fn push_utf16_units(out: &mut Vec<u16>, c: char)
    ensures
        final(out)@ == old(out)@ + utf16_units(c),
{
    proof {
        vstd::utf8::char_is_scalar(c);
    }
    let v: u32 = c as u32;
    if v < 0x10000 {
        out.push(v as u16);
        assert(final(out)@ =~= old(out)@ + utf16_units(c));
    } else {
        let off: u32 = v - 0x10000;
        assert(off < 0x100000) by {
            vstd::utf8::char_is_scalar(c);
        }
        assert(off / 0x400 < 0x400 && off % 0x400 < 0x400) by (nonlinear_arith)
            requires
                off < 0x100000,
        {
        }
        out.push((off / 0x400 + 0xD800) as u16);
        out.push((off % 0x400 + 0xDC00) as u16);
        assert(final(out)@ =~= old(out)@ + utf16_units(c));
    }
}

/// Encode a library name for the platform loader: UTF-16 code units followed
/// by the null terminator, exactly what the declared name denotes.
pub fn wide_null(name: &str) -> (r: Vec<u16>)
    ensures
        r@ == wide_name(name@),
{
    let n: usize = name.unicode_len();
    let mut out: Vec<u16> = Vec::new();
    let mut i: usize = 0;
    while i < n
        invariant
            n == name@.len(),
            i <= n,
            out@ == utf16_seq(name@.subrange(0, i as int)),
        decreases n - i,
    {
        let c: char = name.get_char(i);
        push_utf16_units(&mut out, c);
        proof {
            assert(name@.subrange(0, i as int).push(name@[i as int]) =~= name@.subrange(
                0,
                i as int + 1,
            ));
            lemma_utf16_seq_push(name@.subrange(0, i as int), name@[i as int]);
        }
        i = i + 1;
    }
    proof {
        assert(name@.subrange(0, n as int) =~= name@);
    }
    out.push(0u16);
    out
}

/// The compile-time identity of one declared library: its name, its load
/// option flags, and its name encoded the way the platform loader wants it.
pub struct LibraryDescriptor {
    pub name: String,
    pub flags: u32,
    pub wide_dll_name: Vec<u16>,
}

impl LibraryDescriptor {
    pub fn new(name: String, flags: u32) -> (d: LibraryDescriptor)
        ensures
            d.name@ == name@,
            d.flags == flags,
            d.wide_dll_name@ == wide_name(name@),
    {
        let wide: Vec<u16> = wide_null(name.as_str());
        LibraryDescriptor { name, flags, wide_dll_name: wide }
    }
}

/// One argument of a declared function: a binding the compiler can name —
/// a captured `name: type` argument or an inferred pattern — or a form it
/// cannot destructure, which rejects the block.
pub enum ArgPat {
    Captured(String),
    Inferred(String),
    Unsupported,
}

/// One declared foreign function: its name, its attributes and its argument
/// bindings.
pub struct FnDecl {
    pub name: String,
    pub attrs: Vec<Attr>,
    pub args: Vec<ArgPat>,
}

/// One item of a declaration block: a function declaration, or anything
/// else — which a block may not contain.
pub enum ForeignItem {
    Fn(FnDecl),
    Other,
}

/// A build-time rejection of a declaration block.
#[derive(Clone, Copy, PartialEq, Eq, Structural, Debug)]
pub enum CompileError {
    /// The block holds an item that is not a function declaration.
    NotAFunction,
    /// A function argument's binding form cannot be destructured.
    UnsupportedArgument,
}

/// Everything one generated wrapper needs at run time: the export's name,
/// the key to resolve it under, the argument names to forward, the encoded
/// library name for the loader, and the diagnostic for a failed binding.
pub struct WrapperPlan {
    pub name: String,
    pub symbol: SymbolKey,
    pub arg_names: Vec<String>,
    pub wide_dll_name: Vec<u16>,
    pub error_message: String,
}

impl WrapperPlan {
    /// The generated wrapper's failure policy: whatever address the
    /// platform's symbol lookup returned, a null address does not become a
    /// recoverable error — the wrapper terminates at once with this plan's
    /// diagnostic, which names the function and the library. A non-null
    /// address is the callable the wrapper invokes.
    pub fn bind<'a>(&'a self, raw_addr: usize) -> (r: Result<ProcAddress, &'a str>)
        ensures
            raw_addr != 0 ==> (r matches Ok(p) && p.addr == raw_addr),
            raw_addr == 0 ==> (r matches Err(m) && m@ == self.error_message@),
    {
        if raw_addr == 0 {
            Err(self.error_message.as_str())
        } else {
            Ok(ProcAddress { addr: raw_addr })
        }
    }
}

/// The identifier under which an argument is forwarded.
pub open spec fn spec_arg_name(a: ArgPat) -> Seq<char> {
    match a {
        ArgPat::Captured(s) => s@,
        ArgPat::Inferred(s) => s@,
        ArgPat::Unsupported => Seq::empty(),
    }
}

/// Why one item rejects the block, if it does: a non-function item, or an
/// argument the compiler cannot name.
pub open spec fn spec_item_error(it: ForeignItem) -> Option<CompileError> {
    match it {
        ForeignItem::Other => Some(CompileError::NotAFunction),
        ForeignItem::Fn(f) => if forall|j: int|
            0 <= j < f.args@.len() ==> !(f.args@[j] is Unsupported) {
            None
        } else {
            Some(CompileError::UnsupportedArgument)
        },
    }
}

/// The first rejection in a block, in declaration order.
pub open spec fn spec_first_error(items: Seq<ForeignItem>) -> Option<CompileError>
    decreases items.len(),
{
    if items.len() == 0 {
        None
    } else if spec_item_error(items[0]) is Some {
        spec_item_error(items[0])
    } else {
        spec_first_error(items.drop_first())
    }
}

/// What the binding plan generated for one declared function must hold: the
/// declared name; the symbol key the ordinal attribute selects, falling back
/// to the name; the argument identifiers in order; the null-terminated
/// UTF-16 library name; and a diagnostic naming both function and library.
pub open spec fn plan_matches(plan: WrapperPlan, item: ForeignItem, lib: Seq<char>) -> bool {
    match item {
        ForeignItem::Fn(f) => {
            &&& plan.name@ == f.name@
            &&& match spec_find_link_ordinal(f.attrs@) {
                Some(n) => plan.symbol == SymbolKey::Ordinal(n),
                None => plan.symbol matches SymbolKey::Name(s) && s@ == f.name@,
            }
            &&& plan.arg_names@.len() == f.args@.len()
            &&& forall|j: int|
                0 <= j < f.args@.len() ==> plan.arg_names@[j]@ == spec_arg_name(f.args@[j])
            &&& plan.wide_dll_name@ == wide_name(lib)
            &&& plan.error_message@ == "Could not load function "@ + f.name@ + " from "@ + lib
        },
        ForeignItem::Other => false,
    }
}

fn arg_names_of(args: &Vec<ArgPat>) -> (r: Result<Vec<String>, CompileError>)
    ensures
        r matches Ok(names) ==> {
            &&& names@.len() == args@.len()
            &&& forall|j: int| 0 <= j < args@.len() ==> names@[j]@ == spec_arg_name(args@[j])
            &&& forall|j: int| 0 <= j < args@.len() ==> !(args@[j] is Unsupported)
        },
        r matches Err(e) ==> e == CompileError::UnsupportedArgument && exists|j: int|
            0 <= j < args@.len() && args@[j] is Unsupported,
{
    let n: usize = args.len();
    let mut names: Vec<String> = Vec::new();
    let mut i: usize = 0;
    while i < n
        invariant
            n == args@.len(),
            i <= n,
            names@.len() == i,
            forall|j: int| 0 <= j < i ==> names@[j]@ == spec_arg_name(args@[j]),
            forall|j: int| 0 <= j < i ==> !(args@[j] is Unsupported),
        decreases n - i,
    {
        match &args[i] {
            ArgPat::Captured(s) => {
                names.push(String::from_str(s.as_str()));
            },
            ArgPat::Inferred(s) => {
                names.push(String::from_str(s.as_str()));
            },
            ArgPat::Unsupported => {
                return Err(CompileError::UnsupportedArgument);
            },
        }
        i = i + 1;
    }
    Ok(names)
}

fn compile_fn(dll_name: &str, f: &FnDecl) -> (r: Result<WrapperPlan, CompileError>)
    ensures
        r matches Ok(plan) ==> plan_matches(plan, ForeignItem::Fn(*f), dll_name@)
            && spec_item_error(ForeignItem::Fn(*f)) is None,
        r matches Err(e) ==> Some(e) == spec_item_error(ForeignItem::Fn(*f)),
{
    let names: Vec<String> = match arg_names_of(&f.args) {
        Ok(names) => names,
        Err(e) => {
            return Err(e);
        },
    };
    let symbol: SymbolKey = match find_link_ordinal(&f.attrs) {
        Some(n) => SymbolKey::Ordinal(n),
        None => SymbolKey::Name(String::from_str(f.name.as_str())),
    };
    let wide: Vec<u16> = wide_null(dll_name);
    let message: String = wrapper_error_message(f.name.as_str(), dll_name);
    Ok(
        WrapperPlan {
            name: String::from_str(f.name.as_str()),
            symbol,
            arg_names: names,
            wide_dll_name: wide,
            error_message: message,
        },
    )
}

proof fn lemma_first_error_skip(items: Seq<ForeignItem>, i: int)
    requires
        0 <= i <= items.len(),
        forall|k: int| 0 <= k < i ==> spec_item_error(items[k]) is None,
    ensures
        spec_first_error(items) == spec_first_error(items.skip(i)),
    decreases i,
{
    if i > 0 {
        lemma_first_error_skip(items, i - 1);
        assert(items.skip(i - 1)[0] == items[i - 1]);
        assert(items.skip(i - 1).drop_first() =~= items.skip(i));
    } else {
        assert(items.skip(0) =~= items);
    }
}

/// Compile one declaration block: from the declared library name and its
/// items to one binding plan per declared function, in order. The first item
/// that is not a function, or whose argument cannot be named, rejects the
/// whole block.
pub fn parse_extern_block(dll_name: &str, items: &Vec<ForeignItem>) -> (r: Result<
    Vec<WrapperPlan>,
    CompileError,
>)
    ensures
        r matches Ok(plans) ==> {
            &&& spec_first_error(items@) is None
            &&& plans@.len() == items@.len()
            &&& forall|i: int|
                0 <= i < items@.len() ==> plan_matches(plans@[i], items@[i], dll_name@)
        },
        r matches Err(e) ==> spec_first_error(items@) == Some(e),
{
    let n: usize = items.len();
    let mut plans: Vec<WrapperPlan> = Vec::new();
    let mut i: usize = 0;
    while i < n
        invariant
            n == items@.len(),
            i <= n,
            plans@.len() == i,
            forall|k: int| 0 <= k < i ==> plan_matches(plans@[k], items@[k], dll_name@),
            forall|k: int| 0 <= k < i ==> spec_item_error(items@[k]) is None,
        decreases n - i,
    {
        match &items[i] {
            ForeignItem::Fn(f) => {
                match compile_fn(dll_name, f) {
                    Ok(plan) => {
                        plans.push(plan);
                    },
                    Err(e) => {
                        proof {
                            lemma_first_error_skip(items@, i as int);
                            assert(items@.skip(i as int)[0] == items@[i as int]);
                        }
                        return Err(e);
                    },
                }
            },
            ForeignItem::Other => {
                proof {
                    lemma_first_error_skip(items@, i as int);
                    assert(items@.skip(i as int)[0] == items@[i as int]);
                }
                return Err(CompileError::NotAFunction);
            },
        }
        i = i + 1;
    }
    proof {
        lemma_first_error_skip(items@, n as int);
        assert(items@.skip(n as int) =~= Seq::<ForeignItem>::empty());
    }
    Ok(plans)
}

} // verus!
