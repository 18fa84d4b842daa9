//! The two generators, as functions from the source text of a struct
//! declaration to that text followed by the singleton `impl` for it.
use vstd::prelude::*;

verus! {

/// The fixed pieces of the `impl` block emitted by the safe generator, `SAFE_0`
/// to `SAFE_6`, in order; the struct's name goes between consecutive pieces.
pub const SAFE_0: &'static str = "\n\nimpl ";

pub const SAFE_1: &'static str = " {\n    fn instance_(instance: Option<Self>) -> &'static std::sync::RwLock<Self> {\n        static INSTANCE: std::sync::OnceLock<std::sync::RwLock<";

pub const SAFE_2: &'static str = ">> = std::sync::OnceLock::new();\n        if let Some(value) = instance {\n            let _ = INSTANCE.set(std::sync::RwLock::new(value));\n        }\n        INSTANCE.get().expect(\"";

pub const SAFE_3: &'static str = "\")\n    }\n\n    pub fn initialize(instance: Self) {\n        let _ = ";

pub const SAFE_4: &'static str = "::instance_(Some(instance));\n    }\n\n    pub fn w() -> std::sync::RwLockWriteGuard<'static, Self> {\n        ";

pub const SAFE_5: &'static str = "::instance_(None).write().unwrap()\n    }\n\n    pub fn r() -> std::sync::RwLockReadGuard<'static, Self> {\n        ";

pub const SAFE_6: &'static str = "::instance_(None).read().unwrap()\n    }\n}\n";

/// The fixed pieces of the `impl` block emitted by the unsafe generator
/// (`UNSAFE_0` to `UNSAFE_2`).
pub const UNSAFE_0: &'static str = "\n\nimpl ";

pub const UNSAFE_1: &'static str = " {\n    fn instance_() -> *mut Option<Self> {\n        static mut INSTANCE: Option<";

pub const UNSAFE_2: &'static str = "> = None;\n        unsafe { std::ptr::addr_of_mut!(INSTANCE) }\n    }\n\n    pub fn g() -> &'static mut Self {\n        unsafe { (*Self::instance_()).as_mut().unwrap() }\n    }\n\n    pub fn initialize(instance: Self) {\n        unsafe {\n            *Self::instance_() = Some(instance);\n        }\n    }\n}\n";

/// The message of the fatal failure raised when a safe singleton is read or
/// written before it was initialized.
pub open spec fn not_initialized_message(name: Seq<char>) -> Seq<char> {
    "Singleton "@ + name + " not initialized!"@
}

/// The `impl` block that the safe generator appends to a struct named `name`:
/// a lazily created `OnceLock<RwLock<_>>` local to the type, `initialize`
/// (first value kept), `w` (write guard) and `r` (read guard), both accessors
/// failing with `not_initialized_message(name)` before initialization.
pub open spec fn safe_impl(name: Seq<char>) -> Seq<char> {
    SAFE_0@ + name + SAFE_1@ + name + SAFE_2@ + not_initialized_message(name) + SAFE_3@ + name
        + SAFE_4@ + name + SAFE_5@ + name + SAFE_6@
}

/// The `impl` block that the unsafe generator appends to a struct named
/// `name`: a `static mut Option<_>` local to the type, `g` (unchecked mutable
/// access) and `initialize` (overwrites).
pub open spec fn unsafe_impl(name: Seq<char>) -> Seq<char> {
    UNSAFE_0@ + name + UNSAFE_1@ + name + UNSAFE_2@
}

/// The `impl` block generated for a type has that type's name right after
/// `impl`, and distinct names give distinct blocks. (The generated cell is
/// declared inside this block; that it is then a cell of the type's own rests
/// on Rust's scoping, which is not stated here.)
pub proof fn lemma_generated_impl_names_its_type(a: Seq<char>, b: Seq<char>)
    ensures
        safe_impl(a) == safe_impl(b) ==> a == b,
        unsafe_impl(a) == unsafe_impl(b) ==> a == b,
        safe_impl(a).subrange(SAFE_0@.len() as int, SAFE_0@.len() + a.len() as int) == a,
        unsafe_impl(a).subrange(UNSAFE_0@.len() as int, UNSAFE_0@.len() + a.len() as int) == a,
{
    assert(safe_impl(a).subrange(SAFE_0@.len() as int, SAFE_0@.len() + a.len() as int) =~= a);
    assert(safe_impl(b).subrange(SAFE_0@.len() as int, SAFE_0@.len() + b.len() as int) =~= b);
    assert(unsafe_impl(a).subrange(UNSAFE_0@.len() as int, UNSAFE_0@.len() + a.len() as int) =~= a);
    assert(unsafe_impl(b).subrange(UNSAFE_0@.len() as int, UNSAFE_0@.len() + b.len() as int) =~= b);
}

/// Builds `not_initialized_message(name)`.
pub fn not_initialized_text(name: &str) -> (r: String)
    ensures
        r@ == not_initialized_message(name@),
{
    let mut r = String::from_str("Singleton ");
    r.append(name);
    r.append(" not initialized!");
    r
}

/// The output of the safe generator for the struct declaration `item` whose
/// identifier is `name`: the declaration unchanged, then its singleton `impl`.
pub fn expand_singleton(item: &str, name: &str) -> (r: String)
    ensures
        r@ == item@ + safe_impl(name@),
{
    let message = not_initialized_text(name);
    let mut r = String::from_str(item);
    r.append(SAFE_0);
    r.append(name);
    r.append(SAFE_1);
    r.append(name);
    r.append(SAFE_2);
    r.append(message.as_str());
    r.append(SAFE_3);
    r.append(name);
    r.append(SAFE_4);
    r.append(name);
    r.append(SAFE_5);
    r.append(name);
    r.append(SAFE_6);
    r
}

/// The output of the unsafe generator for the struct declaration `item` whose
/// identifier is `name`: the declaration unchanged, then its singleton `impl`.
pub fn expand_singleton_unsafe(item: &str, name: &str) -> (r: String)
    ensures
        r@ == item@ + unsafe_impl(name@),
{
    let mut r = String::from_str(item);
    r.append(UNSAFE_0);
    r.append(name);
    r.append(UNSAFE_1);
    r.append(name);
    r.append(UNSAFE_2);
    r
}

/// What went wrong when the annotated item is not a struct declaration: the
/// parser's own message.
pub struct ExpandError {
    pub message: String,
}

#[verifier::external_type_specification]
#[verifier::external_body]
pub struct ExSynError(syn::Error);

/// Relies on `syn::parse_str::<syn::ItemStruct>`: it parses the whole text as
/// one struct item or returns an error; on success, the item's identifier as
/// text (`Ident`'s `to_string`), which is never empty. Which identifier comes
/// back is left open: inside a procedural macro the compiler's lexer runs and
/// normalizes identifiers, elsewhere proc-macro2's own keeps them as written.
#[verifier::external_body]
fn parse_struct_name(src: &str) -> (r: Result<String, syn::Error>)
    ensures
        r is Ok ==> r->Ok_0@.len() > 0,
{
    syn::parse_str::<syn::ItemStruct>(src).map(|item| item.ident.to_string())
}

/// Relies on `syn::Error`'s `to_string`: the error's message.
#[verifier::external_body]
fn error_message(e: &syn::Error) -> (r: String) {
    e.to_string()
}

/// Parses `item` as a struct declaration: its identifier, or the parser's
/// message.
fn parse_item(item: &str) -> (r: Result<String, String>)
    ensures
        r is Ok ==> r->Ok_0@.len() > 0,
{
    match parse_struct_name(item) {
        Ok(name) => Ok(name),
        Err(e) => Err(error_message(&e)),
    }
}

/// The safe generator, given what parsing `item` gave: the struct's
/// identifier, or the parser's message, which becomes the error's.
pub fn singleton_of_parsed(item: &str, parsed: Result<String, String>) -> (r: Result<String, ExpandError>)
    ensures
        parsed is Ok ==> r is Ok && r->Ok_0@ == item@ + safe_impl(parsed->Ok_0@),
        parsed is Err ==> r is Err && r->Err_0.message@ == parsed->Err_0@,
{
    match parsed {
        Ok(name) => Ok(expand_singleton(item, name.as_str())),
        Err(message) => Err(ExpandError { message }),
    }
}

/// The unsafe generator, given what parsing `item` gave: the struct's
/// identifier, or the parser's message, which becomes the error's.
pub fn singleton_unsafe_of_parsed(item: &str, parsed: Result<String, String>) -> (r: Result<String, ExpandError>)
    ensures
        parsed is Ok ==> r is Ok && r->Ok_0@ == item@ + unsafe_impl(parsed->Ok_0@),
        parsed is Err ==> r is Err && r->Err_0.message@ == parsed->Err_0@,
{
    match parsed {
        Ok(name) => Ok(expand_singleton_unsafe(item, name.as_str())),
        Err(message) => Err(ExpandError { message }),
    }
}

/// The safe generator. `item` is the source text of the annotated item and
/// `_attr` that of the attribute's arguments, which it takes none of. A struct
/// declaration comes back unchanged and followed by `safe_impl` of its
/// identifier; anything else is refused with the parser's message.
pub fn singleton(_attr: &str, item: &str) -> (r: Result<String, ExpandError>)
    ensures
        r is Ok ==> exists|name: Seq<char>| name.len() > 0 && r->Ok_0@ == item@ + safe_impl(name),
{
    singleton_of_parsed(item, parse_item(item))
}

/// The unsafe generator. A struct declaration comes back unchanged and
/// followed by `unsafe_impl` of its identifier; anything else is refused with
/// the parser's message.
pub fn singleton_unsafe(_attr: &str, item: &str) -> (r: Result<String, ExpandError>)
    ensures
        r is Ok ==> exists|name: Seq<char>| name.len() > 0 && r->Ok_0@ == item@ + unsafe_impl(name),
{
    singleton_unsafe_of_parsed(item, parse_item(item))
}

} // verus!
