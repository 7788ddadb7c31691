//! The rules for the async entry point that the runtime's `main` attribute
//! wraps: which signatures it accepts, the diagnostic for each rule broken,
//! and the hardware entry attribute it applies.
use vstd::prelude::*;

verus! {

/// The declared return type of the entry function.
#[derive(Clone, Copy, Debug, PartialEq, Eq, Structural)]
pub enum EntryReturn {
    /// No return type.
    Default,
    /// `()`.
    Unit,
    /// `!`.
    Never,
    /// Anything else.
    Other,
}

/// What the rules look at in the entry function's signature.
#[derive(Clone, Copy, Debug, PartialEq, Eq, Structural)]
pub struct EntrySignature {
    pub is_async: bool,
    pub has_generics: bool,
    pub has_where_clause: bool,
    pub has_abi: bool,
    pub is_variadic: bool,
    pub output: EntryReturn,
}

/// A rule the entry function breaks.
#[derive(Clone, Copy, Debug, PartialEq, Eq, Structural)]
pub enum EntryError {
    NotAsync,
    Generic,
    WhereClause,
    Abi,
    Variadic,
    ReturnType,
}

impl EntryError {
    /// The diagnostic reported for the rule.
    pub fn message(&self) -> (r: &'static str)
        ensures
            r@ == match *self {
                EntryError::NotAsync => "main function must be async"@,
                EntryError::Generic => "main function must not be generic"@,
                EntryError::WhereClause => "main function must not have `where` clauses"@,
                EntryError::Abi => "main function must not have an ABI qualifier"@,
                EntryError::Variadic => "main function must not be variadic"@,
                EntryError::ReturnType =>
                    "main function must either not return a value, return `()` or return `!`"@,
            },
    {
        match *self {
            EntryError::NotAsync => "main function must be async",
            EntryError::Generic => "main function must not be generic",
            EntryError::WhereClause => "main function must not have `where` clauses",
            EntryError::Abi => "main function must not have an ABI qualifier",
            EntryError::Variadic => "main function must not be variadic",
            EntryError::ReturnType =>
                "main function must either not return a value, return `()` or return `!`",
        }
    }
}

/// `e` when `broken`, nothing otherwise.
pub open spec fn error_if(broken: bool, e: EntryError) -> Seq<EntryError> {
    if broken {
        seq![e]
    } else {
        Seq::empty()
    }
}

/// The rules `sig` breaks, in the order they are checked.
pub open spec fn signature_errors(sig: EntrySignature) -> Seq<EntryError> {
    error_if(!sig.is_async, EntryError::NotAsync) + error_if(sig.has_generics, EntryError::Generic)
        + error_if(sig.has_where_clause, EntryError::WhereClause) + error_if(
        sig.has_abi,
        EntryError::Abi,
    ) + error_if(sig.is_variadic, EntryError::Variadic) + error_if(
        sig.output == EntryReturn::Other,
        EntryError::ReturnType,
    )
}

/// Checks the entry function's signature: it must be async, not generic,
/// without a `where` clause, without an ABI qualifier, not variadic, and
/// return nothing, `()` or `!`. Returns the broken rules in that order.
pub fn entry_errors(sig: &EntrySignature) -> (r: Vec<EntryError>)
    ensures
        r@ == signature_errors(*sig),
{
    let mut r: Vec<EntryError> = Vec::new();
    if !sig.is_async {
        r.push(EntryError::NotAsync);
    }
    assert(r@ =~= error_if(!sig.is_async, EntryError::NotAsync));
    let ghost s1 = r@;
    if sig.has_generics {
        r.push(EntryError::Generic);
    }
    assert(r@ =~= s1 + error_if(sig.has_generics, EntryError::Generic));
    let ghost s2 = r@;
    if sig.has_where_clause {
        r.push(EntryError::WhereClause);
    }
    assert(r@ =~= s2 + error_if(sig.has_where_clause, EntryError::WhereClause));
    let ghost s3 = r@;
    if sig.has_abi {
        r.push(EntryError::Abi);
    }
    assert(r@ =~= s3 + error_if(sig.has_abi, EntryError::Abi));
    let ghost s4 = r@;
    if sig.is_variadic {
        r.push(EntryError::Variadic);
    }
    assert(r@ =~= s4 + error_if(sig.is_variadic, EntryError::Variadic));
    let ghost s5 = r@;
    let bad_return = match sig.output {
        EntryReturn::Other => true,
        _ => false,
    };
    if bad_return {
        r.push(EntryError::ReturnType);
    }
    assert(r@ =~= s5 + error_if(sig.output == EntryReturn::Other, EntryError::ReturnType));
    r
}

/// The path of the hardware entry attribute applied to the generated `main`:
/// the one configured with the `entry` option, or the RISC-V runtime's.
pub fn entry_path(entry: Option<&str>) -> (r: &str)
    ensures
        r@ == match entry {
            Some(p) => p@,
            None => "riscv_rt::entry"@,
        },
{
    match entry {
        Some(p) => p,
        None => "riscv_rt::entry",
    }
}

} // verus!
