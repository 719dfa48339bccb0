use vstd::prelude::*;

verus! {

/// One of the three entry points that the engine exports.
#[derive(Clone, Copy, Debug, PartialEq, Eq, Structural)]
pub enum EntryPoint {
    Initialize,
    Translate,
    Terminate,
}

/// The exported name of an entry point.
pub open spec fn symbol_name_of(e: EntryPoint) -> Seq<char> {
    match e {
        EntryPoint::Initialize => "J2K_InitializeEx"@,
        EntryPoint::Translate => "J2K_TranslateMMNT"@,
        EntryPoint::Terminate => "J2K_Terminate"@,
    }
}

impl EntryPoint {
    /// The name under which the engine exports this entry point.
    pub fn symbol_name(&self) -> (r: &'static str)
        ensures
            r@ == symbol_name_of(*self),
    {
        match self {
            EntryPoint::Initialize => "J2K_InitializeEx",
            EntryPoint::Translate => "J2K_TranslateMMNT",
            EntryPoint::Terminate => "J2K_Terminate",
        }
    }
}

/// A required entry point could not be found in the loaded library.
#[derive(Clone, Copy, Debug, PartialEq, Eq, Structural)]
pub struct SymbolError {
    pub symbol: EntryPoint,
}

impl SymbolError {
    /// The exported name of the missing entry point.
    pub fn symbol_name(&self) -> (r: &'static str)
        ensures
            r@ == symbol_name_of(self.symbol),
    {
        self.symbol.symbol_name()
    }
}

/// The three resolved entry points. A table only comes out of `resolve`,
/// which builds it when all three were found.
pub struct EntryPointTable<I, T, X> {
    pub initialize: I,
    pub translate: T,
    pub terminate: X,
}

/// The entry point that resolution reports as missing: the first absent one,
/// in the order initialize, translate, terminate.
pub open spec fn first_missing(has_init: bool, has_translate: bool, has_terminate: bool) -> Option<EntryPoint> {
    if !has_init {
        Some(EntryPoint::Initialize)
    } else if !has_translate {
        Some(EntryPoint::Translate)
    } else if !has_terminate {
        Some(EntryPoint::Terminate)
    } else {
        None
    }
}

/// Builds the entry-point table from the outcome of looking up each of the
/// three symbols. All or nothing: a table comes back exactly when all three
/// were found, holding what was found; otherwise the error names the first
/// missing entry point.
pub fn resolve<I, T, X>(initialize: Option<I>, translate: Option<T>, terminate: Option<X>) -> (r: Result<EntryPointTable<I, T, X>, SymbolError>)
    ensures
        first_missing(initialize is Some, translate is Some, terminate is Some) is None <==> r is Ok,
        r matches Ok(t) ==> Some(t.initialize) == initialize && Some(t.translate) == translate
            && Some(t.terminate) == terminate,
        r matches Err(e) ==> first_missing(initialize is Some, translate is Some, terminate is Some)
            == Some(e.symbol),
{
    match initialize {
        None => Err(SymbolError { symbol: EntryPoint::Initialize }),
        Some(i) => match translate {
            None => Err(SymbolError { symbol: EntryPoint::Translate }),
            Some(t) => match terminate {
                None => Err(SymbolError { symbol: EntryPoint::Terminate }),
                Some(x) => Ok(EntryPointTable { initialize: i, translate: t, terminate: x }),
            },
        },
    }
}

} // verus!
