//! The firmware variable store as this library sees it, and the rule that
//! tells a missing variable apart from a real failure.
use vstd::prelude::*;

verus! {

/// The variable persists across reboots.
pub const NON_VOLATILE: u32 = 0x1;

/// The variable is visible to boot services.
pub const BOOTSERVICE_ACCESS: u32 = 0x2;

/// The variable is visible at runtime.
pub const RUNTIME_ACCESS: u32 = 0x4;

/// The raw error code with which Windows reports a missing variable.
pub const WINDOWS_VAR_NOT_FOUND: i32 = 203;

/// The host system, as far as its error conventions matter here.
#[derive(Debug, Clone, Copy, PartialEq, Eq, Structural)]
pub enum HostPlatform {
    /// Windows, which reports a missing variable as a generic I/O error.
    Windows,
    /// Any other system.
    Other,
}

/// A failure of the variable store.
#[derive(Debug)]
pub enum StoreError {
    /// The store itself reports that the variable does not exist.
    VarNotFound { name: String },
    /// The store refused access to the variable.
    PermissionDenied { name: String },
    /// An I/O error that the store did not classify, with the host's raw code if any.
    VarUnknownError { name: String, raw_os_error: Option<i32>, message: String },
    /// Any other failure of the store.
    Other { message: String },
}

/// Whether a store failure means that the variable is absent on `platform`.
pub open spec fn means_absent(err: StoreError, platform: HostPlatform) -> bool {
    match err {
        StoreError::VarNotFound { .. } => true,
        StoreError::VarUnknownError { raw_os_error, .. } => platform == HostPlatform::Windows
            && raw_os_error == Some(WINDOWS_VAR_NOT_FOUND),
        _ => false,
    }
}

/// The views of a list of names.
pub open spec fn names_view(names: Seq<String>) -> Seq<Seq<char>> {
    names.map_values(|s: String| s@)
}

/// A read of `name` agrees with the variables `vars`: a value read is the one
/// stored, and the error means absent exactly when no variable has that name.
pub open spec fn read_agrees(
    vars: Map<Seq<char>, (u32, Seq<u8>)>,
    host: HostPlatform,
    name: Seq<char>,
    r: Result<Vec<u8>, StoreError>,
) -> bool {
    match r {
        Ok(v) => vars.contains_key(name) && vars[name].1 == v@,
        Err(e) => means_absent(e, host) <==> !vars.contains_key(name),
    }
}

/// `names` lists each variable of `vars` once, and nothing else.
pub open spec fn lists_exactly(vars: Map<Seq<char>, (u32, Seq<u8>)>, names: Seq<String>) -> bool {
    &&& names_view(names).no_duplicates()
    &&& forall|s: Seq<char>| #[trigger] names_view(names).contains(s) <==> vars.contains_key(s)
}

/// Access to named firmware variables.
///
/// The contracts speak of the model `vars`. An implementation outside
/// verified code keeps the default model and is held to nothing.
pub trait VariableStore {
    /// The variables the store holds: name to access flags and value.
    closed spec fn vars(&self) -> Map<Seq<char>, (u32, Seq<u8>)> {
        Map::empty()
    }

    /// The host whose error conventions the store follows.
    closed spec fn host(&self) -> HostPlatform {
        HostPlatform::Other
    }

    /// The host whose error conventions the store follows.
    fn platform(&self) -> (r: HostPlatform)
        ensures
            r == self.host(),
    ;

    /// The current value of the variable `name`. A missing variable fails
    /// with an error that means absent; a stored one may still fail otherwise.
    fn read(&self, name: &str) -> (r: Result<Vec<u8>, StoreError>)
        ensures
            read_agrees(self.vars(), self.host(), name@, r),
    ;

    /// Store `value` under `name` with the access flags `flags`; on failure
    /// nothing changes.
    fn write(&mut self, name: &str, flags: u32, value: &[u8]) -> (r: Result<(), StoreError>)
        ensures
            final(self).host() == old(self).host(),
            r is Ok ==> final(self).vars() == old(self).vars().insert(name@, (flags, value@)),
            r is Err ==> final(self).vars() == old(self).vars(),
    ;

    /// The names of all variables the store holds, each once.
    fn list_names(&self) -> (r: Result<Vec<String>, StoreError>)
        ensures
            r matches Ok(names) ==> lists_exactly(self.vars(), names@),
    ;
}

/// Whether `err` means that the variable does not exist: the store's own
/// not-found error, or on Windows an unclassified error with code 203.
pub fn is_no_such_load_option_error(err: &StoreError, platform: HostPlatform) -> (r: bool)
    ensures
        r == means_absent(*err, platform),
{
    match err {
        StoreError::VarNotFound { .. } => true,
        StoreError::VarUnknownError { raw_os_error, .. } => {
            platform == HostPlatform::Windows && match raw_os_error {
                Some(code) => *code == WINDOWS_VAR_NOT_FOUND,
                None => false,
            }
        },
        _ => false,
    }
}

/// Turn a read whose variable is absent into `Ok(None)`; other errors pass through.
pub fn map_into_option<T>(result: Result<T, StoreError>, platform: HostPlatform) -> (r: Result<
    Option<T>,
    StoreError,
>)
    ensures
        match result {
            Ok(v) => r == Ok::<Option<T>, StoreError>(Some(v)),
            Err(e) => if means_absent(e, platform) {
                r == Ok::<Option<T>, StoreError>(None)
            } else {
                r == Err::<Option<T>, StoreError>(e)
            },
        },
{
    match result {
        Ok(v) => Ok(Some(v)),
        Err(e) => {
            if is_no_such_load_option_error(&e, platform) {
                Ok(None)
            } else {
                Err(e)
            }
        },
    }
}

/// The store's own not-found error always means that the variable is absent;
/// a permission error never does, on any host.
pub proof fn lemma_not_found_classification(name: String, platform: HostPlatform)
    ensures
        means_absent(StoreError::VarNotFound { name }, platform),
        !means_absent(StoreError::PermissionDenied { name }, platform),
{
}

} // verus!
