//! The operations on a variable store, one call each.
use crate::boot_next::{
    boot_next_from_read,
    boot_next_looked_up,
    boot_next_var_name,
    boot_next_write,
    lemma_read_boot_next_is_looked_up,
    with_boot_next,
};
use crate::error::{GetBootNextError, GetLoadOptionError, LoadOptionError, SetBootNextError};
use crate::load_option::LoadOption;
use crate::load_option_codec::{lemma_resolved_read_is_looked_up, load_option_from_read, looked_up};
use crate::name_codec::format_load_option_name;
use crate::store::VariableStore;
use vstd::prelude::*;

verus! {

/// How a lookup that may find nothing becomes one that reports the missing slot.
pub open spec fn required_as(
    num: u16,
    found: Result<Option<LoadOption>, GetLoadOptionError>,
    r: Result<LoadOption, LoadOptionError>,
) -> bool {
    match found {
        Ok(Some(o)) => r == Ok::<LoadOption, LoadOptionError>(o),
        Ok(None) => r == Err::<LoadOption, LoadOptionError>(
            LoadOptionError::NoSuchLoadOption { num },
        ),
        Err(GetLoadOptionError::Efivar(e)) => r == Err::<LoadOption, LoadOptionError>(
            LoadOptionError::Efivar(e),
        ),
        Err(GetLoadOptionError::LoadOptionDecoding(e)) => r == Err::<LoadOption, LoadOptionError>(
            LoadOptionError::LoadOptionDecoding(e),
        ),
        Err(GetLoadOptionError::FilePathListOutOfBounds) => r == Err::<
            LoadOption,
            LoadOptionError,
        >(LoadOptionError::FilePathListOutOfBounds),
    }
}

/// Report a slot without a variable as `NoSuchLoadOption`; pass all else on.
pub fn require_load_option(
    num: u16,
    found: Result<Option<LoadOption>, GetLoadOptionError>,
) -> (r: Result<LoadOption, LoadOptionError>)
    ensures
        required_as(num, found, r),
{
    match found {
        Ok(Some(o)) => Ok(o),
        Ok(None) => Err(LoadOptionError::NoSuchLoadOption { num }),
        Err(GetLoadOptionError::Efivar(e)) => Err(LoadOptionError::Efivar(e)),
        Err(GetLoadOptionError::LoadOptionDecoding(e)) => Err(LoadOptionError::LoadOptionDecoding(e)),
        Err(GetLoadOptionError::FilePathListOutOfBounds) => Err(
            LoadOptionError::FilePathListOutOfBounds,
        ),
    }
}

/// Resolve slot `num`: its load option, or `NoSuchLoadOption` exactly where
/// its variable is absent.
pub fn get_load_option<S: VariableStore>(var_manager: &mut S, num: u16) -> (r: Result<
    LoadOption,
    LoadOptionError,
>)
    ensures
        *final(var_manager) == *old(var_manager),
        exists|found: Result<Option<LoadOption>, GetLoadOptionError>| #[trigger]
            looked_up(old(var_manager).vars(), old(var_manager).host(), num, found) && required_as(
                num,
                found,
                r,
            ),
{
    let var_name = format_load_option_name(num);
    let read = var_manager.read(var_name.as_str());
    let ghost answer = read;
    let platform = var_manager.platform();
    let found = load_option_from_read(num, read, platform);
    proof {
        lemma_resolved_read_is_looked_up(var_manager.vars(), platform, num, answer, found);
    }
    require_load_option(num, found)
}

/// The load option of slot `num`, as [`get_load_option`] resolves it.
pub fn load_option_by_num<S: VariableStore>(var_manager: &mut S, num: u16) -> (r: Result<
    LoadOption,
    LoadOptionError,
>)
    ensures
        *final(var_manager) == *old(var_manager),
        exists|found: Result<Option<LoadOption>, GetLoadOptionError>| #[trigger]
            looked_up(old(var_manager).vars(), old(var_manager).host(), num, found) && required_as(
                num,
                found,
                r,
            ),
{
    get_load_option(var_manager, num)
}

/// Point `BootNext` at slot `num`: one write of its two bytes in the
/// machine's byte order, with all three access flags; a failed write changes
/// nothing and its error is passed on.
pub fn set_boot_next<S: VariableStore>(var_manager: &mut S, num: u16) -> (r: Result<
    (),
    SetBootNextError,
>)
    ensures
        final(var_manager).host() == old(var_manager).host(),
        r is Ok ==> final(var_manager).vars() == with_boot_next(old(var_manager).vars(), num),
        r is Err ==> final(var_manager).vars() == old(var_manager).vars(),
{
    let w = boot_next_write(num);
    match var_manager.write(w.name.as_str(), w.flags, w.value.as_slice()) {
        Ok(()) => Ok(()),
        Err(e) => Err(SetBootNextError::Efivar(e)),
    }
}

/// The slot that `BootNext` points to, `None` exactly where it is unset.
pub fn get_boot_next<S: VariableStore>(var_manager: &mut S) -> (r: Result<
    Option<u16>,
    GetBootNextError,
>)
    ensures
        *final(var_manager) == *old(var_manager),
        boot_next_looked_up(old(var_manager).vars(), old(var_manager).host(), r),
{
    let read = var_manager.read(boot_next_var_name());
    let ghost answer = read;
    let platform = var_manager.platform();
    let r = boot_next_from_read(read, platform);
    proof {
        lemma_read_boot_next_is_looked_up(var_manager.vars(), platform, answer, r);
    }
    r
}

} // verus!
