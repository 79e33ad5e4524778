//! Reading and writing the two-byte `BootNext` variable.
use crate::error::GetBootNextError;
use crate::native_endian::{
    lemma_native_round_trip,
    native_bytes,
    native_u16,
    u16_from_ne_bytes,
    u16_to_ne_bytes,
};
use crate::store::{
    means_absent,
    read_agrees,
    HostPlatform,
    StoreError,
    BOOTSERVICE_ACCESS,
    NON_VOLATILE,
    RUNTIME_ACCESS,
};
use vstd::prelude::*;

verus! {

/// The name of the variable that selects the next boot's entry.
pub open spec fn boot_next_name() -> Seq<char> {
    seq!['B', 'o', 'o', 't', 'N', 'e', 'x', 't']
}

/// The access flags that every `BootNext` write carries: non-volatile,
/// boot-service and runtime access, all three.
pub open spec fn boot_next_flags() -> u32 {
    NON_VOLATILE | BOOTSERVICE_ACCESS | RUNTIME_ACCESS
}

/// The slot that stored `BootNext` bytes point to, or `None` where they are
/// not exactly two bytes long.
pub open spec fn boot_next_of_bytes(b: Seq<u8>) -> Option<u16> {
    if b.len() == 2 {
        Some(native_u16(b[0], b[1]))
    } else {
        None
    }
}

/// What reading `BootNext` yields, given what the store answered.
pub open spec fn boot_next_reads_as(
    read: Result<Vec<u8>, StoreError>,
    platform: HostPlatform,
    r: Result<Option<u16>, GetBootNextError>,
) -> bool {
    match read {
        Err(e) => if means_absent(e, platform) {
            r == Ok::<Option<u16>, GetBootNextError>(None)
        } else {
            r == Err::<Option<u16>, GetBootNextError>(GetBootNextError::Efivar(e))
        },
        Ok(b) => match boot_next_of_bytes(b@) {
            Some(n) => r == Ok::<Option<u16>, GetBootNextError>(Some(n)),
            None => r == Err::<Option<u16>, GetBootNextError>(GetBootNextError::InvalidValue),
        },
    }
}

/// What reading `BootNext` among the variables `vars` may yield: `None`
/// exactly where it is absent; otherwise the slot its two bytes spell,
/// `InvalidValue` for any other length, or a store failure that does not mean
/// absent.
pub open spec fn boot_next_looked_up(
    vars: Map<Seq<char>, (u32, Seq<u8>)>,
    host: HostPlatform,
    r: Result<Option<u16>, GetBootNextError>,
) -> bool {
    let name = boot_next_name();
    if !vars.contains_key(name) {
        r == Ok::<Option<u16>, GetBootNextError>(None)
    } else {
        match r {
            Ok(v) => v is Some && v == boot_next_of_bytes(vars[name].1),
            Err(GetBootNextError::Efivar(e)) => !means_absent(e, host),
            Err(GetBootNextError::InvalidValue) => boot_next_of_bytes(vars[name].1) is None,
        }
    }
}

/// The variables after `BootNext` was written to point at `num`.
pub open spec fn with_boot_next(vars: Map<Seq<char>, (u32, Seq<u8>)>, num: u16) -> Map<
    Seq<char>,
    (u32, Seq<u8>),
> {
    vars.insert(boot_next_name(), (boot_next_flags(), native_bytes(num)))
}

/// Interpreting a read that agrees with the store yields what
/// [`boot_next_looked_up`] allows.
pub proof fn lemma_read_boot_next_is_looked_up(
    vars: Map<Seq<char>, (u32, Seq<u8>)>,
    host: HostPlatform,
    read: Result<Vec<u8>, StoreError>,
    r: Result<Option<u16>, GetBootNextError>,
)
    requires
        read_agrees(vars, host, boot_next_name(), read),
        boot_next_reads_as(read, host, r),
    ensures
        boot_next_looked_up(vars, host, r),
{
}

/// After `BootNext` was written to point at `num`, reading it back gives
/// `num`, unless the store fails with an error that does not mean absent.
pub proof fn lemma_set_then_get_boot_next(
    vars: Map<Seq<char>, (u32, Seq<u8>)>,
    host: HostPlatform,
    num: u16,
    r: Result<Option<u16>, GetBootNextError>,
)
    requires
        boot_next_looked_up(with_boot_next(vars, num), host, r),
    ensures
        r == Ok::<Option<u16>, GetBootNextError>(Some(num)) || (r matches Err(
            GetBootNextError::Efivar(e),
        ) && !means_absent(e, host)),
{
    lemma_native_round_trip(num);
    assert(with_boot_next(vars, num)[boot_next_name()].1 == native_bytes(num));
}

/// A write of one variable: what is handed to the store.
pub struct VariableWrite {
    pub name: String,
    pub flags: u32,
    pub value: Vec<u8>,
}

/// The name `BootNext`.
pub fn boot_next_var_name() -> (r: &'static str)
    ensures
        r@ == boot_next_name(),
{
    proof {
        reveal_strlit("BootNext");
    }
    let r = "BootNext";
    assert(r@ =~= boot_next_name());
    r
}

/// The write that points `BootNext` at slot `num`: the two bytes of `num` in
/// the machine's byte order, with all three access flags.
pub fn boot_next_write(num: u16) -> (w: VariableWrite)
    ensures
        w.name@ == boot_next_name(),
        w.flags == boot_next_flags(),
        w.value@ == native_bytes(num),
{
    let bytes = u16_to_ne_bytes(num);
    let mut value: Vec<u8> = Vec::new();
    value.push(bytes[0]);
    value.push(bytes[1]);
    proof {
        lemma_native_round_trip(num);
    }
    assert(value@ =~= native_bytes(num));
    VariableWrite {
        name: String::from_str(boot_next_var_name()),
        flags: NON_VOLATILE | BOOTSERVICE_ACCESS | RUNTIME_ACCESS,
        value,
    }
}

/// Interpret the store's answer to reading `BootNext`: absent gives `None`,
/// two bytes give the slot they spell, any other length is `InvalidValue`.
pub fn boot_next_from_read(read: Result<Vec<u8>, StoreError>, platform: HostPlatform) -> (r: Result<
    Option<u16>,
    GetBootNextError,
>)
    ensures
        boot_next_reads_as(read, platform, r),
{
    let buf = match crate::store::map_into_option(read, platform) {
        Err(err) => return Err(GetBootNextError::Efivar(err)),
        Ok(None) => return Ok(None),
        Ok(Some(v)) => v,
    };
    if buf.len() != 2 {
        return Err(GetBootNextError::InvalidValue);
    }
    Ok(Some(u16_from_ne_bytes(buf[0], buf[1])))
}

/// Reading back the bytes that a `BootNext` write stores gives the slot written.
pub proof fn lemma_boot_next_round_trip(num: u16)
    ensures
        boot_next_of_bytes(native_bytes(num)) == Some(num),
{
    lemma_native_round_trip(num);
}

/// A `BootNext` value of any length but two is refused.
pub proof fn lemma_boot_next_wrong_length(b: Seq<u8>)
    requires
        b.len() != 2,
    ensures
        boot_next_of_bytes(b) is None,
{
}

} // verus!
