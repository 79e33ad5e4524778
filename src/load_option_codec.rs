//! Turning the stored bytes of a slot into a load option.
use crate::error::GetLoadOptionError;
use crate::load_option::LoadOption;
use crate::native_endian::{native_u16, u16_from_ne_bytes};
use crate::name_codec::load_option_name;
use crate::store::{means_absent, read_agrees, HostPlatform, StoreError};
use vstd::endian::{endianness, Endian};
use vstd::prelude::*;

verus! {

#[verifier::external_type_specification]
#[verifier::external_body]
pub struct ExDecodeError(efi_loadopt::DecodeError);

/// Where the description starts: after the 4-byte attributes and the 2-byte
/// file path list length.
pub const DESCRIPTION_START: usize = 6;

/// The length of the file path list that follows the description.
pub open spec fn file_path_list_length(b: Seq<u8>) -> int {
    native_u16(b[4], b[5]) as int
}

/// Whether the `k`-th UTF-16 unit of the description is zero.
pub open spec fn nul_unit(b: Seq<u8>, k: int) -> bool {
    b[6 + 2 * k] == 0 && b[6 + 2 * k + 1] == 0
}

/// The `k`-th unit of the description is its first zero unit.
pub open spec fn description_ends_at(b: Seq<u8>, k: int) -> bool {
    &&& 0 <= k
    &&& 6 + 2 * k + 2 <= b.len()
    &&& nul_unit(b, k)
    &&& forall|j: int| 0 <= j < k ==> !#[trigger] nul_unit(b, j)
}

/// The file path list that follows a terminated description lies within the bytes.
pub open spec fn record_fits(b: Seq<u8>) -> bool {
    b.len() < 6 || forall|k: int| #[trigger]
        description_ends_at(b, k) ==> 6 + 2 * k + 2 + file_path_list_length(b) <= b.len()
}

/// The description of the load option record `buf` whose numbers are in byte
/// order `order`, or `None` where the record does not decode.
pub uninterp spec fn load_option_description(buf: Seq<u8>, order: Endian) -> Option<Seq<char>>;

/// Relies on `efi_loadopt::EFILoadOpt::decode`: the result depends on the
/// bytes and the machine's byte order alone, and a record shorter than its
/// 6-byte header fails. Its
/// description is kept. The decoder slices past a terminated description by
/// the file path list length, so `requires` keeps that slice in bounds.
#[verifier::external_body]
fn decode_load_option(buf: &[u8]) -> (r: Result<String, efi_loadopt::DecodeError>)
    requires
        record_fits(buf@),
    ensures
        r is Ok <==> load_option_description(buf@, endianness()) is Some,
        r matches Ok(d) ==> load_option_description(buf@, endianness()) == Some(d@),
        buf@.len() < 6 ==> r is Err,
{
    efi_loadopt::EFILoadOpt::decode(buf).map(|opt| opt.description)
}

/// Whether the decoder can read `buf` without running past its end.
pub fn load_option_record_fits(buf: &[u8]) -> (r: bool)
    ensures
        r == record_fits(buf@),
{
    let len = buf.len();
    if len < DESCRIPTION_START {
        return true;
    }
    let path_len = u16_from_ne_bytes(buf[4], buf[5]) as usize;
    let mut k: usize = 0;
    let mut pos: usize = DESCRIPTION_START;
    while len - pos >= 2
        invariant
            len == buf@.len(),
            len >= 6,
            path_len == file_path_list_length(buf@),
            pos == 6 + 2 * k,
            pos <= len,
            forall|j: int| 0 <= j < k ==> !#[trigger] nul_unit(buf@, j),
        decreases len - pos,
    {
        if buf[pos] == 0 && buf[pos + 1] == 0 {
            assert(description_ends_at(buf@, k as int));
            assert forall|k2: int| #[trigger] description_ends_at(buf@, k2) implies k2 == k by {
                if k2 < k {
                    assert(!nul_unit(buf@, k2));
                } else if k2 > k {
                    assert(!nul_unit(buf@, k as int));
                }
            }
            return path_len <= len - pos - 2;
        }
        assert(!nul_unit(buf@, k as int));
        k = k + 1;
        pos = pos + 2;
    }
    assert forall|k2: int| #[trigger] description_ends_at(buf@, k2) implies false by {
        if k2 < k {
            assert(!nul_unit(buf@, k2));
        }
    }
    true
}

/// What reading slot `num` yields, given what the store answered.
pub open spec fn resolves_to(
    num: u16,
    read: Result<Vec<u8>, StoreError>,
    platform: HostPlatform,
    r: Result<Option<LoadOption>, GetLoadOptionError>,
) -> bool {
    match read {
        Err(e) => if means_absent(e, platform) {
            r is Ok && r->Ok_0 is None
        } else {
            r == Err::<Option<LoadOption>, GetLoadOptionError>(GetLoadOptionError::Efivar(e))
        },
        Ok(b) => if !record_fits(b@) {
            r matches Err(GetLoadOptionError::FilePathListOutOfBounds)
        } else {
            match load_option_description(b@, endianness()) {
                Some(d) => r matches Ok(Some(o)) && o.number == num && o.description@ == d,
                None => r matches Err(GetLoadOptionError::LoadOptionDecoding(_)),
            }
        },
    }
}

/// No variable exists for slot `num` among `vars`.
pub open spec fn slot_absent(vars: Map<Seq<char>, (u32, Seq<u8>)>, num: u16) -> bool {
    !vars.contains_key(load_option_name(num))
}

/// What looking up slot `num` among the variables `vars` may yield: `None`
/// exactly where its variable is absent; otherwise the decoded record, the
/// decoder's failure, an out-of-bounds file path list, or a store failure
/// that does not mean absent.
pub open spec fn looked_up(
    vars: Map<Seq<char>, (u32, Seq<u8>)>,
    host: HostPlatform,
    num: u16,
    r: Result<Option<LoadOption>, GetLoadOptionError>,
) -> bool {
    let name = load_option_name(num);
    if !vars.contains_key(name) {
        r is Ok && r->Ok_0 is None
    } else {
        let b = vars[name].1;
        match r {
            Ok(None) => false,
            Ok(Some(o)) => o.number == num && record_fits(b) && load_option_description(
                b,
                endianness(),
            ) == Some(o.description@),
            Err(GetLoadOptionError::Efivar(e)) => !means_absent(e, host),
            Err(GetLoadOptionError::LoadOptionDecoding(_)) => record_fits(b)
                && load_option_description(b, endianness()) is None,
            Err(GetLoadOptionError::FilePathListOutOfBounds) => !record_fits(b),
        }
    }
}

/// Resolving a read that agrees with the store yields what [`looked_up`] allows.
pub proof fn lemma_resolved_read_is_looked_up(
    vars: Map<Seq<char>, (u32, Seq<u8>)>,
    host: HostPlatform,
    num: u16,
    read: Result<Vec<u8>, StoreError>,
    r: Result<Option<LoadOption>, GetLoadOptionError>,
)
    requires
        read_agrees(vars, host, load_option_name(num), read),
        resolves_to(num, read, host, r),
    ensures
        looked_up(vars, host, num, r),
{
}

/// The load option of slot `num` from the decoder's answer on its bytes.
pub fn load_option_from_decoded(
    num: u16,
    decoded: Result<String, efi_loadopt::DecodeError>,
) -> (r: Result<LoadOption, GetLoadOptionError>)
    ensures
        match decoded {
            Ok(d) => r matches Ok(o) && o.number == num && o.description@ == d@,
            Err(e) => r == Err::<LoadOption, GetLoadOptionError>(
                GetLoadOptionError::LoadOptionDecoding(e),
            ),
        },
{
    match decoded {
        Ok(description) => Ok(LoadOption::new(num, description)),
        Err(e) => Err(GetLoadOptionError::LoadOptionDecoding(e)),
    }
}

/// Resolve slot `num` from the store's answer to reading its variable: an
/// absent variable gives `Ok(None)`, other store errors and decoding errors
/// propagate, and a decoded record gives the slot with its description.
pub fn load_option_from_read(
    num: u16,
    read: Result<Vec<u8>, StoreError>,
    platform: HostPlatform,
) -> (r: Result<Option<LoadOption>, GetLoadOptionError>)
    ensures
        resolves_to(num, read, platform, r),
{
    let bytes = match crate::store::map_into_option(read, platform) {
        Err(err) => return Err(GetLoadOptionError::Efivar(err)),
        Ok(None) => return Ok(None),
        Ok(Some(v)) => v,
    };
    if !load_option_record_fits(bytes.as_slice()) {
        return Err(GetLoadOptionError::FilePathListOutOfBounds);
    }
    let decoded = decode_load_option(bytes.as_slice());
    match load_option_from_decoded(num, decoded) {
        Ok(o) => Ok(Some(o)),
        Err(e) => Err(e),
    }
}

} // verus!
