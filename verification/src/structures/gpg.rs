//! GnuPG trust database version records: the record type 1, "gpg", the version of the database,
//! the marginals, completes and certificate depth settings, and the trust model
use crate::structures::common::pattern_at;
use crate::text::matches_at;
use vstd::prelude::*;

verus! {

/// The part of the version record that is read: up to and including the trust model
pub const VERSION_RECORD_SIZE: usize = 9;

/// The version of the database format that GnuPG writes
pub const TRUSTDB_VERSION: u8 = 3;

/// The record type and "gpg"
pub open spec fn version_record_magic() -> Seq<u8> {
    seq![0x01u8, 0x67, 0x70, 0x67]
}

/// The trust models, by number
pub open spec fn trust_model_name(model: u8) -> Option<Seq<char>> {
    if model == 0 {
        Some("classic"@)
    } else if model == 1 {
        Some("pgp"@)
    } else if model == 2 {
        Some("external"@)
    } else if model == 3 {
        Some("always"@)
    } else if model == 4 {
        Some("direct"@)
    } else if model == 5 {
        Some("auto"@)
    } else if model == 6 {
        Some("tofu"@)
    } else if model == 7 {
        Some("tofu+pgp"@)
    } else {
        None
    }
}

/// The name of a known trust model
pub fn trust_model(model: u8) -> (name: Option<&'static str>)
    ensures
        match name {
            Some(n) => trust_model_name(model) == Some(n@),
            None => trust_model_name(model) is None,
        },
{
    if model == 0 {
        Some("classic")
    } else if model == 1 {
        Some("pgp")
    } else if model == 2 {
        Some("external")
    } else if model == 3 {
        Some("always")
    } else if model == 4 {
        Some("direct")
    } else if model == 5 {
        Some("auto")
    } else if model == 6 {
        Some("tofu")
    } else if model == 7 {
        Some("tofu+pgp")
    } else {
        None
    }
}

/// The fields of a version record
pub struct GPGTrustDBVersionRecord {
    pub version: u8,
    pub trust_model: u8,
}

/// The version record at the start of `data`, where there is one: version 3 and a known trust
/// model, which is the ninth byte
pub open spec fn trustdb_version_record(data: Seq<u8>) -> Option<GPGTrustDBVersionRecord> {
    if data.len() >= VERSION_RECORD_SIZE && matches_at(data, version_record_magic(), 0) && data[4]
        == TRUSTDB_VERSION && trust_model_name(data[8]) is Some {
        Some(GPGTrustDBVersionRecord { version: data[4], trust_model: data[8] })
    } else {
        None
    }
}

/// Parses the version record at the start of `trustdb_data`
pub fn parse_gpg_trustdb_version_record(trustdb_data: &[u8]) -> (result: Result<
    GPGTrustDBVersionRecord,
    (),
>)
    ensures
        result is Ok <==> trustdb_version_record(trustdb_data@) is Some,
        result matches Ok(record) ==> trustdb_version_record(trustdb_data@) == Some(record),
{
    let magic = vec![0x01u8, 0x67, 0x70, 0x67];
    if trustdb_data.len() < VERSION_RECORD_SIZE || !pattern_at(trustdb_data, magic.as_slice(), 0)
        || trustdb_data[4] != TRUSTDB_VERSION {
        return Err(());
    }
    match trust_model(trustdb_data[8]) {
        Some(_) => Ok(GPGTrustDBVersionRecord { version: trustdb_data[4], trust_model: trustdb_data[8] }),
        None => Err(()),
    }
}

} // verus!
