use vstd::prelude::*;

use crate::errors::OrchestratorError;
use crate::hexparse::{bytecode_payload, parse_bytecode};

verus! {

/// Declares the outside interface-descriptor type, ethers::abi::Abi
/// (ethabi's `Contract`), so that artifacts and handles can carry a parsed
/// descriptor through; the library never looks inside it.
#[verifier::external_type_specification]
#[verifier::external_body]
pub struct ExAbi(ethers::abi::Abi);

/// Whether these bytes are a well-formed interface descriptor — the name of
/// what the outside parser accepts, which depends on the bytes alone.
pub uninterp spec fn interface_accepted(s: Seq<u8>) -> bool;

/// The scan that guards the outside parser, one byte at a time from
/// position `i`, with `in_str` saying whether the position sits inside a
/// JSON string literal and `in_group` whether it sits inside a `[...]`
/// group of one.
///
/// The outside parser hands every parameter type string to a reader that
/// indexes the string by counts of characters, so the scan keeps what can
/// reach it conservative: every byte ASCII, no backslash anywhere (so a
/// string literal's bytes are exactly its decoded characters), and inside
/// string literals no parentheses and brackets only as flat, closed
/// `[...]` groups with bracket-free interiors. On such strings the reader
/// only ever strips whole trailing `[...]` groups and then reads a
/// bracket-free name, and every step of that returns normally.
pub open spec fn interface_scan(s: Seq<u8>, i: int, in_str: bool, in_group: bool) -> bool
    decreases s.len() - i,
{
    if i < 0 || i >= s.len() {
        true
    } else {
        let b = s[i];
        if b >= 0x80 || b == 0x5c {  // non-ASCII, or a backslash escape
            false
        } else if !in_str {
            if b == 0x22 {  // opening quote
                interface_scan(s, i + 1, true, false)
            } else {
                interface_scan(s, i + 1, false, false)
            }
        } else {
            if b == 0x22 {  // closing quote; no group may stay open
                !in_group && interface_scan(s, i + 1, false, false)
            } else if b == 0x28 || b == 0x29 {  // parentheses
                false
            } else if b == 0x5b {  // '[' opens a group; no nesting
                !in_group && interface_scan(s, i + 1, true, true)
            } else if b == 0x5d {  // ']' closes the open group
                in_group && interface_scan(s, i + 1, true, false)
            } else {
                interface_scan(s, i + 1, in_str, in_group)
            }
        }
    }
}

/// The interface bytes the loader is willing to hand to the outside
/// parser: the conservative scan accepts them from the start.
pub open spec fn interface_bytes_checkable(s: Seq<u8>) -> bool {
    interface_scan(s, 0, false, false)
}

/// Runs the conservative scan over the raw interface bytes.
pub fn check_interface_bytes(s: &[u8]) -> (r: bool)
    ensures
        r == interface_bytes_checkable(s@),
{
    let mut i: usize = 0;
    let mut in_str = false;
    let mut in_group = false;
    while i < s.len()
        invariant
            i <= s@.len(),
            !in_str ==> !in_group,
            interface_bytes_checkable(s@) == interface_scan(s@, i as int, in_str, in_group),
        decreases s@.len() - i,
    {
        let b = s[i];
        if b >= 0x80 || b == 0x5c {
            return false;
        }
        if !in_str {
            if b == 0x22 {
                in_str = true;
                in_group = false;
            }
        } else {
            if b == 0x22 {
                if in_group {
                    return false;
                }
                in_str = false;
            } else if b == 0x28 || b == 0x29 {
                return false;
            } else if b == 0x5b {
                if in_group {
                    return false;
                }
                in_group = true;
            } else if b == 0x5d {
                if !in_group {
                    return false;
                }
                in_group = false;
            }
        }
        i += 1;
    }
    true
}

/// Relies on ethers::abi::Contract::load (ethabi's `Contract`): it parses a
/// JSON interface descriptor with serde, deterministically in the bytes
/// alone, and returns an error exactly when they are not one. Admitted are
/// only bytes the conservative scan accepts: within that set every string
/// the parser hands to ethabi's parameter type reader is ASCII, free of
/// parentheses and escapes, with brackets only as flat closed groups, and
/// on those the reader — the parse's one non-total step — returns normally;
/// the rest of the deserialization is plain serde over total visitors.
#[verifier::external_body]
fn parse_interface(bytes: &[u8]) -> (r: Result<ethers::abi::Abi, OrchestratorError>)
    requires
        interface_bytes_checkable(bytes@),
    ensures
        r is Ok <==> interface_accepted(bytes@),
        r matches Err(e) ==> e == OrchestratorError::ArtifactMalformed,
{
    match ethers::abi::Abi::load(bytes) {
        Ok(a) => Ok(a),
        Err(_) => Err(OrchestratorError::ArtifactMalformed),
    }
}

/// A loaded contract artifact: the parsed interface descriptor and the
/// canonical bytecode payload. Immutable once loaded, and owned by the
/// deployment that consumes it.
pub struct Artifact {
    pub interface: ethers::abi::Abi,
    pub bytecode: Vec<u8>,
}

/// Builds an artifact from the contents of its two files; an absent file is
/// handed in as `None`. Fails with `ArtifactNotFound` exactly when either
/// file is absent, and otherwise with `ArtifactMalformed` exactly when the
/// interface bytes fall outside the conservative scan, the interface
/// descriptor is not well-formed, or the bytecode text does not
/// canonicalize to a hex payload. On success the artifact's bytecode is
/// exactly that canonical payload.
pub fn load_artifact(interface_src: Option<Vec<u8>>, bytecode_src: Option<Vec<u8>>) -> (r: Result<
    Artifact,
    OrchestratorError,
>)
    ensures
        r is Ok <==> (interface_src matches Some(i) && bytecode_src matches Some(b)
            && interface_bytes_checkable(i@) && interface_accepted(i@) && bytecode_payload(b@)
            is Some),
        r matches Ok(a) ==> Some(a.bytecode@) == bytecode_payload(bytecode_src.unwrap()@),
        r matches Err(e) ==> ((e == OrchestratorError::ArtifactNotFound) <==> (interface_src
            is None || bytecode_src is None)),
        r matches Err(e) ==> (e == OrchestratorError::ArtifactNotFound || e
            == OrchestratorError::ArtifactMalformed),
{
    let interface_bytes = match interface_src {
        Some(v) => v,
        None => {
            return Err(OrchestratorError::ArtifactNotFound);
        },
    };
    let bytecode_bytes = match bytecode_src {
        Some(v) => v,
        None => {
            return Err(OrchestratorError::ArtifactNotFound);
        },
    };
    if !check_interface_bytes(interface_bytes.as_slice()) {
        return Err(OrchestratorError::ArtifactMalformed);
    }
    let interface = match parse_interface(interface_bytes.as_slice()) {
        Ok(a) => a,
        Err(e) => {
            return Err(e);
        },
    };
    let bytecode = match parse_bytecode(bytecode_bytes.as_slice()) {
        Ok(b) => b,
        Err(e) => {
            return Err(e);
        },
    };
    Ok(Artifact { interface, bytecode })
}

} // verus!
