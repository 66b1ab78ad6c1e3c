//! Validation of item identifiers and of the unlock-method flag.
//!
//! A batch is given as a list of address strings. Each must be a
//! well-formed account address, or the whole batch is rejected before any
//! item is processed: a malformed list is a batch-level fault, not a
//! per-item one.

use core::str::FromStr;
use vstd::prelude::*;
use vstd::string::StringSliceAdditionalSpecFns;

verus! {

/// Whether a string is a well-formed account address.
pub uninterp spec fn address_ok(s: Seq<char>) -> bool;

/// Relies on `solana_program::pubkey::Pubkey::from_str`, which accepts
/// exactly the base58 encodings of 32-byte addresses; `address_ok` names
/// that set of strings.
#[verifier::external_body]
fn parse_address(s: &String) -> (r: bool)
    ensures
        r == address_ok(s@),
{
    solana_program::pubkey::Pubkey::from_str(s).is_ok()
}

/// Check a batch input list: every entry must be a well-formed address.
///
/// Returns `Ok(())` when every entry parses, and `Err(i)` with the index
/// of the first malformed entry otherwise, so the caller can reject the
/// whole batch before any item is processed.
pub fn check_mint_list(mints: &Vec<String>) -> (r: Result<(), usize>)
    ensures
        r is Ok <==> (forall|i: int| 0 <= i < mints@.len() ==> address_ok(mints@[i]@)),
        (r matches Err(i) ==> {
            &&& i < mints@.len()
            &&& !address_ok(mints@[i as int]@)
            &&& forall|j: int| 0 <= j < i ==> address_ok(mints@[j]@)
        }),
{
    let mut i: usize = 0;
    while i < mints.len()
        invariant
            i <= mints@.len(),
            forall|j: int| 0 <= j < i ==> address_ok(mints@[j]@),
        decreases mints@.len() - i,
    {
        if !parse_address(&mints[i]) {
            return Err(i);
        }
        i += 1;
    }
    Ok(())
}

/// How migrated items are unlocked after the campaign ends.
#[derive(Clone, Copy, Debug, PartialEq, Eq)]
pub enum UnlockMethod {
    Timed,
    Vote,
}

/// ASCII case folding of one byte: upper-case letters map to lower case.
pub open spec fn fold_byte(b: u8) -> u8 {
    if 65 <= b && b <= 90 {
        (b + 32) as u8
    } else {
        b
    }
}

/// Whether byte sequence `s`, folded to lower case, is exactly `t`.
pub open spec fn folds_to(s: Seq<u8>, t: Seq<u8>) -> bool {
    s.len() == t.len() && (forall|i: int| 0 <= i < s.len() ==> fold_byte(s[i]) == t[i])
}

/// The bytes of "timed".
pub open spec fn timed_bytes() -> Seq<u8> {
    seq![116u8, 105u8, 109u8, 101u8, 100u8]
}

/// The bytes of "vote".
pub open spec fn vote_bytes() -> Seq<u8> {
    seq![118u8, 111u8, 116u8, 101u8]
}

/// ASCII case folding of one byte, executable form.
fn fold_byte_exec(b: u8) -> (r: u8)
    ensures
        r == fold_byte(b),
{
    if 65 <= b && b <= 90 {
        b + 32
    } else {
        b
    }
}

/// Whether `bytes`, case-folded, reads "timed".
fn is_timed(bytes: &[u8]) -> (r: bool)
    ensures
        r == folds_to(bytes@, timed_bytes()),
{
    if bytes.len() != 5 {
        return false;
    }
    let r = fold_byte_exec(bytes[0]) == 116 && fold_byte_exec(bytes[1]) == 105
        && fold_byte_exec(bytes[2]) == 109 && fold_byte_exec(bytes[3]) == 101
        && fold_byte_exec(bytes[4]) == 100;
    proof {
        if r {
            assert(forall|i: int| 0 <= i < 5 ==> fold_byte(bytes@[i]) == timed_bytes()[i]) by {
                assert(timed_bytes()[0] == 116);
                assert(timed_bytes()[1] == 105);
                assert(timed_bytes()[2] == 109);
                assert(timed_bytes()[3] == 101);
                assert(timed_bytes()[4] == 100);
            }
        }
    }
    r
}

/// Whether `bytes`, case-folded, reads "vote".
fn is_vote(bytes: &[u8]) -> (r: bool)
    ensures
        r == folds_to(bytes@, vote_bytes()),
{
    if bytes.len() != 4 {
        return false;
    }
    let r = fold_byte_exec(bytes[0]) == 118 && fold_byte_exec(bytes[1]) == 111
        && fold_byte_exec(bytes[2]) == 116 && fold_byte_exec(bytes[3]) == 101;
    proof {
        if r {
            assert(forall|i: int| 0 <= i < 4 ==> fold_byte(bytes@[i]) == vote_bytes()[i]) by {
                assert(vote_bytes()[0] == 118);
                assert(vote_bytes()[1] == 111);
                assert(vote_bytes()[2] == 116);
                assert(vote_bytes()[3] == 101);
            }
        }
    }
    r
}

/// Parse the unlock-method flag, ignoring ASCII case: "timed" selects
/// `Timed`, "vote" selects `Vote`, anything else is rejected.
pub fn parse_unlock_method(s: &str) -> (r: Option<UnlockMethod>)
    ensures
        r == Some(UnlockMethod::Timed) <==> folds_to(s.spec_bytes(), timed_bytes()),
        r == Some(UnlockMethod::Vote) <==> folds_to(s.spec_bytes(), vote_bytes()),
        r is None <==> {
            &&& !folds_to(s.spec_bytes(), timed_bytes())
            &&& !folds_to(s.spec_bytes(), vote_bytes())
        },
{
    let bytes = s.as_bytes();
    if is_timed(bytes) {
        Some(UnlockMethod::Timed)
    } else if is_vote(bytes) {
        Some(UnlockMethod::Vote)
    } else {
        None
    }
}

} // verus!
