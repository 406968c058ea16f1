//! The copy-verify-delete transfer: nothing is deleted before every copy
//! has been verified.
use vstd::prelude::*;

verus! {

/// Why a copied entry failed verification.
#[derive(Clone, Copy, Debug, PartialEq, Eq, Structural)]
pub enum VerifyFailure {
    /// Nothing exists at the destination path after the copy.
    DestinationMissing,
    /// The copied file's size differs from the source file's size.
    SizeMismatch,
}

/// Why moving a directory's contents failed.
#[derive(Clone, Debug, PartialEq, Eq)]
pub enum TransferError {
    SourceMissing,
    SourceNotDirectory,
    /// An entry of the same name is already in the destination; moving
    /// would overwrite it, so nothing is copied.
    DestinationExists(String),
    CopyFailed(String, String),
    VerificationFailed(String, VerifyFailure),
    DeleteFailed(String, String),
}

/// What was observed of one top-level entry after it was copied.
#[derive(Clone, Debug)]
pub struct CopyCheck {
    /// Source path of the entry.
    pub source: String,
    /// Destination path of the entry.
    pub dest: String,
    pub dest_exists: bool,
    pub source_is_file: bool,
    pub source_len: u64,
    pub dest_len: u64,
}

/// How one copied entry fails verification, if it does.
pub open spec fn failure_of(c: CopyCheck) -> Option<VerifyFailure> {
    if !c.dest_exists {
        Some(VerifyFailure::DestinationMissing)
    } else if c.source_is_file && c.source_len != c.dest_len {
        Some(VerifyFailure::SizeMismatch)
    } else {
        None
    }
}

pub open spec fn passes(c: CopyCheck) -> bool {
    failure_of(c).is_none()
}

/// Every copied entry passed verification.
pub open spec fn all_pass(checks: Seq<CopyCheck>) -> bool {
    forall|i: int| 0 <= i < checks.len() ==> #[trigger] passes(checks[i])
}

/// Index of the first entry that fails verification.
pub open spec fn first_failure(checks: Seq<CopyCheck>, i: int) -> bool {
    &&& 0 <= i < checks.len()
    &&& !passes(checks[i])
    &&& forall|j: int| 0 <= j < i ==> #[trigger] passes(checks[j])
}

/// The source entries that may be deleted after a copy: all of them when
/// every copy verified, none otherwise.
pub open spec fn deletable(checks: Seq<CopyCheck>) -> Option<Seq<Seq<char>>> {
    if all_pass(checks) {
        Some(checks.map_values(|c: CopyCheck| c.source@))
    } else {
        None
    }
}

/// Refuses a transfer whose source is missing or is not a directory.
pub fn check_source(exists: bool, is_dir: bool) -> (r: Result<(), TransferError>)
    ensures
        !exists ==> r == Err::<(), TransferError>(TransferError::SourceMissing),
        exists && !is_dir ==> r == Err::<(), TransferError>(TransferError::SourceNotDirectory),
        exists && is_dir ==> r is Ok,
{
    if !exists {
        Err(TransferError::SourceMissing)
    } else if !is_dir {
        Err(TransferError::SourceNotDirectory)
    } else {
        Ok(())
    }
}

/// What was observed of one top-level source entry before anything is
/// copied: its name, its destination path, and what is already there.
#[derive(Clone, Debug)]
pub struct DestProbe {
    pub name: String,
    pub dest: String,
    pub dest_exists: bool,
    /// The destination holds a file of zero bytes.
    pub dest_is_empty_file: bool,
}

/// The destination is taken by something the move must not overwrite:
/// anything but the destination folder's own empty marker, which is named
/// like the folder (`marker_name`).
pub open spec fn taken(p: DestProbe, marker_name: Seq<char>) -> bool {
    p.dest_exists && !(p.name@ == marker_name && p.dest_is_empty_file)
}

/// Index of the first destination that is taken.
pub open spec fn first_taken(probes: Seq<DestProbe>, marker_name: Seq<char>, i: int) -> bool {
    &&& 0 <= i < probes.len()
    &&& taken(probes[i], marker_name)
    &&& forall|j: int| 0 <= j < i ==> !taken(#[trigger] probes[j], marker_name)
}

/// Refuses a transfer that would overwrite an entry of the destination
/// folder, other than the folder's own empty marker (named `marker_name`),
/// which the move replaces. On a refusal nothing has been copied or deleted.
pub fn check_destinations(probes: &Vec<DestProbe>, marker_name: &str) -> (r: Result<(), TransferError>)
    ensures
        r is Ok <==> forall|i: int| 0 <= i < probes@.len() ==> !taken(#[trigger] probes@[i], marker_name@),
        r matches Err(e) ==> exists|i: int| #[trigger] first_taken(probes@, marker_name@, i)
            && e == TransferError::DestinationExists(probes@[i].dest),
{
    let marker = marker_name.to_string();
    let mut i: usize = 0;
    while i < probes.len()
        invariant
            i <= probes@.len(),
            marker@ == marker_name@,
            forall|j: int| 0 <= j < i ==> !taken(#[trigger] probes@[j], marker_name@),
        decreases probes@.len() - i,
    {
        let p = &probes[i];
        if p.dest_exists && !(p.name == marker && p.dest_is_empty_file) {
            assert(first_taken(probes@, marker_name@, i as int));
            return Err(TransferError::DestinationExists(p.dest.clone()));
        }
        i = i + 1;
    }
    Ok(())
}

/// Whether a transfer error fails the operation that asked for the move. A
/// failed deletion comes after every copy was verified, so the data is
/// safe at the destination: it is reported but not fatal.
pub fn is_fatal_transfer_error(e: &TransferError) -> (r: bool)
    ensures
        r == !(e is DeleteFailed),
{
    !matches!(e, TransferError::DeleteFailed(_, _))
}

/// Verifies every copied entry and, only when all of them verify, returns
/// the source paths to delete. Otherwise reports the first entry that failed
/// and nothing is to be deleted.
pub fn plan_deletions(checks: &Vec<CopyCheck>) -> (r: Result<Vec<String>, TransferError>)
    ensures
        r is Ok <==> all_pass(checks@),
        r matches Ok(v) ==> deletable(checks@) == Some(v@.map_values(|s: String| s@)),
        r matches Err(e) ==> exists|i: int| #[trigger] first_failure(checks@, i)
            && e == TransferError::VerificationFailed(checks@[i].dest, failure_of(checks@[i]).unwrap()),
{
    let mut i: usize = 0;
    while i < checks.len()
        invariant
            i <= checks@.len(),
            forall|j: int| 0 <= j < i ==> #[trigger] passes(checks@[j]),
        decreases checks@.len() - i,
    {
        let c = &checks[i];
        if !c.dest_exists {
            assert(first_failure(checks@, i as int));
            return Err(TransferError::VerificationFailed(c.dest.clone(), VerifyFailure::DestinationMissing));
        }
        if c.source_is_file && c.source_len != c.dest_len {
            assert(first_failure(checks@, i as int));
            return Err(TransferError::VerificationFailed(c.dest.clone(), VerifyFailure::SizeMismatch));
        }
        i = i + 1;
    }
    let mut out: Vec<String> = Vec::new();
    let mut k: usize = 0;
    while k < checks.len()
        invariant
            k <= checks@.len(),
            out@.len() == k,
            forall|j: int| 0 <= j < k ==> #[trigger] out@[j]@ == checks@[j].source@,
        decreases checks@.len() - k,
    {
        out.push(checks[k].source.clone());
        k = k + 1;
    }
    assert(out@.map_values(|s: String| s@) =~= checks@.map_values(|c: CopyCheck| c.source@));
    Ok(out)
}

/// A failed verification of any copied entry leaves every source entry in
/// place: no deletion is planned.
pub proof fn lemma_failed_verification_blocks_deletion(checks: Seq<CopyCheck>, i: int)
    requires
        0 <= i < checks.len(),
        !passes(checks[i]),
    ensures
        deletable(checks) is None,
{
}

} // verus!
