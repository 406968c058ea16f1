//! Rules of the directory-alias adapter: when an alias may be created or
//! removed, and how its target is read back and normalized.
use vstd::prelude::*;
use crate::text::{chars_of, string_from_chars};

verus! {

/// Why an alias operation was refused or failed.
#[derive(Clone, Debug, PartialEq, Eq)]
pub enum RedirectError {
    TargetMissing,
    TargetNotDirectory,
    ParentMissing,
    LinkAlreadyExists,
    NotARedirect,
    PlatformOperationFailed(String),
}

impl RedirectError {
    /// A readable description of the error.
    pub fn message(&self) -> (r: String)
        ensures
            match self {
                RedirectError::TargetMissing => r@ == "Target directory does not exist"@,
                RedirectError::TargetNotDirectory => r@ == "Target is not a directory"@,
                RedirectError::ParentMissing => r@ == "Parent directory does not exist"@,
                RedirectError::LinkAlreadyExists => r@ == "Link path already exists"@,
                RedirectError::NotARedirect => r@ == "Path is not a junction point"@,
                RedirectError::PlatformOperationFailed(d) => r@ == d@,
            },
    {
        match self {
            RedirectError::TargetMissing => "Target directory does not exist".to_string(),
            RedirectError::TargetNotDirectory => "Target is not a directory".to_string(),
            RedirectError::ParentMissing => "Parent directory does not exist".to_string(),
            RedirectError::LinkAlreadyExists => "Link path already exists".to_string(),
            RedirectError::NotARedirect => "Path is not a junction point".to_string(),
            RedirectError::PlatformOperationFailed(d) => d.clone(),
        }
    }
}

/// What the filesystem showed just before an alias is created.
#[derive(Clone, Copy, Debug, PartialEq, Eq, Structural)]
pub struct CreateProbe {
    pub target_exists: bool,
    pub target_is_dir: bool,
    pub link_parent_exists: bool,
    pub link_exists: bool,
}

/// The first precondition of alias creation that `p` breaks, if any.
pub open spec fn create_refusal(p: CreateProbe) -> Option<RedirectError> {
    if !p.target_exists {
        Some(RedirectError::TargetMissing)
    } else if !p.target_is_dir {
        Some(RedirectError::TargetNotDirectory)
    } else if !p.link_parent_exists {
        Some(RedirectError::ParentMissing)
    } else if p.link_exists {
        Some(RedirectError::LinkAlreadyExists)
    } else {
        None
    }
}

/// Decides whether an alias may be created: the target must be an existing
/// directory, the link's parent must exist and the link itself must not.
pub fn check_create(p: &CreateProbe) -> (r: Result<(), RedirectError>)
    ensures
        r.is_ok() <==> create_refusal(*p).is_none(),
        r matches Err(e) ==> create_refusal(*p) == Some(e),
{
    if !p.target_exists {
        Err(RedirectError::TargetMissing)
    } else if !p.target_is_dir {
        Err(RedirectError::TargetNotDirectory)
    } else if !p.link_parent_exists {
        Err(RedirectError::ParentMissing)
    } else if p.link_exists {
        Err(RedirectError::LinkAlreadyExists)
    } else {
        Ok(())
    }
}

/// What removing an alias at a path amounts to.
#[derive(Clone, Copy, Debug, PartialEq, Eq, Structural)]
pub enum Removal {
    /// Nothing is at the path: removal is a no-op.
    NothingThere,
    /// The alias entry itself is removed; its target is left alone.
    RemoveAlias,
}

/// Decides how to remove what is at a link: nothing when it is absent, the
/// alias entry when it is an alias, and a refusal otherwise, so that a real
/// directory tree is never removed through this path.
pub fn check_remove(link_exists: bool, link_is_alias: bool) -> (r: Result<Removal, RedirectError>)
    ensures
        !link_exists ==> r == Ok::<Removal, RedirectError>(Removal::NothingThere),
        link_exists && link_is_alias ==> r == Ok::<Removal, RedirectError>(Removal::RemoveAlias),
        link_exists && !link_is_alias ==> r == Err::<Removal, RedirectError>(RedirectError::NotARedirect),
{
    if !link_exists {
        Ok(Removal::NothingThere)
    } else if link_is_alias {
        Ok(Removal::RemoveAlias)
    } else {
        Err(RedirectError::NotARedirect)
    }
}

/// The platform's verbatim-path prefix, `\\?\`.
pub open spec fn verbatim_prefix() -> Seq<char> {
    seq!['\\', '\\', '?', '\\']
}

/// The object-manager prefix, `\??\`, with which a junction stores its target.
pub open spec fn nt_prefix() -> Seq<char> {
    seq!['\\', '?', '?', '\\']
}

pub open spec fn has_verbatim_prefix(s: Seq<char>) -> bool {
    s.len() >= 4 && (s.subrange(0, 4) == verbatim_prefix() || s.subrange(0, 4) == nt_prefix())
}

/// A resolved alias target with one leading platform prefix taken away.
pub open spec fn normalized(s: Seq<char>) -> Seq<char> {
    if has_verbatim_prefix(s) {
        s.subrange(4, s.len() as int)
    } else {
        s
    }
}

/// Normalizes the target read from an alias by removing a leading `\\?\`
/// or `\??\`.
pub fn normalize_target(raw: &str) -> (r: String)
    ensures
        r@ == normalized(raw@),
{
    let v = chars_of(raw);
    if v.len() >= 4 && v[0] == '\\' && v[3] == '\\' && v[2] == '?' && (v[1] == '\\' || v[1] == '?') {
        assert(v@.subrange(0, 4) =~= verbatim_prefix() || v@.subrange(0, 4) =~= nt_prefix());
        let mut out: Vec<char> = Vec::new();
        let mut i: usize = 4;
        while i < v.len()
            invariant
                4 <= i <= v@.len(),
                out@ == v@.subrange(4, i as int),
            decreases v@.len() - i,
        {
            out.push(v[i]);
            proof {
                assert(v@.subrange(4, i + 1) =~= v@.subrange(4, i as int).push(v@[i as int]));
            }
            i = i + 1;
        }
        string_from_chars(&out)
    } else {
        proof {
            if has_verbatim_prefix(v@) {
                assert(v@[0] == v@.subrange(0, 4)[0]);
                assert(v@[1] == v@.subrange(0, 4)[1]);
                assert(v@[2] == v@.subrange(0, 4)[2]);
                assert(v@[3] == v@.subrange(0, 4)[3]);
            }
        }
        string_from_chars(&v)
    }
}

/// Normalization gives back a plain target unchanged, and gives it back
/// again after the platform has put either of its prefixes in front of it.
pub proof fn lemma_normalize_round_trip(target: Seq<char>)
    requires
        !has_verbatim_prefix(target),
    ensures
        normalized(target) == target,
        normalized(verbatim_prefix() + target) == target,
        normalized(nt_prefix() + target) == target,
{
    let s = verbatim_prefix() + target;
    assert(s.subrange(0, 4) =~= verbatim_prefix());
    assert(s.subrange(4, s.len() as int) =~= target);
    let t = nt_prefix() + target;
    assert(t.subrange(0, 4) =~= nt_prefix());
    assert(t.subrange(4, t.len() as int) =~= target);
}

/// File attribute bit of an entry that is a reparse point.
pub const FILE_ATTRIBUTE_REPARSE_POINT: u32 = 0x400;

/// Attribute value the platform reports for a path that does not exist.
pub const INVALID_FILE_ATTRIBUTES: u32 = 0xFFFF_FFFF;

/// Reparse tag of a mount point (a directory junction).
pub const IO_REPARSE_TAG_MOUNT_POINT: u32 = 0xA000_0003;

/// Whether an entry is a directory alias: its attributes mark a reparse
/// point and its reparse tag is a mount point's. The attribute value
/// reported for a missing path describes no alias.
pub fn attributes_mark_alias(attributes: u32, reparse_tag: u32) -> (r: bool)
    ensures
        r == (attributes != INVALID_FILE_ATTRIBUTES && (attributes & FILE_ATTRIBUTE_REPARSE_POINT) != 0
            && reparse_tag == IO_REPARSE_TAG_MOUNT_POINT),
{
    attributes != INVALID_FILE_ATTRIBUTES && (attributes & FILE_ATTRIBUTE_REPARSE_POINT) != 0
        && reparse_tag == IO_REPARSE_TAG_MOUNT_POINT
}

/// Little-endian 16-bit value at byte `i`.
pub open spec fn le_u16(b: Seq<u8>, i: int) -> int {
    b[i] as int + 256 * (b[i + 1] as int)
}

/// Little-endian 32-bit value at byte `i`.
pub open spec fn le_u32(b: Seq<u8>, i: int) -> int {
    le_u16(b, i) + 65536 * le_u16(b, i + 2)
}

/// Byte offset of the path buffer in a mount-point reparse buffer.
pub open spec fn path_buffer_start() -> int {
    16
}

/// The substitute name of a mount-point reparse buffer, as UTF-16 code
/// units: its offset and length (in bytes) are the 16-bit values at bytes 8
/// and 10, counted from the path buffer at byte 16.
pub open spec fn substitute_name(b: Seq<u8>) -> Seq<u16> {
    Seq::new((le_u16(b, 10) / 2) as nat, |k: int|
        le_u16(b, path_buffer_start() + 2 * (le_u16(b, 8) / 2 + k)) as u16)
}

/// The buffer holds the fixed header and the whole substitute name.
pub open spec fn mount_point_complete(b: Seq<u8>) -> bool {
    b.len() >= path_buffer_start()
        && path_buffer_start() + 2 * (le_u16(b, 8) / 2 + le_u16(b, 10) / 2) <= b.len()
}

pub open spec fn is_high_surrogate(u: u16) -> bool {
    0xD800 <= u && u <= 0xDBFF
}

pub open spec fn is_low_surrogate(u: u16) -> bool {
    0xDC00 <= u && u <= 0xDFFF
}

/// UTF-16 decoding in which each unpaired surrogate becomes U+FFFD.
pub open spec fn utf16_lossy_of(units: Seq<u16>) -> Seq<char>
    decreases units.len(),
{
    if units.len() == 0 {
        seq![]
    } else if !is_high_surrogate(units[0]) && !is_low_surrogate(units[0]) {
        seq![(units[0] as u32) as char] + utf16_lossy_of(units.drop_first())
    } else if is_high_surrogate(units[0]) && units.len() >= 2 && is_low_surrogate(units[1]) {
        seq![(0x10000 + (units[0] - 0xD800) * 0x400 + (units[1] - 0xDC00)) as u32 as char]
            + utf16_lossy_of(units.subrange(2, units.len() as int))
    } else {
        seq!['\u{FFFD}'] + utf16_lossy_of(units.drop_first())
    }
}

/// Relies on `String::from_utf16_lossy`: UTF-16 decoding with U+FFFD for
/// each unpaired surrogate.
#[verifier::external_body]
fn utf16_lossy(units: &Vec<u16>) -> (r: String)
    ensures
        r@ == utf16_lossy_of(units@),
        units@.len() == 0 ==> r@.len() == 0,
{
    String::from_utf16_lossy(units.as_slice())
}

fn read_le_u16(b: &Vec<u8>, i: usize) -> (r: u16)
    requires
        i + 1 < b@.len(),
    ensures
        r as int == le_u16(b@, i as int),
{
    let n = b.len();
    assert(i + 1 < n);
    (b[i] as u16) + 256 * (b[i + 1] as u16)
}

/// Reads the target of a directory junction from its reparse buffer: the
/// tag must be a mount point's, and the substitute name, decoded from
/// UTF-16, is returned without its verbatim prefix.
pub fn mount_point_target(buf: &Vec<u8>) -> (r: Result<String, RedirectError>)
    ensures
        !mount_point_complete(buf@) ==> r is Err,
        mount_point_complete(buf@) && le_u32(buf@, 0) != IO_REPARSE_TAG_MOUNT_POINT
            ==> r == Err::<String, RedirectError>(RedirectError::NotARedirect),
        mount_point_complete(buf@) && le_u32(buf@, 0) == IO_REPARSE_TAG_MOUNT_POINT
            ==> (r matches Ok(t) && t@ == normalized(utf16_lossy_of(substitute_name(buf@)))),
{
    let len = buf.len();
    if len < 16 {
        return Err(RedirectError::PlatformOperationFailed("Reparse buffer is truncated".to_string()));
    }
    let tag_low = read_le_u16(buf, 0);
    let tag_high = read_le_u16(buf, 2);
    let offset = (read_le_u16(buf, 8) / 2) as usize;
    let count = (read_le_u16(buf, 10) / 2) as usize;
    if offset + count > (len - 16) / 2 {
        proof {
            assert(!mount_point_complete(buf@));
        }
        return Err(RedirectError::PlatformOperationFailed("Reparse buffer is truncated".to_string()));
    }
    if tag_low != 0x0003 || tag_high != 0xA000 {
        return Err(RedirectError::NotARedirect);
    }
    let mut units: Vec<u16> = Vec::new();
    let mut k: usize = 0;
    while k < count
        invariant
            len == buf@.len(),
            16 <= len,
            offset + count <= (len - 16) / 2,
            offset == le_u16(buf@, 8) / 2,
            count == le_u16(buf@, 10) / 2,
            k <= count,
            units@.len() == k,
            forall|j: int| 0 <= j < k ==> units@[j] == substitute_name(buf@)[j],
        decreases count - k,
    {
        let at = 16 + 2 * (offset + k);
        units.push(read_le_u16(buf, at));
        k = k + 1;
    }
    assert(units@ =~= substitute_name(buf@));
    let decoded = utf16_lossy(&units);
    Ok(normalize_target(decoded.as_str()))
}

} // verus!
