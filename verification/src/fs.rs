//! File access: the user-granted permission state and the cursor
//! arithmetic of a writable file.

use vstd::prelude::*;

verus! {

/// File reading/writing permissions granted by the user.
#[derive(Debug, Clone, Copy, PartialEq, Eq)]
pub enum PermisionStatus {
    /// Access was granted.
    Granted,
    /// Access was denied.
    Denied,
    /// The user has yet to be asked.
    Prompt,
}

/// The label of each permission state in the host's answers.
pub open spec fn spec_permission_label(p: PermisionStatus) -> Seq<char> {
    match p {
        PermisionStatus::Granted => "granted"@,
        PermisionStatus::Denied => "denied"@,
        PermisionStatus::Prompt => "prompt"@,
    }
}

impl PermisionStatus {
    /// The label under which the host reports this permission state.
    pub fn as_label(&self) -> (r: &'static str)
        ensures
            r@ == spec_permission_label(*self),
    {
        match self {
            PermisionStatus::Granted => "granted",
            PermisionStatus::Denied => "denied",
            PermisionStatus::Prompt => "prompt",
        }
    }
}

/// Where a file-cursor move is measured from.
#[derive(Debug, Clone, Copy, PartialEq, Eq)]
pub enum SeekFrom {
    /// An absolute offset from the start of the file.
    Start(u64),
    /// A signed offset from the end of the file.
    End(i64),
    /// A signed offset from the current cursor.
    Current(i64),
}

/// Why a cursor move was rejected.
#[derive(Debug, Clone, Copy, PartialEq, Eq)]
pub enum SeekError {
    /// The requested position does not fit the cursor's range.
    Overflow,
}

/// The signed position a cursor move asks for, before the range check.
pub open spec fn spec_seek_target(pos: SeekFrom, size: u64, current: u64) -> int {
    match pos {
        SeekFrom::Start(offset) => offset as int,
        SeekFrom::End(offset) => size + offset,
        SeekFrom::Current(offset) => current + offset,
    }
}

/// Resolves a cursor move over a file of `size` bytes with the cursor
/// at `current`: the move succeeds exactly when the requested position
/// lies in the cursor's range, and it is never truncated.
pub fn resolve_seek(pos: SeekFrom, size: u64, current: u64) -> (r: Result<u64, SeekError>)
    ensures
        0 <= spec_seek_target(pos, size, current) <= u64::MAX ==> r == Ok::<u64, SeekError>(
            spec_seek_target(pos, size, current) as u64,
        ),
        !(0 <= spec_seek_target(pos, size, current) <= u64::MAX) ==> r == Err::<u64, SeekError>(
            SeekError::Overflow,
        ),
{
    match pos {
        SeekFrom::Start(offset) => Ok(offset),
        SeekFrom::End(offset) => add_signed(size, offset),
        SeekFrom::Current(offset) => add_signed(current, offset),
    }
}

/// Adds a signed offset to an unsigned position, rejecting a result
/// outside the position's range.
fn add_signed(base: u64, offset: i64) -> (r: Result<u64, SeekError>)
    ensures
        0 <= base + offset <= u64::MAX ==> r == Ok::<u64, SeekError>((base + offset) as u64),
        !(0 <= base + offset <= u64::MAX) ==> r == Err::<u64, SeekError>(SeekError::Overflow),
{
    if offset >= 0 {
        let delta = offset as u64;
        if base <= u64::MAX - delta {
            Ok(base + delta)
        } else {
            Err(SeekError::Overflow)
        }
    } else {
        let magnitude = (-(offset as i128)) as u64;
        if magnitude <= base {
            Ok(base - magnitude)
        } else {
            Err(SeekError::Overflow)
        }
    }
}

} // verus!
