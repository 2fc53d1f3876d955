//! The decisions of `send_command`: which characteristic receives the
//! payload, and how the write's outcome is reported.
use vstd::prelude::*;
use crate::error::CommandError;
use crate::ids::{target_characteristic_id, uuid_text_value, CHARACTERISTIC_UUID};

verus! {

/// A confirmed write to perform: the payload goes, unchanged, to the
/// characteristic at `index` of the resolved attribute table.
#[derive(Debug, PartialEq, Eq)]
pub struct WriteRequest {
    pub index: usize,
    pub payload: Vec<u8>,
}

/// Index of the first characteristic whose identifier is `target`.
pub open spec fn first_index_of(ids: Seq<u128>, target: u128) -> Option<int> {
    if exists|i: int| 0 <= i < ids.len() && ids[i] == target {
        Some(choose|i: int|
            0 <= i < ids.len() && ids[i] == target && forall|j: int|
                0 <= j < i ==> ids[j] != target)
    } else {
        None
    }
}

/// What a command against the attribute table `ids` and `payload` amounts to,
/// once the target characteristic identifier is known as `target`.
pub open spec fn request_for(ids: Seq<u128>, target: Option<u128>, payload: Seq<u8>) -> Result<
    (int, Seq<u8>),
    CommandError,
> {
    match target {
        Some(t) => match first_index_of(ids, t) {
            Some(i) => Ok((i, payload)),
            None => Err(CommandError::CharacteristicNotFound),
        },
        None => Err(CommandError::CharacteristicNotFound),
    }
}

/// Finds the first characteristic in `ids` equal to `target`.
pub fn locate_characteristic(ids: &Vec<u128>, target: u128) -> (r: Option<usize>)
    ensures
        match r {
            Some(i) => first_index_of(ids@, target) == Some(i as int),
            None => first_index_of(ids@, target) is None,
        },
{
    let mut i: usize = 0;
    while i < ids.len()
        invariant
            i <= ids@.len(),
            forall|j: int| 0 <= j < i ==> ids@[j] != target,
        decreases ids.len() - i,
    {
        if ids[i] == target {
            let ghost k = choose|k: int|
                0 <= k < ids@.len() && ids@[k] == target && forall|j: int|
                    0 <= j < k ==> ids@[j] != target;
            assert(ids@[i as int] == target);
            proof {
                if k < i {
                    assert(ids@[k] != target);
                } else if k > i {
                    assert(ids@[i as int] != target);
                }
            }
            return Some(i);
        }
        i = i + 1;
    }
    None
}

/// Plans a command: the payload, untouched, goes to the first characteristic
/// of `ids` whose identifier is `target`; without one, nothing is written.
pub fn request_with(ids: &Vec<u128>, target: Option<u128>, payload: Vec<u8>) -> (r: Result<
    WriteRequest,
    CommandError,
>)
    ensures
        match (r, request_for(ids@, target, payload@)) {
            (Ok(w), Ok((i, p))) => w.index == i && w.payload@ == p,
            (Err(e), Err(f)) => e == f,
            _ => false,
        },
{
    match target {
        Some(t) => match locate_characteristic(ids, t) {
            Some(index) => Ok(WriteRequest { index, payload }),
            None => Err(CommandError::CharacteristicNotFound),
        },
        None => Err(CommandError::CharacteristicNotFound),
    }
}

/// Plans a command against the resolved attribute table `ids` of the
/// connected peripheral, targeting the fixed command characteristic.
pub fn command_request(ids: &Vec<u128>, payload: Vec<u8>) -> (r: Result<WriteRequest, CommandError>)
    ensures
        match (r, request_for(ids@, uuid_text_value(CHARACTERISTIC_UUID@), payload@)) {
            (Ok(w), Ok((i, p))) => w.index == i && w.payload@ == p,
            (Err(e), Err(f)) => e == f,
            _ => false,
        },
{
    let target = target_characteristic_id();
    request_with(ids, target, payload)
}

/// Reports the outcome of the confirmed write: a transport error becomes
/// `WriteFailed` with its text; nothing is retried.
pub fn write_outcome(outcome: Result<(), String>) -> (r: Result<(), CommandError>)
    ensures
        match outcome {
            Ok(()) => r == Ok::<(), CommandError>(()),
            Err(m) => r == Err::<(), CommandError>(CommandError::WriteFailed(m)),
        },
{
    match outcome {
        Ok(()) => Ok(()),
        Err(m) => Err(CommandError::WriteFailed(m)),
    }
}

} // verus!
