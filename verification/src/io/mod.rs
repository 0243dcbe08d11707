//! Conditions to watch for on a glib I/O channel, and how glib's status
//! codes for channel operations turn into results.

pub mod state;

use vstd::prelude::*;

use crate::error::Error;

verus! {

/// Glib's flag for "data is ready to read" (`G_IO_IN`).
pub const G_IO_IN: u32 = 1;

/// Glib's flag for "data can be written" (`G_IO_OUT`).
pub const G_IO_OUT: u32 = 4;

/// Whether every bit of `flag` is set in `bits`.
pub open spec fn has_flag(bits: u32, flag: u32) -> bool {
    bits & flag == flag
}

/// `bits` with the bits of `flag` set (`enabled`) or cleared.
pub open spec fn with_flag(bits: u32, enabled: bool, flag: u32) -> u32 {
    if enabled {
        bits | flag
    } else {
        bits & !flag
    }
}

/// A bitwise combination representing a condition to watch for on an event
/// source.
#[derive(Clone, Copy, Debug, PartialEq, Eq)]
pub struct IoCondition {
    bits: u32,
}

impl View for IoCondition {
    type V = u32;

    /// The condition's bits, as glib's `GIOCondition` holds them.
    closed spec fn view(&self) -> u32 {
        self.bits
    }
}

/// The bits of a condition.
pub fn bits(condition: &IoCondition) -> (r: u32)
    ensures
        r == condition@,
{
    condition.bits
}

/// The condition with the given bits.
pub fn bits_new(bits: u32) -> (r: IoCondition)
    ensures
        r@ == bits,
{
    IoCondition { bits: bits }
}

impl IoCondition {
    /// Creates a new bit set with no interest bits set.
    pub fn new() -> (r: IoCondition)
        ensures
            r@ == 0,
    {
        IoCondition { bits: 0 }
    }

    /// Flag indicating that data is ready to read.
    pub fn input(&mut self, input: bool) -> (r: &mut IoCondition)
        ensures
            r@ == with_flag(old(self)@, input, G_IO_IN),
            *final(self) == *final(r),
    {
        self.flag(input, G_IO_IN)
    }

    /// Flag indicating that data can be written.
    pub fn output(&mut self, output: bool) -> (r: &mut IoCondition)
        ensures
            r@ == with_flag(old(self)@, output, G_IO_OUT),
            *final(self) == *final(r),
    {
        self.flag(output, G_IO_OUT)
    }

    /// Tests whether this condition indicates input readiness
    pub fn is_input(&self) -> (r: bool)
        ensures
            r == has_flag(self@, G_IO_IN),
    {
        self.bits & G_IO_IN == G_IO_IN
    }

    /// Tests whether this condition indicates output readiness
    pub fn is_output(&self) -> (r: bool)
        ensures
            r == has_flag(self@, G_IO_OUT),
    {
        self.bits & G_IO_OUT == G_IO_OUT
    }

    fn flag(&mut self, enabled: bool, flag: u32) -> (r: &mut IoCondition)
        ensures
            r@ == with_flag(old(self)@, enabled, flag),
            *final(self) == *final(r),
    {
        if enabled {
            self.bits = self.bits | flag;
        } else {
            self.bits = self.bits & !flag;
        }
        self
    }
}

/// Setting or clearing the input flag decides `is_input`, and leaves the
/// output flag as it was.
pub proof fn lemma_input_flag(bits: u32, enabled: bool)
    ensures
        has_flag(with_flag(bits, enabled, G_IO_IN), G_IO_IN) == enabled,
        has_flag(with_flag(bits, enabled, G_IO_IN), G_IO_OUT) == has_flag(bits, G_IO_OUT),
{
    assert(has_flag(bits | 1u32, 1u32)) by (bit_vector);
    assert(!has_flag(bits & !1u32, 1u32)) by (bit_vector);
    assert(has_flag(bits | 1u32, 4u32) == has_flag(bits, 4u32)) by (bit_vector);
    assert(has_flag(bits & !1u32, 4u32) == has_flag(bits, 4u32)) by (bit_vector);
}

/// Setting or clearing the output flag decides `is_output`, and leaves the
/// input flag as it was.
pub proof fn lemma_output_flag(bits: u32, enabled: bool)
    ensures
        has_flag(with_flag(bits, enabled, G_IO_OUT), G_IO_OUT) == enabled,
        has_flag(with_flag(bits, enabled, G_IO_OUT), G_IO_IN) == has_flag(bits, G_IO_IN),
{
    assert(has_flag(bits | 4u32, 4u32)) by (bit_vector);
    assert(!has_flag(bits & !4u32, 4u32)) by (bit_vector);
    assert(has_flag(bits | 4u32, 1u32) == has_flag(bits, 1u32)) by (bit_vector);
    assert(has_flag(bits & !4u32, 1u32) == has_flag(bits, 1u32)) by (bit_vector);
}

/// A flag change touches no bit outside the flag.
pub proof fn lemma_flag_keeps_other_bits(bits: u32, enabled: bool, flag: u32, other: u32)
    requires
        flag & other == 0,
    ensures
        with_flag(bits, enabled, flag) & other == bits & other,
{
    assert(flag & other == 0 ==> (bits | flag) & other == bits & other) by (bit_vector);
    assert(flag & other == 0 ==> (bits & !flag) & other == bits & other) by (bit_vector);
}

/// Of two changes to the same flag the last one decides: setting a flag
/// twice is setting it once, and clearing it after setting it is clearing it.
pub proof fn lemma_flag_last_wins(bits: u32, first: bool, second: bool, flag: u32)
    ensures
        with_flag(with_flag(bits, first, flag), second, flag) == with_flag(bits, second, flag),
{
    assert((bits | flag) | flag == bits | flag) by (bit_vector);
    assert((bits & !flag) | flag == bits | flag) by (bit_vector);
    assert((bits | flag) & !flag == bits & !flag) by (bit_vector);
    assert((bits & !flag) & !flag == bits & !flag) by (bit_vector);
}

/// A new condition watches for nothing.
pub proof fn lemma_new_is_empty()
    ensures
        !has_flag(0, G_IO_IN),
        !has_flag(0, G_IO_OUT),
{
    assert(0u32 & 1u32 == 0u32) by (bit_vector);
    assert(0u32 & 4u32 == 0u32) by (bit_vector);
}


/// The bits after the flag changes `changes`, in order: each change names
/// the flag (`true` for input, `false` for output) and whether it is set.
pub open spec fn apply_flags(bits: u32, changes: Seq<(bool, bool)>) -> u32
    decreases changes.len(),
{
    if changes.len() == 0 {
        bits
    } else {
        let flag = if changes[0].0 {
            G_IO_IN
        } else {
            G_IO_OUT
        };
        apply_flags(with_flag(bits, changes[0].1, flag), changes.drop_first())
    }
}

/// Changes of the input flag alone, any number of them, leave the output
/// flag as it was; changes of the output flag alone leave the input flag.
pub proof fn lemma_changes_keep_other_flag(bits: u32, changes: Seq<(bool, bool)>)
    ensures
        (forall|i: int| 0 <= i < changes.len() ==> #[trigger] changes[i].0) ==> has_flag(
            apply_flags(bits, changes),
            G_IO_OUT,
        ) == has_flag(bits, G_IO_OUT),
        (forall|i: int| 0 <= i < changes.len() ==> !#[trigger] changes[i].0) ==> has_flag(
            apply_flags(bits, changes),
            G_IO_IN,
        ) == has_flag(bits, G_IO_IN),
    decreases changes.len(),
{
    if changes.len() > 0 {
        let rest = changes.drop_first();
        let flag = if changes[0].0 {
            G_IO_IN
        } else {
            G_IO_OUT
        };
        lemma_changes_keep_other_flag(with_flag(bits, changes[0].1, flag), rest);
        lemma_input_flag(bits, changes[0].1);
        lemma_output_flag(bits, changes[0].1);
        assert forall|i: int| 0 <= i < rest.len() implies rest[i] == changes[i + 1] by {}
        if forall|i: int| 0 <= i < changes.len() ==> #[trigger] changes[i].0 {
            assert(changes[0].0);
            assert(forall|i: int| 0 <= i < rest.len() ==> #[trigger] rest[i].0 == changes[i + 1].0);
        }
        if forall|i: int| 0 <= i < changes.len() ==> !#[trigger] changes[i].0 {
            assert(!changes[0].0);
            assert(forall|i: int| 0 <= i < rest.len() ==> #[trigger] rest[i].0 == changes[i + 1].0);
        }
    }
}

/// The last change of the output flag decides `is_output`, whatever changes
/// of the input flag follow it; and the last change of the input flag
/// decides `is_input`, whatever changes of the output flag follow it.
pub proof fn lemma_last_change_decides(bits: u32, enabled: bool, later: Seq<(bool, bool)>)
    ensures
        (forall|i: int| 0 <= i < later.len() ==> #[trigger] later[i].0) ==> has_flag(
            apply_flags(with_flag(bits, enabled, G_IO_OUT), later),
            G_IO_OUT,
        ) == enabled,
        (forall|i: int| 0 <= i < later.len() ==> !#[trigger] later[i].0) ==> has_flag(
            apply_flags(with_flag(bits, enabled, G_IO_IN), later),
            G_IO_IN,
        ) == enabled,
{
    lemma_output_flag(bits, enabled);
    lemma_input_flag(bits, enabled);
    lemma_changes_keep_other_flag(with_flag(bits, enabled, G_IO_OUT), later);
    lemma_changes_keep_other_flag(with_flag(bits, enabled, G_IO_IN), later);
}

/// The status of a glib channel operation (`GIOStatus`).
#[derive(Clone, Copy, Debug, PartialEq, Eq)]
pub enum IoStatus {
    /// An error occurred (`G_IO_STATUS_ERROR`).
    Error,
    /// Success (`G_IO_STATUS_NORMAL`).
    Normal,
    /// End of file (`G_IO_STATUS_EOF`).
    Eof,
    /// The resource is temporarily unavailable (`G_IO_STATUS_AGAIN`).
    Again,
}

/// Why a channel operation failed.
#[derive(Debug)]
pub enum ChannelError {
    /// Glib reported this error.
    Glib(Error),
    /// The operation would block.
    WouldBlock,
}

/// What a channel operation that ended with `status` is answered, where
/// `amt` is the amount it transferred (for reads and writes) and `error` the
/// error that glib set.
pub open spec fn status_result(status: IoStatus, amt: Option<usize>, error: Option<Error>) -> Result<usize, ChannelError> {
    match status {
        IoStatus::Error => Err(ChannelError::Glib(error->0)),
        IoStatus::Normal => Ok(
            match amt {
                Some(n) => n,
                None => 0,
            },
        ),
        IoStatus::Eof => Ok(0),
        IoStatus::Again => Err(ChannelError::WouldBlock),
    }
}

/// What glib promises of the outcome of a channel operation: an error is set
/// exactly when the status is `Error`, and nothing was transferred unless the
/// status is `Normal`.
pub open spec fn status_consistent(status: IoStatus, amt: Option<usize>, error: Option<Error>) -> bool {
    &&& (status == IoStatus::Error) <==> error is Some
    &&& status != IoStatus::Normal ==> (amt is Some ==> amt->0 == 0)
}

/// Turns the outcome of a glib channel operation into a result.
pub fn rc(status: IoStatus, amt: Option<usize>, error: Option<Error>) -> (r: Result<usize, ChannelError>)
    requires
        status_consistent(status, amt, error),
    ensures
        r == status_result(status, amt, error),
{
    match status {
        IoStatus::Error => match error {
            Some(e) => Err(ChannelError::Glib(e)),
            None => Err(ChannelError::WouldBlock),
        },
        IoStatus::Normal => match amt {
            Some(n) => Ok(n),
            None => Ok(0),
        },
        IoStatus::Eof => Ok(0),
        IoStatus::Again => Err(ChannelError::WouldBlock),
    }
}

/// A failed channel operation always reports glib's error, whatever amount
/// was passed along: it never looks like a would-block, and the error is
/// handed on unchanged.
pub proof fn lemma_rc_error_carries_glib_error(amt: Option<usize>, e: Error)
    ensures
        status_result(IoStatus::Error, amt, Some(e)) is Err,
        status_result(IoStatus::Error, amt, Some(e))->Err_0 is Glib,
        status_result(IoStatus::Error, amt, Some(e))->Err_0->Glib_0 == e,
{
}

/// Only a temporarily unavailable resource makes the caller wait: the answer
/// is a would-block exactly for `Again`, for any amount and error.
pub proof fn lemma_rc_would_block_only_on_again(status: IoStatus, amt: Option<usize>, error: Option<Error>)
    requires
        status_consistent(status, amt, error),
    ensures
        (status_result(status, amt, error) is Err && status_result(status, amt, error)->Err_0 is WouldBlock)
            <==> status == IoStatus::Again,
        (status_result(status, amt, error) is Err && status_result(status, amt, error)->Err_0 is Glib)
            <==> status == IoStatus::Error,
{
}

/// A successful operation reports the amount it moved (nothing where it
/// passes none), and the end of the file reads as an amount of zero.
pub proof fn lemma_rc_ok_amounts(n: usize)
    ensures
        status_result(IoStatus::Normal, Some(n), None) == Ok::<usize, ChannelError>(n),
        status_result(IoStatus::Normal, None, None) == Ok::<usize, ChannelError>(0),
        status_result(IoStatus::Eof, Some(0), None) == Ok::<usize, ChannelError>(0),
        status_result(IoStatus::Eof, None, None) == Ok::<usize, ChannelError>(0),
{
}

} // verus!
