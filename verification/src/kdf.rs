//! Key derivation: a subkey from a parent key, an index and a context tag.
//!
//! A call runs in two stages. `check_lengths` reads the lengths of the output
//! buffer and of the context through read locks and refuses the call before
//! any key byte is touched. `derive_into` then hands the open buffers to the
//! primitive, which fills the output in place. `derive` runs both and closes
//! every buffer it opened, whichever way the call ends.

use crate::error::{is_output_length, SodiumError, SodiumResult};
use crate::secbuf::{ProtectState, SecBuf};
use crate::util::{check_buf_len, decimal, decimal_string, supported_len};
use vstd::prelude::*;
use vstd::string::StringExecFns;

verus! {

/// Length in bytes of the context tag that separates derivation domains.
pub const CONTEXTBYTES: usize = 8;

/// Length in bytes of a parent key.
pub const KEYBYTES: usize = 32;

/// Fewest bytes that can be derived in one call.
pub const BYTES_MIN: usize = 16;

/// Most bytes that can be derived in one call.
pub const BYTES_MAX: usize = 64;

/// The subkey of `len` bytes that libsodium's `crypto_kdf_derive_from_key`
/// computes from the parent key `key`, the tag `context` and `index`: keyed
/// BLAKE2b over the empty message, salted with the index and personalised
/// with the tag.
pub uninterp spec fn kdf_subkey(len: nat, index: u64, context: Seq<u8>, key: Seq<u8>) -> Seq<u8>;

/// Calls `sodiumoxide::crypto::kdf::derive_from_key`, the safe binding of
/// libsodium's `crypto_kdf_blake2b_derive_from_key`.
///
/// Trusted, from the binding and from `kdf_blake2b.c` in libsodium: the call
/// fails exactly when the length of `subkey` lies outside
/// `BYTES_MIN..=BYTES_MAX`, and then before anything is written; otherwise it
/// overwrites all of `subkey` with bytes that depend on its length, on
/// `index`, on `context` and on `key` alone. The binding takes the tag and the
/// key as arrays of `CONTEXTBYTES` and `KEYBYTES` bytes, so slices of other
/// lengths are left out.
#[verifier::external_body]
fn derive_from_key(
    subkey: &mut [u8],
    index: u64,
    context: &[u8],
    key: &[u8],
) -> (status: Result<(), ()>)
    requires
        context@.len() == CONTEXTBYTES,
        key@.len() == KEYBYTES,
    ensures
        status is Ok <==> supported_len(old(subkey)@.len()),
        status is Ok ==> final(subkey)@ == kdf_subkey(old(subkey)@.len(), index, context@, key@),
        status is Err ==> final(subkey)@ == old(subkey)@,
        final(subkey)@.len() == old(subkey)@.len(),
{
    let tag = <[u8; sodiumoxide::crypto::kdf::CONTEXTBYTES]>::try_from(context).unwrap();
    let bytes = <[u8; sodiumoxide::crypto::kdf::KEYBYTES]>::try_from(key).unwrap();
    let parent = sodiumoxide::crypto::kdf::Key(bytes);
    sodiumoxide::crypto::kdf::derive_from_key(subkey, index, tag, &parent)
}

/// The text of the error for an output buffer of `len` bytes.
pub open spec fn out_length_text(len: nat) -> Seq<char> {
    "Invalid 'out' Buffer length:"@ + decimal(len)
}

/// The text of the error for a context of the wrong size.
pub open spec fn context_length_text() -> Seq<char> {
    "context must be a Buffer of length: "@ + decimal(CONTEXTBYTES as nat) + "."@
}

/// What the length check finds: the text of the error, or `None` where both
/// lengths are in order. The output length is judged first.
pub open spec fn length_fault(out_len: nat, context_len: nat) -> Option<Seq<char>> {
    if !supported_len(out_len) {
        Some(out_length_text(out_len))
    } else if context_len != CONTEXTBYTES {
        Some(context_length_text())
    } else {
        None
    }
}

/// The error for an output buffer of `len` bytes.
fn out_length_error(len: usize) -> (e: SodiumError)
    ensures
        e matches SodiumError::OutputLength(m) && m@ == out_length_text(len as nat),
{
    let mut text = String::from_str("Invalid 'out' Buffer length:");
    let digits = decimal_string(len);
    text.append(digits.as_str());
    SodiumError::OutputLength(text)
}

/// The error for a context of the wrong size.
fn context_length_error() -> (e: SodiumError)
    ensures
        e matches SodiumError::OutputLength(m) && m@ == context_length_text(),
{
    let mut text = String::from_str("context must be a Buffer of length: ");
    let digits = decimal_string(CONTEXTBYTES);
    text.append(digits.as_str());
    text.append(".");
    SodiumError::OutputLength(text)
}

/// Checks the lengths of the output buffer and of the context, in that order,
/// and changes neither.
pub fn check_lengths(out: &SecBuf, context: &SecBuf) -> (r: SodiumResult<()>)
    requires
        out.readable(),
        context.readable(),
    ensures
        match length_fault(out@.len(), context@.len()) {
            None => r is Ok,
            Some(text) => is_output_length(r, text),
        },
{
    let o: usize = out.len();
    let c: usize = context.len();
    if check_buf_len(o) {
        Err(out_length_error(o))
    } else if c != CONTEXTBYTES {
        Err(context_length_error())
    } else {
        Ok(())
    }
}

/// Turns what the primitive answered for an output of `out_len` bytes into
/// the result of the call: its failure becomes an `OutputLength` error.
pub fn surface(status: Result<(), ()>, out_len: usize) -> (r: SodiumResult<()>)
    ensures
        status is Ok ==> r is Ok,
        status is Err ==> is_output_length(r, out_length_text(out_len as nat)),
{
    match status {
        Ok(()) => Ok(()),
        Err(()) => Err(out_length_error(out_len)),
    }
}

/// Fills the open buffer `out` with the subkey of `parent` for `context` and
/// `index`. The length of `out` is left to the primitive to judge; where it
/// refuses, `out` keeps its bytes.
pub fn derive_into(
    out: &mut SecBuf,
    index: u64,
    context: &SecBuf,
    parent: &SecBuf,
) -> (r: SodiumResult<()>)
    requires
        old(out).writable(),
        context.readable(),
        parent.readable(),
        context@.len() == CONTEXTBYTES,
        parent@.len() == KEYBYTES,
    ensures
        supported_len(old(out)@.len()) ==> r is Ok && final(out)@ == kdf_subkey(
            old(out)@.len(),
            index,
            context@,
            parent@,
        ),
        !supported_len(old(out)@.len()) ==> is_output_length(r, out_length_text(old(out)@.len()))
            && final(out)@ == old(out)@,
        final(out)@.len() == old(out)@.len(),
        final(out).protection() == old(out).protection(),
        final(out).is_secure() == old(out).is_secure(),
{
    let len: usize = out.len();
    let status = derive_from_key(out.as_mut_slice(), index, context.as_slice(), parent.as_slice());
    surface(status, len)
}

/// What a call of `derive` leaves behind: on lengths that are in order, `Ok`
/// and the subkey in the output; otherwise the error of the length check and
/// the output as it was.
pub open spec fn derived(
    out_before: Seq<u8>,
    index: u64,
    context: Seq<u8>,
    parent: Seq<u8>,
    r: SodiumResult<()>,
    out_after: Seq<u8>,
) -> bool {
    match length_fault(out_before.len(), context.len()) {
        None => r is Ok && out_after == kdf_subkey(out_before.len(), index, context, parent),
        Some(text) => is_output_length(r, text) && out_after == out_before,
    }
}

/// Derives the subkey number `index` of `parent` in the domain `context` and
/// writes it over `out`, whose length says how many bytes are wanted.
///
/// The lengths of `out` and of `context` are checked first; a call that fails
/// leaves `out` as it was and does not touch `parent`. `context` and `parent`
/// are only read. Every buffer that was opened comes back closed.
pub fn derive(
    out: &mut SecBuf,
    index: u64,
    context: &mut SecBuf,
    parent: &mut SecBuf,
) -> (r: SodiumResult<()>)
    requires
        length_fault(old(out)@.len(), old(context)@.len()) is None ==> old(parent)@.len()
            == KEYBYTES,
    ensures
        derived(old(out)@, index, old(context)@, old(parent)@, r, final(out)@),
        SecBuf::moved_to(*old(context), *final(context), ProtectState::NoAccess),
        r is Ok ==> SecBuf::moved_to(*old(parent), *final(parent), ProtectState::NoAccess),
        r is Err ==> *final(parent) == *old(parent),
        final(out).protection() == ProtectState::NoAccess,
        final(out).is_secure() == old(out).is_secure(),
        final(out)@.len() == old(out)@.len(),
{
    out.read_lock();
    context.read_lock();
    let checked = check_lengths(out, context);
    context.release();
    out.release();
    match checked {
        Err(e) => Err(e),
        Ok(()) => {
            out.write_lock();
            parent.read_lock();
            context.read_lock();
            let r = derive_into(out, index, context, parent);
            context.release();
            parent.release();
            out.release();
            r
        },
    }
}

/// Determinism: two calls with the same parent, context and index, on
/// outputs of the same length, end the same way and, where they succeed,
/// leave the same bytes, whatever the outputs held before.
pub proof fn derive_is_deterministic(
    index: u64,
    context: Seq<u8>,
    parent: Seq<u8>,
    first_before: Seq<u8>,
    first_result: SodiumResult<()>,
    first_after: Seq<u8>,
    second_before: Seq<u8>,
    second_result: SodiumResult<()>,
    second_after: Seq<u8>,
)
    requires
        first_before.len() == second_before.len(),
        derived(first_before, index, context, parent, first_result, first_after),
        derived(second_before, index, context, parent, second_result, second_after),
    ensures
        first_result is Ok <==> second_result is Ok,
        first_result is Ok ==> first_after == second_after,
{
}

/// A context whose length is not `CONTEXTBYTES` makes the call fail with
/// `OutputLength`, whatever the other inputs are, and the output stays.
pub proof fn derive_refuses_context_length(
    out_before: Seq<u8>,
    index: u64,
    context: Seq<u8>,
    parent: Seq<u8>,
    r: SodiumResult<()>,
    out_after: Seq<u8>,
)
    requires
        context.len() != CONTEXTBYTES,
        derived(out_before, index, context, parent, r, out_after),
    ensures
        r matches Err(SodiumError::OutputLength(_)),
        out_after == out_before,
{
}

/// An output whose length lies outside `BYTES_MIN..=BYTES_MAX` makes the call
/// fail with `OutputLength`, with the text that names that length, and the
/// output stays.
pub proof fn derive_refuses_output_length(
    out_before: Seq<u8>,
    index: u64,
    context: Seq<u8>,
    parent: Seq<u8>,
    r: SodiumResult<()>,
    out_after: Seq<u8>,
)
    requires
        !supported_len(out_before.len()),
        derived(out_before, index, context, parent, r, out_after),
    ensures
        is_output_length(r, out_length_text(out_before.len())),
        out_after == out_before,
{
}

/// A call succeeds exactly when both lengths are in order, and then the
/// output holds as many bytes as before.
pub proof fn derive_succeeds_on_valid_lengths(
    out_before: Seq<u8>,
    index: u64,
    context: Seq<u8>,
    parent: Seq<u8>,
    r: SodiumResult<()>,
    out_after: Seq<u8>,
)
    requires
        derived(out_before, index, context, parent, r, out_after),
    ensures
        r is Ok <==> supported_len(out_before.len()) && context.len() == CONTEXTBYTES,
{
}

} // verus!
