//! The command interpreter: consumes one console line against the key-slot
//! store, producing the bytes to print and reporting which slot, if any,
//! was mutated so the caller can persist it.
//!
//! Token generation is asynchronous: for a valid `gen` command the
//! interpreter hands back the HMAC request to run, and
//! [`complete_generation`] consumes the completion the driver delivered.

use vstd::prelude::*;

verus! {

use vstd::string::StringSliceAdditionalSpecFns;
use crate::hotp::{DriverError, HmacRequest};
use crate::store::{spec_next_moving_factor, KeyState, KeyStore};
use crate::text::{
    lemma_digits_value_nonneg, lemma_digits_value_take, push_decimal, push_text, spec_decimal, spec_digits_only,
    spec_digits_value, spec_is_digit,
};

/// The digit region a slot-index parse looks at: everything after an
/// optional leading plus sign.
pub open spec fn spec_parse_body(s: Seq<u8>) -> Seq<u8> {
    if s.len() > 0 && s[0] == 43 {
        s.skip(1)
    } else {
        s
    }
}

/// Whether `s` parses as an unsigned decimal index: at least one digit
/// after the optional sign, digits only, and a value that fits the machine.
pub open spec fn spec_parse_ok(s: Seq<u8>) -> bool {
    &&& spec_parse_body(s).len() >= 1
    &&& spec_digits_only(spec_parse_body(s))
    &&& spec_digits_value(spec_parse_body(s)) <= usize::MAX
}

/// The parsed value of `s`, meaningful when `spec_parse_ok(s)` holds.
pub open spec fn spec_parsed(s: Seq<u8>) -> int {
    spec_digits_value(spec_parse_body(s))
}

/// Parses an unsigned decimal index, accepting exactly what the standard
/// unsigned string parse accepts: an optional leading plus sign, then one
/// or more decimal digits, with a value that fits in a machine word.
pub fn parse_index(s: &[u8]) -> (r: Option<usize>)
    ensures
        spec_parse_ok(s@) ==> r == Some(spec_parsed(s@) as usize),
        !spec_parse_ok(s@) ==> r is None,
{
    let mut start: usize = 0;
    if s.len() > 0 && s[0] == 43 {
        start = 1;
    }
    let ghost d = spec_parse_body(s@);
    if start >= s.len() {
        return None;
    }
    let mut acc: usize = 0;
    let mut j: usize = start;
    while j < s.len()
        invariant
            start <= j <= s@.len(),
            start == 1 ==> s@.len() > 0 && s@[0] == 43,
            start == 0 ==> !(s@.len() > 0 && s@[0] == 43),
            d == spec_parse_body(s@),
            d.len() == s@.len() - start,
            forall|k: int| 0 <= k < d.len() ==> d[k] == s@[k + start],
            spec_digits_only(d.take(j - start)),
            acc == spec_digits_value(d.take(j - start)),
        decreases s@.len() - j,
    {
        let b = s[j];
        if b < 48 || b > 57 {
            proof {
                assert(d[j - start] == s@[j as int]);
                assert(!spec_is_digit(d[j - start]));
            }
            return None;
        }
        let digit = (b - 48) as usize;
        let ghost t = d.take(j + 1 - start);
        proof {
            assert(t.drop_last() =~= d.take(j - start));
            assert(t.last() == s@[j as int]);
            assert(spec_digits_only(t));
            assert(spec_digits_value(t) == acc * 10 + digit);
        }
        let m = match acc.checked_mul(10) {
            Some(m) => m,
            None => {
                proof {
                    if spec_digits_only(d) {
                        lemma_digits_value_take(d, j + 1 - start);
                    }
                }
                return None;
            },
        };
        let a2 = match m.checked_add(digit) {
            Some(a) => a,
            None => {
                proof {
                    if spec_digits_only(d) {
                        lemma_digits_value_take(d, j + 1 - start);
                    }
                }
                return None;
            },
        };
        acc = a2;
        j = j + 1;
    }
    proof {
        assert(d.take(j - start) =~= d);
    }
    Some(acc)
}

/// `line` begins with the bytes of `p`.
pub open spec fn spec_starts_with(line: Seq<u8>, p: Seq<u8>) -> bool {
    line.len() >= p.len() && line.take(p.len() as int) == p
}

/// Byte-for-byte equality of the line with a fixed phrase.
fn line_is(line: &[u8], s: &str) -> (r: bool)
    ensures
        r == (line@ == s.spec_bytes()),
{
    let p = s.as_bytes();
    if line.len() != p.len() {
        return false;
    }
    let mut i: usize = 0;
    while i < line.len()
        invariant
            0 <= i <= line@.len(),
            line@.len() == p@.len(),
            p@ == s.spec_bytes(),
            forall|k: int| 0 <= k < i ==> line@[k] == p@[k],
        decreases line@.len() - i,
    {
        if line[i] != p[i] {
            return false;
        }
        i = i + 1;
    }
    proof {
        assert(line@ =~= s.spec_bytes());
    }
    true
}

/// The line begins with the bytes of a fixed phrase.
fn line_has_prefix(line: &[u8], s: &str) -> (r: bool)
    ensures
        r == spec_starts_with(line@, s.spec_bytes()),
{
    let p = s.as_bytes();
    if line.len() < p.len() {
        return false;
    }
    let mut i: usize = 0;
    while i < p.len()
        invariant
            0 <= i <= p@.len(),
            line@.len() >= p@.len(),
            p@ == s.spec_bytes(),
            forall|k: int| 0 <= k < i ==> line@[k] == p@[k],
        decreases p@.len() - i,
    {
        if line[i] != p[i] {
            proof {
                assert(line@.take(p@.len() as int)[i as int] != p@[i as int]);
            }
            return false;
        }
        i = i + 1;
    }
    proof {
        assert(line@.take(p@.len() as int) =~= s.spec_bytes());
    }
    true
}

/// Diagnostic for a line that overran the input buffer.
pub open spec fn spec_msg_overrun() -> Seq<u8> {
    "Error: input buffer overrun, read aborted.\r\n".spec_bytes()
}

/// Diagnostic for a line matching no command form.
pub open spec fn spec_msg_unknown() -> Seq<u8> {
    "Error: unknown command! Type \"help\" to see available commands.\r\n".spec_bytes()
}

/// Diagnostic for a slot argument that does not parse.
pub open spec fn spec_msg_cannot_parse() -> Seq<u8> {
    "Error: cannot parse OTP token slot index.\r\n".spec_bytes()
}

/// Diagnostic for a slot index beyond the store.
pub open spec fn spec_msg_not_present(idx: int) -> Seq<u8> {
    "Error: slot ".spec_bytes() + spec_decimal(idx) + " not present.\r\n".spec_bytes()
}

/// Diagnostic for an in-range slot that holds no key.
pub open spec fn spec_msg_not_configured(idx: int) -> Seq<u8> {
    "Error: slot ".spec_bytes() + spec_decimal(idx) + " not configured.\r\n".spec_bytes()
}

/// The fixed usage text, closing with the store's slot count.
pub open spec fn spec_msg_help(n_slots: int) -> Seq<u8> {
    "Available commands:\r\n-   help            Print this message.\r\n-   gen <slot>      Generate an OTP token.\r\n-   reset <slot>    Reset the counter of an OTP slot.\r\n-   program <slot>  Program an OTP token slot\r\nOTP token slots available: ".spec_bytes()
        + spec_decimal(n_slots) + "\r\n".spec_bytes()
}

/// What the interpreter reports back: either nothing changed, or one slot
/// was mutated and should be persisted by the caller.
#[derive(Copy, Clone, Debug, PartialEq, Eq, Structural)]
pub enum CommandOutcome {
    NoMutation,
    Mutated(usize),
}

/// One step of interpreting a line: either the command finished, with the
/// bytes to print, or a valid `gen` command now needs the HMAC offload run
/// for the named slot.
pub enum InterpStep {
    Done(Vec<u8>, CommandOutcome),
    Hmac(usize, HmacRequest),
}

/// The line names the `help` command.
pub open spec fn spec_is_help(line: Seq<u8>) -> bool {
    line == "help\n".spec_bytes()
}

/// The line opens a `gen` command.
pub open spec fn spec_is_gen(line: Seq<u8>) -> bool {
    spec_starts_with(line, "gen ".spec_bytes())
}

/// The line opens a `reset` command.
pub open spec fn spec_is_reset(line: Seq<u8>) -> bool {
    spec_starts_with(line, "reset ".spec_bytes())
}

/// The slot index parsed out of a line: the bytes from `off` up to the
/// final line feed, read as an unsigned decimal.
pub open spec fn spec_slot_arg(line: Seq<u8>, off: int) -> Option<int> {
    if off <= line.len() - 1 && spec_parse_ok(line.subrange(off, line.len() - 1)) {
        Some(spec_parsed(line.subrange(off, line.len() - 1)))
    } else {
        None
    }
}

/// The slot argument of a `gen` line.
pub open spec fn spec_gen_arg(line: Seq<u8>) -> Option<int> {
    spec_slot_arg(line, 4)
}

/// The slot argument of a `reset` line.
pub open spec fn spec_reset_arg(line: Seq<u8>) -> Option<int> {
    spec_slot_arg(line, 6)
}

/// Extracts and parses the slot argument starting at `off`.
fn slot_of(line: &[u8], off: usize) -> (r: Option<usize>)
    ensures
        spec_slot_arg(line@, off as int) matches Some(v) ==> (0 <= v <= usize::MAX && r == Some(
            v as usize,
        )),
        spec_slot_arg(line@, off as int) is None ==> r is None,
{
    if line.len() >= 1 && off <= line.len() - 1 {
        let sub = vstd::slice::slice_subrange(line, off, line.len() - 1);
        let r = parse_index(sub);
        proof {
            if spec_parse_ok(sub@) {
                lemma_digits_value_nonneg(spec_parse_body(sub@));
            }
        }
        r
    } else {
        None
    }
}

fn msg_cannot_parse_out() -> (out: Vec<u8>)
    ensures
        out@ == spec_msg_cannot_parse(),
{
    let mut out: Vec<u8> = Vec::new();
    push_text(&mut out, "Error: cannot parse OTP token slot index.\r\n");
    proof {
        assert(out@ =~= spec_msg_cannot_parse());
    }
    out
}

fn msg_not_present_out(idx: usize) -> (out: Vec<u8>)
    ensures
        out@ == spec_msg_not_present(idx as int),
{
    let mut out: Vec<u8> = Vec::new();
    push_text(&mut out, "Error: slot ");
    push_decimal(&mut out, idx as u64);
    push_text(&mut out, " not present.\r\n");
    proof {
        assert(out@ =~= spec_msg_not_present(idx as int));
    }
    out
}

fn msg_not_configured_out(idx: usize) -> (out: Vec<u8>)
    ensures
        out@ == spec_msg_not_configured(idx as int),
{
    let mut out: Vec<u8> = Vec::new();
    push_text(&mut out, "Error: slot ");
    push_decimal(&mut out, idx as u64);
    push_text(&mut out, " not configured.\r\n");
    proof {
        assert(out@ =~= spec_msg_not_configured(idx as int));
    }
    out
}

/// Consumes one read line against the store. Exactly one diagnostic or
/// mutation is produced per call: an overrun line is discarded unread; a
/// valid `reset` zeroes the slot's moving factor; a valid `gen` neither
/// prints nor mutates yet but hands back the HMAC request to run, to be
/// finished by [`complete_generation`]. Everything else leaves the store
/// untouched and yields its diagnostic.
pub fn interpret_line(store: &mut KeyStore, line: &[u8], overrun: bool) -> (r: Result<
    InterpStep,
    DriverError,
>)
    requires
        old(store).wf(),
    ensures
        final(store).wf(),
        overrun ==> (r matches Ok(InterpStep::Done(out, oc)) && out@ == spec_msg_overrun()
            && oc == CommandOutcome::NoMutation && *final(store) == *old(store)),
        !overrun && spec_is_help(line@) ==> (r matches Ok(InterpStep::Done(out, oc))
            && out@ == spec_msg_help(old(store).slots@.len() as int)
            && oc == CommandOutcome::NoMutation && *final(store) == *old(store)),
        !overrun && !spec_is_help(line@) && spec_is_gen(line@) && spec_gen_arg(line@) is None
            ==> (r matches Ok(InterpStep::Done(out, oc)) && out@ == spec_msg_cannot_parse()
            && oc == CommandOutcome::NoMutation && *final(store) == *old(store)),
        !overrun && !spec_is_help(line@) && spec_is_gen(line@) && spec_gen_arg(line@) is Some
            && spec_gen_arg(line@)->Some_0 >= old(store).slots@.len() ==> (r matches Ok(InterpStep::Done(out, oc)) && out@ == spec_msg_not_present(spec_gen_arg(line@)->Some_0)
            && oc == CommandOutcome::NoMutation && *final(store) == *old(store)),
        !overrun && !spec_is_help(line@) && spec_is_gen(line@) && spec_gen_arg(line@) is Some
            && spec_gen_arg(line@)->Some_0 < old(store).slots@.len() && old(store).slots@[spec_gen_arg(line@)->Some_0] is None ==> (r matches Ok(InterpStep::Done(out, oc)) && out@
            == spec_msg_not_configured(spec_gen_arg(line@)->Some_0)
            && oc == CommandOutcome::NoMutation && *final(store) == *old(store)),
        (!overrun && !spec_is_help(line@) && spec_is_gen(line@) && spec_gen_arg(line@) is Some
            && spec_gen_arg(line@)->Some_0 < old(store).slots@.len()) ==> (old(store).slots@[spec_gen_arg(line@)->Some_0] matches Some(k)
            ==> (r matches Ok(InterpStep::Hmac(slot, req)) && slot
            == spec_gen_arg(line@)->Some_0 && req.key@ == k.spec_key_bytes() && req.data@
            == crate::hotp::spec_moving_factor_bytes(k.moving_factor) && *final(store) == *old(store))),
        !overrun && !spec_is_help(line@) && !spec_is_gen(line@) && spec_is_reset(line@)
            && spec_reset_arg(line@) is None ==> (r matches Ok(InterpStep::Done(out, oc))
            && out@ == spec_msg_cannot_parse() && oc == CommandOutcome::NoMutation
            && *final(store) == *old(store)),
        !overrun && !spec_is_help(line@) && !spec_is_gen(line@) && spec_is_reset(line@)
            && spec_reset_arg(line@) is Some && spec_reset_arg(line@)->Some_0 >= old(store).slots@.len() ==> (r matches Ok(InterpStep::Done(out, oc)) && out@
            == spec_msg_not_present(spec_reset_arg(line@)->Some_0)
            && oc == CommandOutcome::NoMutation && *final(store) == *old(store)),
        !overrun && !spec_is_help(line@) && !spec_is_gen(line@) && spec_is_reset(line@)
            && spec_reset_arg(line@) is Some && spec_reset_arg(line@)->Some_0 < old(store).slots@.len() && old(store).slots@[spec_reset_arg(line@)->Some_0] is None ==> (
        r matches Ok(InterpStep::Done(out, oc)) && out@ == spec_msg_not_configured(
            spec_reset_arg(line@)->Some_0,
        ) && oc == CommandOutcome::NoMutation && *final(store) == *old(store)),
        (!overrun && !spec_is_help(line@) && !spec_is_gen(line@) && spec_is_reset(line@)
            && spec_reset_arg(line@) is Some && spec_reset_arg(line@)->Some_0 < old(store).slots@.len()) ==> (old(store).slots@[spec_reset_arg(line@)->Some_0] matches Some(k)
            ==> (r matches Ok(InterpStep::Done(out, oc)) && out@ == Seq::<u8>::empty() && oc
            == CommandOutcome::Mutated(spec_reset_arg(line@)->Some_0 as usize) && final(store).slots@ == old(store).slots@.update(
            spec_reset_arg(line@)->Some_0,
            Some(KeyState { moving_factor: 0, ..k }),
        ))),
        !overrun && !spec_is_help(line@) && !spec_is_gen(line@) && !spec_is_reset(line@) ==> (
        r matches Ok(InterpStep::Done(out, oc)) && out@ == spec_msg_unknown() && oc
            == CommandOutcome::NoMutation && *final(store) == *old(store)),
{
    if overrun {
        let mut out: Vec<u8> = Vec::new();
        push_text(&mut out, "Error: input buffer overrun, read aborted.\r\n");
        proof {
            assert(out@ =~= spec_msg_overrun());
        }
        return Ok(InterpStep::Done(out, CommandOutcome::NoMutation));
    }
    if line_is(line, "help\n") {
        let mut out: Vec<u8> = Vec::new();
        push_text(
            &mut out,
            "Available commands:\r\n-   help            Print this message.\r\n-   gen <slot>      Generate an OTP token.\r\n-   reset <slot>    Reset the counter of an OTP slot.\r\n-   program <slot>  Program an OTP token slot\r\nOTP token slots available: ",
        );
        push_decimal(&mut out, store.slots.len() as u64);
        push_text(&mut out, "\r\n");
        proof {
            assert(out@ =~= spec_msg_help(old(store).slots@.len() as int));
        }
        return Ok(InterpStep::Done(out, CommandOutcome::NoMutation));
    }
    if line_has_prefix(line, "gen ") {
        match slot_of(line, 4) {
            None => Ok(InterpStep::Done(msg_cannot_parse_out(), CommandOutcome::NoMutation)),
            Some(idx) => {
                if idx >= store.slots.len() {
                    Ok(InterpStep::Done(msg_not_present_out(idx), CommandOutcome::NoMutation))
                } else {
                    match store.slots[idx] {
                        None => Ok(
                            InterpStep::Done(
                                msg_not_configured_out(idx),
                                CommandOutcome::NoMutation,
                            ),
                        ),
                        Some(key) => {
                            let req = crate::hotp::gen_token_request(&key)?;
                            Ok(InterpStep::Hmac(idx, req))
                        },
                    }
                }
            },
        }
    } else if line_has_prefix(line, "reset ") {
        match slot_of(line, 6) {
            None => Ok(InterpStep::Done(msg_cannot_parse_out(), CommandOutcome::NoMutation)),
            Some(idx) => {
                if idx >= store.slots.len() {
                    Ok(InterpStep::Done(msg_not_present_out(idx), CommandOutcome::NoMutation))
                } else {
                    match store.slots[idx] {
                        None => Ok(
                            InterpStep::Done(
                                msg_not_configured_out(idx),
                                CommandOutcome::NoMutation,
                            ),
                        ),
                        Some(key) => {
                            let cleared = KeyState { moving_factor: 0, ..key };
                            store.slots.set(idx, Some(cleared));
                            Ok(InterpStep::Done(Vec::new(), CommandOutcome::Mutated(idx)))
                        },
                    }
                }
            },
        }
    } else {
        let mut out: Vec<u8> = Vec::new();
        push_text(
            &mut out,
            "Error: unknown command! Type \"help\" to see available commands.\r\n",
        );
        proof {
            assert(out@ =~= spec_msg_unknown());
        }
        Ok(InterpStep::Done(out, CommandOutcome::NoMutation))
    }
}

/// Consumes the HMAC completion for a `gen` command that
/// [`interpret_line`] handed back. A zero result code yields the token
/// line and advances the slot's moving factor by one (wrapping silently);
/// any other result code is a driver-reported failure that aborts the
/// command without mutating the store.
pub fn complete_generation(
    store: &mut KeyStore,
    slot: usize,
    result_code: u32,
    digest: &[u8],
) -> (r: Result<(Vec<u8>, CommandOutcome), DriverError>)
    requires
        old(store).wf(),
        slot < old(store).slots@.len(),
        old(store).slots@[slot as int] is Some,
        digest@.len() == 32,
    ensures
        final(store).wf(),
        result_code == 0 ==> (old(store).slots@[slot as int] matches Some(k)
            ==> (r matches Ok(p) && p.0@ == crate::hotp::spec_token_line(
            k.moving_factor,
            digest@,
            k.digits,
        ) && p.1 == CommandOutcome::Mutated(slot) && final(store).slots@
            == old(store).slots@.update(
            slot as int,
            Some(KeyState { moving_factor: spec_next_moving_factor(k.moving_factor), ..k }),
        ))),
        result_code != 0 ==> (r matches Err(e) && e == (DriverError { status: result_code })
            && *final(store) == *old(store)),
{
    match store.slots[slot] {
        Some(key) => {
            let (out, advance) = match crate::hotp::gen_token_finish(&key, result_code, digest) {
                Ok(p) => p,
                Err(e) => {
                    return Err(e);
                },
            };
            if advance {
                let next = if key.moving_factor == u64::MAX {
                    0
                } else {
                    key.moving_factor + 1
                };
                let bumped = KeyState { moving_factor: next, ..key };
                store.slots.set(slot, Some(bumped));
                Ok((out, CommandOutcome::Mutated(slot)))
            } else {
                Ok((out, CommandOutcome::NoMutation))
            }
        },
        None => vstd::pervasive::unreached(),
    }
}

} // verus!

