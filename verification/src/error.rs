//! Error taxonomy, and the decoding of the engine's last-error message
//! buffer.
//!
//! Engine calls report failure as a nonzero status code; the message text is
//! then fetched through a separate last-error query.  That query is itself
//! fallible, and its buffer is raw C characters: when it fails, or when the
//! buffer cannot be turned into a clean string, the message degrades to
//! absent rather than displacing the primary error.

use vstd::prelude::*;

verus! {

/// An error surfaced to the consumer of a stream.
#[derive(Debug)]
pub enum Error {
    /// A locator or other engine-bound string holds an embedded NUL byte and
    /// cannot be passed to the engine.  Detected before any engine call.
    Nul,
    /// A point-stream engine call returned a nonzero status.  The message is
    /// the engine's last-error text, or `None` when that secondary query
    /// itself failed.
    Scanifc { code: i32, message: Option<String> },
    /// An inclination-stream engine call returned a nonzero status.
    Scanlib { code: i32 },
}

/// The bytes of a last-error buffer that survive decoding: the non-negative
/// C characters, in order, taken as unsigned bytes.
pub open spec fn spec_kept_bytes(buffer: Seq<i8>) -> Seq<u8>
    decreases buffer.len(),
{
    if buffer.len() == 0 {
        Seq::empty()
    } else {
        let rest = spec_kept_bytes(buffer.drop_last());
        if buffer.last() >= 0 {
            rest.push(buffer.last() as u8)
        } else {
            rest
        }
    }
}

/// The reported part of a last-error buffer: the first `message_size`
/// characters, or the whole buffer when it is shorter than that.
pub open spec fn spec_message_bytes(buffer: Seq<i8>, message_size: u32) -> Seq<u8> {
    if message_size <= buffer.len() {
        spec_kept_bytes(buffer.take(message_size as int))
    } else {
        spec_kept_bytes(buffer)
    }
}

/// Relies on `String::from_utf8`: a sequence of ASCII bytes decodes to the
/// string with exactly those characters.  ASCII bytes are always valid
/// UTF-8, so the fallback arm is never taken on admitted inputs.
#[verifier::external_body]
fn ascii_to_string(bytes: Vec<u8>) -> (message: String)
    requires
        forall|i: int| 0 <= i < bytes@.len() ==> bytes@[i] < 128,
    ensures
        message@.len() == bytes@.len(),
        forall|i: int| 0 <= i < bytes@.len() ==> message@[i] == bytes@[i] as char,
{
    match String::from_utf8(bytes) {
        Ok(message) => message,
        Err(_) => String::new(),
    }
}

/// Turns one last-error query outcome into an optional message, as the
/// consumer sees it.
///
/// The query fills `buffer` with C characters and reports `message_size` of
/// them, returning `status`.  A nonzero `status` means the query itself
/// failed; the message is then absent.  Otherwise the non-negative
/// characters of the reported prefix form the message, unless a NUL sits
/// among them, in which case no clean string exists and the message is
/// again absent.
pub fn decode_last_error(status: i32, buffer: &Vec<i8>, message_size: u32) -> (message: Option<
    String,
>)
    ensures
        match message {
            Some(text) => {
                &&& status == 0
                &&& !spec_message_bytes(buffer@, message_size).contains(0u8)
                &&& text@.len() == spec_message_bytes(buffer@, message_size).len()
                &&& forall|i: int|
                    0 <= i < text@.len() ==> text@[i] == spec_message_bytes(
                        buffer@,
                        message_size,
                    )[i] as char
            },
            None => status != 0 || spec_message_bytes(buffer@, message_size).contains(0u8),
        },
{
    if status != 0 {
        return None;
    }
    let end: usize = if message_size as usize <= buffer.len() {
        message_size as usize
    } else {
        buffer.len()
    };
    proof {
        if message_size <= buffer@.len() {
            assert(buffer@.take(end as int) == buffer@.take(message_size as int));
        } else {
            assert(buffer@.take(end as int) == buffer@);
        }
    }
    let mut kept: Vec<u8> = Vec::new();
    let mut has_nul = false;
    let mut i: usize = 0;
    while i < end
        invariant
            i <= end,
            end <= buffer@.len(),
            kept@ == spec_kept_bytes(buffer@.take(i as int)),
            has_nul == spec_kept_bytes(buffer@.take(i as int)).contains(0u8),
            forall|j: int| 0 <= j < kept@.len() ==> kept@[j] < 128,
        decreases end - i,
    {
        let b = buffer[i];
        proof {
            assert(buffer@.take(i + 1).drop_last() == buffer@.take(i as int));
            assert(buffer@.take(i + 1).last() == buffer@[i as int]);
            if b >= 0 {
                let now = spec_kept_bytes(buffer@.take(i + 1));
                let before = spec_kept_bytes(buffer@.take(i as int));
                assert(now == before.push(b as u8));
                assert(now.contains(0u8) <==> before.contains(0u8) || b == 0) by {
                    if now.contains(0u8) {
                        let k = choose|k: int| 0 <= k < now.len() && now[k] == 0u8;
                        if k < before.len() {
                            assert(before.contains(0u8));
                        }
                    }
                    if before.contains(0u8) {
                        let k = choose|k: int| 0 <= k < before.len() && before[k] == 0u8;
                        assert(now[k] == 0u8);
                    }
                    if b == 0 {
                        assert(now[now.len() - 1] == 0u8);
                    }
                }
            }
        }
        if b >= 0 {
            kept.push(b as u8);
            if b == 0 {
                has_nul = true;
            }
        }
        i += 1;
    }
    proof {
        assert(buffer@.take(end as int) == buffer@.take(end as int));
    }
    if has_nul {
        None
    } else {
        Some(ascii_to_string(kept))
    }
}

} // verus!
