//! Messages of the engine's callbacks. The engine reports a misuse or an
//! internal fault as a message that ends at its first zero byte.

use vstd::prelude::*;

verus! {

/// The length of the message at the start of `message`: the position of the
/// first zero byte, or the whole length where there is none.
pub open spec fn message_length(message: Seq<u8>) -> nat
    decreases message.len(),
{
    if message.len() == 0 || message[0] == 0 {
        0
    } else {
        1 + message_length(message.subrange(1, message.len() as int))
    }
}

/// Counts the bytes before the first zero byte.
pub fn strlen(message: &[u8]) -> (length: usize)
    ensures
        length == message_length(message@),
        length <= message@.len(),
        forall|i: int| 0 <= i < length ==> message@[i] != 0,
        length < message@.len() ==> message@[length as int] == 0,
{
    let mut count: usize = 0;
    while count < message.len() && message[count] != 0
        invariant
            count <= message@.len(),
            forall|i: int| 0 <= i < count ==> message@[i] != 0,
        decreases message@.len() - count,
    {
        count += 1;
    }
    proof {
        lemma_message_length(message@, count as nat);
    }
    count
}

/// A message whose first `length` bytes are not zero, and which ends or has a
/// zero byte right after them, has length `length`.
pub proof fn lemma_message_length(message: Seq<u8>, length: nat)
    requires
        length <= message.len(),
        forall|i: int| 0 <= i < length ==> message[i] != 0,
        length < message.len() ==> message[length as int] == 0,
    ensures
        message_length(message) == length,
    decreases length,
{
    if length > 0 {
        let rest = message.subrange(1, message.len() as int);
        assert forall|i: int| 0 <= i < length - 1 implies rest[i] != 0 by {
            assert(rest[i] == message[i + 1]);
        }
        lemma_message_length(rest, (length - 1) as nat);
    }
}

} // verus!
