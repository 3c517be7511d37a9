//! What holds of a handle over a whole conversation.
//!
//! A conversation is a sequence of attempts: operations on one handle, each
//! with the answer that the remote side gives if the operation gets as far
//! as a call. The handle's lock puts the attempts of all tasks into one such
//! sequence, whichever task comes first. `routed` and `settled` say what one
//! attempt does; the statements here follow it through the sequence.

use vstd::prelude::*;
use crate::error::missing_bits;
use crate::interaction::{routed, settled, Operation};
use crate::permissions::{lemma_valid_bits_are_known, Permissions, ALL_PERMISSION_BITS};
use crate::response::Endpoint;

verus! {

/// One operation on a handle, together with the answer of the remote side to
/// the call that the operation makes, if it makes one.
pub struct Attempt {
    /// The operation.
    pub operation: Operation,
    /// Whether the remote side accepts the call.
    pub accepted: bool,
}

/// The flag after one attempt on a handle whose flag was `responded`.
pub open spec fn after_attempt(responded: bool, attempt: Attempt) -> bool {
    match routed(responded, attempt.operation) {
        Some(endpoint) => settled(responded, endpoint, attempt.accepted),
        None => responded,
    }
}

/// The flag after all of `attempts`, in order, on a handle whose flag was
/// `responded`.
pub open spec fn after_all(responded: bool, attempts: Seq<Attempt>) -> bool
    decreases attempts.len(),
{
    if attempts.len() == 0 {
        responded
    } else {
        after_attempt(after_all(responded, attempts.drop_last()), attempts.last())
    }
}

/// The flag that attempt `i` finds: the flag after the attempts before it.
pub open spec fn flag_before(responded: bool, attempts: Seq<Attempt>, i: int) -> bool {
    after_all(responded, attempts.subrange(0, i))
}

/// Whether attempt `i` is the one that sets the flag.
pub open spec fn sets_flag(responded: bool, attempts: Seq<Attempt>, i: int) -> bool {
    !flag_before(responded, attempts, i) && flag_before(responded, attempts, i + 1)
}

/// Whether attempt `i` creates the initial response and the remote side
/// accepts it.
pub open spec fn creates_accepted_response(
    responded: bool,
    attempts: Seq<Attempt>,
    i: int,
) -> bool {
    routed(flag_before(responded, attempts, i), attempts[i].operation) == Some(
        Endpoint::InitialResponse,
    ) && attempts[i].accepted
}

/// The flag that attempt `i + 1` finds is the flag that attempt `i` leaves.
pub proof fn lemma_flag_step(responded: bool, attempts: Seq<Attempt>, i: int)
    requires
        0 <= i < attempts.len(),
    ensures
        flag_before(responded, attempts, i + 1) == after_attempt(
            flag_before(responded, attempts, i),
            attempts[i],
        ),
{
    let upto = attempts.subrange(0, i + 1);
    assert(upto.drop_last() =~= attempts.subrange(0, i));
    assert(upto.last() == attempts[i]);
}

/// No attempt clears the flag: once it is set, every later attempt finds it
/// set.
pub proof fn lemma_flag_stays_set(responded: bool, attempts: Seq<Attempt>, i: int, j: int)
    requires
        0 <= i <= j <= attempts.len(),
        flag_before(responded, attempts, i),
    ensures
        flag_before(responded, attempts, j),
    decreases j - i,
{
    if i < j {
        lemma_flag_stays_set(responded, attempts, i, j - 1);
        lemma_flag_step(responded, attempts, j - 1);
    }
}

/// Over any sequence of attempts on one handle, the flag goes from unset to
/// set at most once, and the attempt at which it does is one that creates
/// the initial response and has it accepted. Every such attempt sets the
/// flag, so at most one initial response is ever accepted.
pub proof fn lemma_flag_set_once(responded: bool, attempts: Seq<Attempt>)
    ensures
        forall|i: int|
            0 <= i < attempts.len() ==> (#[trigger] sets_flag(responded, attempts, i)
                <==> creates_accepted_response(responded, attempts, i)),
        forall|i: int, j: int|
            0 <= i < j < attempts.len() ==> !(#[trigger] sets_flag(responded, attempts, i)
                && #[trigger] sets_flag(responded, attempts, j)),
        forall|i: int, j: int|
            0 <= i < j < attempts.len() ==> !(#[trigger] creates_accepted_response(
                responded,
                attempts,
                i,
            ) && #[trigger] creates_accepted_response(responded, attempts, j)),
{
    assert forall|i: int| 0 <= i < attempts.len() implies (#[trigger] sets_flag(
        responded,
        attempts,
        i,
    ) <==> creates_accepted_response(responded, attempts, i)) by {
        lemma_flag_step(responded, attempts, i);
    }
    assert forall|i: int, j: int| 0 <= i < j < attempts.len() implies !(#[trigger] sets_flag(
        responded,
        attempts,
        i,
    ) && #[trigger] sets_flag(responded, attempts, j)) by {
        if sets_flag(responded, attempts, i) {
            lemma_flag_stays_set(responded, attempts, i + 1, j);
        }
    }
    assert forall|i: int, j: int| 0 <= i < j < attempts.len() implies !(
    #[trigger] creates_accepted_response(responded, attempts, i)
        && #[trigger] creates_accepted_response(responded, attempts, j)) by {
        if creates_accepted_response(responded, attempts, i) {
            lemma_flag_step(responded, attempts, i);
            lemma_flag_stays_set(responded, attempts, i + 1, j);
        }
    }
}

/// The flag at the end of a conversation that began with it unset says
/// whether some attempt created the initial response and had it accepted.
pub proof fn lemma_flag_tells_of_accepted_response(attempts: Seq<Attempt>)
    ensures
        after_all(false, attempts) <==> exists|i: int|
            0 <= i < attempts.len() && #[trigger] creates_accepted_response(false, attempts, i),
    decreases attempts.len(),
{
    let n = attempts.len() as int;
    assert(attempts.subrange(0, n) =~= attempts);
    if n > 0 {
        let earlier = attempts.drop_last();
        lemma_flag_tells_of_accepted_response(earlier);
        assert(earlier =~= attempts.subrange(0, n - 1));
        lemma_flag_step(false, attempts, n - 1);
        assert forall|i: int| 0 <= i < n - 1 implies creates_accepted_response(
            false,
            earlier,
            i,
        ) == #[trigger] creates_accepted_response(false, attempts, i) by {
            assert(earlier.subrange(0, i) =~= attempts.subrange(0, i));
        }
        if after_all(false, attempts) {
            if flag_before(false, attempts, n - 1) {
                let i = choose|i: int|
                    0 <= i < n - 1 && #[trigger] creates_accepted_response(false, earlier, i);
                assert(creates_accepted_response(false, attempts, i));
            } else {
                assert(creates_accepted_response(false, attempts, n - 1));
            }
        } else {
            assert forall|i: int| 0 <= i < n implies !#[trigger] creates_accepted_response(
                false,
                attempts,
                i,
            ) by {
                if i < n - 1 {
                    assert(!creates_accepted_response(false, earlier, i));
                }
            }
        }
    }
}

/// A deferral that is accepted sets the flag, and the reply that comes after
/// it goes out as a followup.
pub proof fn lemma_defer_then_reply()
    ensures
        routed(false, Operation::Defer) == Some(Endpoint::InitialResponse),
        settled(false, Endpoint::InitialResponse, true),
        routed(settled(false, Endpoint::InitialResponse, true), Operation::Reply) == Some(
            Endpoint::Followup,
        ),
{
}

/// Of two replies on a fresh handle, whichever task's comes first creates
/// the initial response; once that is accepted the other goes out as a
/// followup, and the flag then stays as the first one set it.
pub proof fn lemma_reply_then_reply(accepted: bool)
    ensures
        routed(false, Operation::Reply) == Some(Endpoint::InitialResponse),
        routed(settled(false, Endpoint::InitialResponse, true), Operation::Reply) == Some(
            Endpoint::Followup,
        ),
        settled(settled(false, Endpoint::InitialResponse, true), Endpoint::Followup, accepted),
{
}

/// An operation that has to be the first answer makes no call on a handle
/// whose flag is set, whatever set it; a reply still makes one.
pub proof fn lemma_first_only_after_response(operation: Operation)
    ensures
        routed(true, operation) is Some <==> operation is Reply,
        routed(false, operation) == Some(Endpoint::InitialResponse),
{
}

/// A call that the remote side refuses leaves the flag as it was, so that
/// after a failed deferral a reply is still the initial response.
pub proof fn lemma_refused_call_changes_nothing(responded: bool, endpoint: Endpoint)
    ensures
        settled(responded, endpoint, false) == responded,
        routed(settled(false, Endpoint::InitialResponse, false), Operation::Reply) == Some(
            Endpoint::InitialResponse,
        ),
{
}

/// What is missing is what was required and not granted: of two disjoint
/// sets that are required, the one that is not granted is missing, and
/// nothing is missing once both are granted, whatever else is granted too.
pub proof fn lemma_missing_is_required_and_not_granted(a: u64, b: u64, c: u64)
    requires
        a & b == 0,
    ensures
        missing_bits(a | b, a) == b,
        missing_bits(a | b, a | b | c) == 0,
{
    assert((a | b) & !a == b) by (bit_vector)
        requires
            a & b == 0,
    ;
    assert((a | b) & !(a | b | c) == 0) by (bit_vector);
}

/// Where an interaction came without permissions, the handle holds all of
/// them, and then no valid set of required permissions has anything missing.
pub proof fn lemma_nothing_missing_without_permissions(required: Permissions)
    requires
        required.wf(),
    ensures
        missing_bits(required@, ALL_PERMISSION_BITS) == 0,
{
    lemma_valid_bits_are_known(required);
}

} // verus!
