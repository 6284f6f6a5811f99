//! What holds of every session, proved from the transition rules.

use vstd::prelude::*;
use crate::bus::{Reply, Request, OUTPUT_SELECTOR};
use crate::driver::{Phase, State, Step};
use crate::model::{Call, Chip, World};
use crate::pin::Pin;

verus! {

/// The answers of a bus in good order to a read that has to select its
/// input first: the select goes through, then come the leftover byte and
/// the sample.
pub open spec fn select_discard_sample<E>(leftover: u8, sample: u8) -> Seq<Reply<E>> {
    seq![Reply::Written, Reply::Byte(leftover), Reply::Byte(sample)]
}

/// The transactions of a read that has to select its input first: the
/// control byte, the read that is thrown away, the read of the sample.
pub open spec fn select_sequence(pin: Pin) -> Seq<Request> {
    seq![Request::WriteByte(pin.control()), Request::ReadByte, Request::ReadByte]
}

/// A read of an input that is not known to be selected writes the input's
/// control byte, reads one byte and throws it away, then reads the sample
/// and returns it. The input is selected afterwards.
pub proof fn read_of_unselected_pin_selects_it<E>(state: State, pin: Pin, leftover: u8, sample: u8)
    requires
        state.selected != Some(pin),
    ensures
        ({
            let course = state.start_read(pin).course(select_discard_sample::<E>(leftover, sample));
            &&& course.issued == select_sequence(pin)
            &&& course.end == Some(Step::<E>::Sampled(sample))
            &&& course.state == State { selected: Some(pin), phase: Phase::Idle }
        }),
{
    let replies = select_discard_sample::<E>(leftover, sample);
    reveal_with_fuel(State::course, 4);
    assert(replies.drop_first() =~= seq![Reply::Byte(leftover), Reply::Byte(sample)]);
    assert(replies.drop_first().drop_first() =~= seq![Reply::Byte(sample)]);
    assert(state.start_read(pin).course(replies).issued =~= select_sequence(pin));
}

/// The transactions of a read of `pin` begun in `state` that no failure
/// cuts short: the read of the sample alone where `pin` is known to be
/// selected, and the whole select sequence otherwise.
pub open spec fn read_traffic(state: State, pin: Pin) -> Seq<Request> {
    if state.selected == Some(pin) {
        seq![Request::ReadByte]
    } else {
        select_sequence(pin)
    }
}

/// The answers of a bus in good order to a read of `pin` begun in `state`:
/// the sample alone where `pin` is known to be selected, and the whole
/// select sequence otherwise.
pub open spec fn answers_in_good_order<E>(state: State, pin: Pin, leftover: u8, sample: u8) -> Seq<
    Reply<E>,
> {
    if state.selected == Some(pin) {
        seq![Reply::Byte(sample)]
    } else {
        select_discard_sample(leftover, sample)
    }
}

/// A read of the input that is known to be selected asks for one
/// transaction only, the read of the sample, and writes nothing to the chip.
pub proof fn read_of_selected_pin_only_samples<E>(state: State, pin: Pin, sample: u8)
    requires
        state.selected == Some(pin),
    ensures
        ({
            let course = state.start_read(pin).course(seq![Reply::<E>::Byte(sample)]);
            &&& course.issued == seq![Request::ReadByte]
            &&& course.end == Some(Step::<E>::Sampled(sample))
            &&& course.state == State { selected: Some(pin), phase: Phase::Idle }
        }),
{
    reveal_with_fuel(State::course, 2);
}

/// A read that the bus answers in good order returns the sample and leaves
/// its input selected, whatever the session knew before.
pub proof fn read_in_good_order_returns_the_sample<E>(
    state: State,
    pin: Pin,
    leftover: u8,
    sample: u8,
)
    ensures
        ({
            let course = state.start_read(pin).course(
                answers_in_good_order::<E>(state, pin, leftover, sample),
            );
            &&& course.end == Some(Step::<E>::Sampled(sample))
            &&& course.state == State { selected: Some(pin), phase: Phase::Idle }
            &&& course.issued == read_traffic(state, pin)
        }),
{
    if state.selected == Some(pin) {
        read_of_selected_pin_only_samples::<E>(state, pin, sample);
    } else {
        read_of_unselected_pin_selects_it::<E>(state, pin, leftover, sample);
    }
}

/// Two reads of one input in succession: the first, where the input was
/// not selected yet, runs the select sequence once; the second asks for the
/// sample and nothing else.
pub proof fn second_read_of_a_pin_skips_the_select<E>(
    state: State,
    pin: Pin,
    leftover: u8,
    first_sample: u8,
    second_sample: u8,
)
    requires
        state.selected != Some(pin),
    ensures
        ({
            let first = state.start_read(pin).course(
                select_discard_sample::<E>(leftover, first_sample),
            );
            let second = first.state.start_read(pin).course(seq![Reply::<E>::Byte(second_sample)]);
            &&& first.issued == select_sequence(pin)
            &&& first.end == Some(Step::<E>::Sampled(first_sample))
            &&& second.issued == seq![Request::ReadByte]
            &&& second.end == Some(Step::<E>::Sampled(second_sample))
            &&& second.state.selected == Some(pin)
        }),
{
    read_of_unselected_pin_selects_it::<E>(state, pin, leftover, first_sample);
    let first = state.start_read(pin).course(select_discard_sample::<E>(leftover, first_sample));
    read_of_selected_pin_only_samples::<E>(first.state, pin, second_sample);
}

/// A read of one input followed by a read of another: the second runs the
/// select sequence for its own input, whatever the session knew before the
/// first.
pub proof fn switching_pins_selects_again<E>(
    state: State,
    first_pin: Pin,
    second_pin: Pin,
    first_leftover: u8,
    first_sample: u8,
    second_leftover: u8,
    second_sample: u8,
)
    requires
        first_pin != second_pin,
    ensures
        ({
            let first = state.start_read(first_pin).course(
                answers_in_good_order::<E>(state, first_pin, first_leftover, first_sample),
            );
            let second = first.state.start_read(second_pin).course(
                select_discard_sample::<E>(second_leftover, second_sample),
            );
            &&& first.end == Some(Step::<E>::Sampled(first_sample))
            &&& second.issued == select_sequence(second_pin)
            &&& second.end == Some(Step::<E>::Sampled(second_sample))
            &&& second.state.selected == Some(second_pin)
        }),
{
    read_in_good_order_returns_the_sample::<E>(state, first_pin, first_leftover, first_sample);
    let first = state.start_read(first_pin).course(
        answers_in_good_order::<E>(state, first_pin, first_leftover, first_sample),
    );
    read_of_unselected_pin_selects_it::<E>(first.state, second_pin, second_leftover, second_sample);
}

/// A write to the analog output asks for one transaction, the output
/// selector followed by the value, and leaves no input selected: whether
/// the bus answers, and whatever it answers.
pub proof fn write_forgets_the_selected_pin<E>(state: State, value: u8, replies: Seq<Reply<E>>)
    ensures
        ({
            let course = state.start_write(value).course(replies);
            &&& course.issued == seq![Request::WriteBuffer(OUTPUT_SELECTOR, value)]
            &&& course.state.selected is None
            &&& replies.len() > 0 ==> course.end == Some(
                match replies.first() {
                    Reply::Written => Step::Written,
                    Reply::Byte(_) => Step::Ignored,
                    Reply::Failed(error) => Step::Failed(error),
                },
            )
        }),
{
    reveal_with_fuel(State::course, 2);
}

/// A read that follows a write to the analog output runs the select
/// sequence, for whichever input and whatever was selected before the
/// write, and whether or not the write went through.
pub proof fn read_after_write_selects_again<E>(
    state: State,
    value: u8,
    answers_to_write: Seq<Reply<E>>,
    pin: Pin,
    leftover: u8,
    sample: u8,
)
    ensures
        ({
            let written = state.start_write(value).course(answers_to_write);
            let read = written.state.start_read(pin).course(
                select_discard_sample::<E>(leftover, sample),
            );
            &&& read.issued == select_sequence(pin)
            &&& read.end == Some(Step::<E>::Sampled(sample))
            &&& read.state.selected == Some(pin)
        }),
{
    write_forgets_the_selected_pin(state, value, answers_to_write);
    let written = state.start_write(value).course(answers_to_write);
    read_of_unselected_pin_selects_it::<E>(written.state, pin, leftover, sample);
}

/// Where the session is told to go on with a transaction, that transaction
/// is the one it then waits for.
pub proof fn issued_request_is_pending<E>(state: State, reply: Reply<E>)
    ensures
        state.outcome(reply) matches Step::Issue(request) ==> state.advance(reply).pending()
            == Some(request),
        !(state.outcome(reply) is Issue) && !(state.outcome(reply) is Ignored)
            ==> state.advance(reply).pending() is None,
        state.outcome(reply) is Ignored ==> state.advance(reply) == state,
{
}

/// A failure of the pending transaction ends the operation, and the error
/// is handed on as the bus gave it.
pub proof fn failure_is_handed_on<E>(state: State, error: E)
    requires
        state.pending() is Some,
    ensures
        state.outcome(Reply::Failed(error)) == Step::Failed(error),
        state.advance(Reply::Failed(error)).pending() is None,
        state.advance(Reply::<E>::Failed(error)).selected == if state.phase is Discarding {
            None
        } else {
            state.selected
        },
{
}

/// In the course of an operation the first failure of the bus is the end,
/// and its error is what the operation ends with: answer `at` is a failure
/// and was asked for, so nothing is asked after it.
pub proof fn course_ends_with_the_failure<E>(state: State, replies: Seq<Reply<E>>, at: int)
    requires
        0 <= at < replies.len(),
        at < state.course(replies).issued.len(),
        replies[at] is Failed,
    ensures
        state.course(replies).end == Some(Step::Failed(replies[at]->Failed_0)),
        state.course(replies).issued.len() == at + 1,
    decreases replies.len(),
{
    if at > 0 {
        let next = state.advance(replies.first());
        assert(state.outcome(replies.first()) is Issue);
        assert(replies.drop_first()[at - 1] == replies[at]);
        course_ends_with_the_failure(next, replies.drop_first(), at - 1);
    }
}

/// Where every answer fits the transaction it is given to, a read ends
/// with a sample or with the error of the bus, and with nothing else. What
/// it asks of the bus is the beginning of its traffic, up to the first
/// failure or to the answers' end, and all of it once it has its sample.
pub proof fn read_ends_in_sample_or_failure<E>(state: State, pin: Pin, replies: Seq<Reply<E>>)
    requires
        ({
            let course = state.start_read(pin).course(replies);
            forall|i: int|
                0 <= i < replies.len() && i < course.issued.len() ==> (#[trigger] replies[i]).answers(
                    course.issued[i],
                )
        }),
    ensures
        ({
            let course = state.start_read(pin).course(replies);
            let traffic = read_traffic(state, pin);
            &&& course.end matches Some(step) ==> step is Sampled || step is Failed
            &&& course.issued.len() <= traffic.len()
            &&& course.issued == traffic.take(course.issued.len() as int)
            &&& course.end matches Some(Step::Sampled(_)) ==> course.issued == traffic
            &&& replies.len() >= traffic.len() ==> course.end is Some
        }),
{
    let s0 = state.start_read(pin);
    let course = s0.course(replies);
    let traffic = read_traffic(state, pin);
    reveal_with_fuel(State::course, 4);
    if replies.len() > 0 {
        assert(replies[0].answers(course.issued[0]));
        if s0.outcome(replies[0]) is Issue {
            let s1 = s0.advance(replies[0]);
            let rest = replies.drop_first();
            if rest.len() > 0 {
                assert(rest[0] == replies[1]);
                assert(replies[1].answers(course.issued[1]));
                if s1.outcome(rest[0]) is Issue {
                    let last = rest.drop_first();
                    if last.len() > 0 {
                        assert(last[0] == replies[2]);
                        assert(replies[2].answers(course.issued[2]));
                    }
                }
            }
        }
    }
    assert(course.issued =~= traffic.take(course.issued.len() as int));
}

/// Where the answer fits, a write to the analog output ends with `Written`
/// or with the error of the bus, and with nothing else.
pub proof fn write_ends_in_written_or_failure<E>(state: State, value: u8, replies: Seq<Reply<E>>)
    requires
        replies.len() > 0,
        replies.first().answers(Request::WriteBuffer(OUTPUT_SELECTOR, value)),
    ensures
        ({
            let course = state.start_write(value).course(replies);
            course.end == Some(
                match replies.first() {
                    Reply::Failed(error) => Step::Failed(error),
                    _ => Step::Written,
                },
            )
        }),
{
    reveal_with_fuel(State::course, 2);
}

/// Every call keeps a coherent session coherent.
pub proof fn call_keeps_coherence<E>(state: State, call: Call<E>)
    requires
        state.coherent(),
    ensures
        match call {
            Call::Read(pin) => state.start_read(pin).coherent(),
            Call::Write(value) => state.start_write(value).coherent(),
            Call::Answer(reply) => state.advance(reply).coherent(),
        },
{
}

/// Every call keeps the session right about the chip.
pub proof fn call_keeps_consistency<E>(world: World, call: Call<E>)
    requires
        world.consistent(),
    ensures
        world.after(call).consistent(),
{
}

/// However a new session is used, it is never wrong about the chip: an
/// input that it takes for selected is the one that the chip was last told
/// to convert, no output write has reached the chip since, and the chip
/// holds a sample of that input.
pub proof fn session_is_never_wrong_about_the_chip<E>(chip: Chip, calls: Seq<Call<E>>)
    ensures
        World::initial(chip).run(calls).consistent(),
    decreases calls.len(),
{
    if calls.len() > 0 {
        session_is_never_wrong_about_the_chip(chip, calls.drop_last());
        call_keeps_consistency(World::initial(chip).run(calls.drop_last()), calls.last());
    }
}

/// A byte that a session returns as the sample of a read is the byte that
/// the bus brought, read while the chip held a conversion of the input that
/// the read was begun for: never the leftover of another input.
pub proof fn sample_is_a_conversion_of_the_pin_asked_for<E>(
    chip: Chip,
    calls: Seq<Call<E>>,
    reply: Reply<E>,
)
    ensures
        ({
            let world = World::initial(chip).run(calls);
            world.driver.outcome(reply) matches Step::Sampled(byte) ==> {
                &&& reply == Reply::<E>::Byte(byte)
                &&& world.driver.phase matches Phase::Sampling(pin) && world.chip.holds_sample_of(
                    pin,
                )
            }
        }),
{
    session_is_never_wrong_about_the_chip(chip, calls);
}

/// A write to the analog output that the bus reports as done has put its
/// value on the output.
pub proof fn written_value_is_on_the_output<E>(world: World, value: u8)
    ensures
        ({
            let done = world.after(Call::<E>::Write(value)).after(Call::<E>::Answer(Reply::Written));
            &&& done.chip.output == value
            &&& done.driver == State { selected: None, phase: Phase::Idle }
        }),
{
}

} // verus!
