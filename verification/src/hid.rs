//! The raw HID commands that set and read the keyboard's layer.
//!
//! A command is a report of 32 bytes after a leading report number; the
//! keyboard answers with a report that starts with the same two bytes. The
//! exchange runs as a state machine: the caller performs each action and
//! reports back what came of it.
use vstd::prelude::*;

verus! {

/// The size of a raw HID report.
pub const RAW_EPSIZE: usize = 32;

/// A report with the report number in front.
pub const REPORT_SIZE: usize = 33;

/// How long a reply is waited for, in nanoseconds.
pub const READ_TIMEOUT: u64 = 1_000_000_000;

/// The result of an exchange; the error is a text for the status line.
pub type HidResult<T> = Result<T, String>;

/// What the caller reports back.
pub enum HidEvent {
    /// The exchange begins.
    Start,
    /// Outcome of writing the report.
    Written(HidResult<()>),
    /// Nanoseconds gone by since the report was written.
    Elapsed(u64),
    /// Outcome of a read: the number of bytes that came, and the buffer.
    Received(HidResult<usize>, [u8; 32]),
}

/// What the caller is asked to do next.
pub enum HidAction<T> {
    /// Write this report.
    Write([u8; 33]),
    /// Look at the clock.
    ReadClock,
    /// Read a report, waiting at most this long.
    Read { timeout_ms: i32 },
    /// The exchange is over.
    Finish(HidResult<T>),
}

/// The report that carries a payload: report number zero, the payload, zeros.
pub open spec fn report(payload: Seq<u8>) -> Seq<u8> {
    Seq::new(
        REPORT_SIZE as nat,
        |i: int|
            if 1 <= i <= payload.len() {
                payload[i - 1]
            } else {
                0
            },
    )
}

/// Whether `n` bytes in `response` answer the command in `payload`.
pub open spec fn answers(payload: Seq<u8>, n: usize, response: Seq<u8>) -> bool {
    n > 0 && response[0] == payload[0] && response[1] == payload[1]
}

/// The action that follows an event in an exchange of `payload`; `result` is
/// what the exchange makes of the answer.
pub open spec fn follows<T>(
    payload: Seq<u8>,
    result: spec_fn([u8; 32]) -> T,
    event: HidEvent,
    action: HidAction<T>,
) -> bool {
    match event {
        HidEvent::Start => action matches HidAction::Write(r) && r@ == report(payload),
        HidEvent::Written(Err(e)) => action == HidAction::<T>::Finish(Err(e)),
        HidEvent::Written(Ok(_)) => action is ReadClock,
        HidEvent::Elapsed(t) => if t >= READ_TIMEOUT {
            action matches HidAction::Finish(Err(e)) && e@ == "timeout waiting for reply"@
        } else {
            action == HidAction::<T>::Read { timeout_ms: ((READ_TIMEOUT - t) / 1_000_000) as i32 }
        },
        HidEvent::Received(Err(e), _) => action == HidAction::<T>::Finish(Err(e)),
        HidEvent::Received(Ok(n), response) => if answers(payload, n, response@) {
            action == HidAction::<T>::Finish(Ok(result(response)))
        } else {
            action is ReadClock
        },
    }
}

/// Builds the report that carries a payload.
fn build_report(payload: &[u8]) -> (out: [u8; 33])
    requires
        payload@.len() <= RAW_EPSIZE,
    ensures
        out@ == report(payload@),
{
    let mut out: [u8; 33] = [0u8; 33];
    let mut i: usize = 0;
    while i < payload.len()
        invariant
            i <= payload@.len() <= RAW_EPSIZE,
            forall|j: int| 1 <= j <= i ==> out@[j] == payload@[j - 1],
            forall|j: int| 0 <= j < 33 && !(1 <= j <= i) ==> out@[j] == 0,
        decreases payload@.len() - i,
    {
        out[i + 1] = payload[i];
        i = i + 1;
    }
    assert(out@ =~= report(payload@));
    out
}

/// One step of an exchange: writes the payload, then reads until a report comes
/// that starts with the payload's first two bytes, or time is up.
pub fn transact(payload: &[u8], event: HidEvent) -> (action: HidAction<[u8; 32]>)
    requires
        2 <= payload@.len() <= RAW_EPSIZE,
    ensures
        follows(payload@, |response: [u8; 32]| response, event, action),
{
    match event {
        HidEvent::Start => HidAction::Write(build_report(payload)),
        HidEvent::Written(Err(e)) => HidAction::Finish(Err(e)),
        HidEvent::Written(Ok(_)) => HidAction::ReadClock,
        HidEvent::Elapsed(t) => if t >= READ_TIMEOUT {
            HidAction::Finish(Err("timeout waiting for reply".to_owned()))
        } else {
            HidAction::Read { timeout_ms: ((READ_TIMEOUT - t) / 1_000_000) as i32 }
        },
        HidEvent::Received(Err(e), _) => HidAction::Finish(Err(e)),
        HidEvent::Received(Ok(n), response) => if n > 0 && response[0] == payload[0] && response[1]
            == payload[1] {
            HidAction::Finish(Ok(response))
        } else {
            HidAction::ReadClock
        },
    }
}

/// The command that switches to a layer.
pub open spec fn set_command(layer: u8) -> Seq<u8> {
    seq![0x02u8, 0xB0u8, layer]
}

/// The command that asks for the current layer.
pub open spec fn get_command() -> Seq<u8> {
    seq![0x02u8, 0xB1u8]
}

/// One step of switching the keyboard to a layer.
pub fn set_layer(layer: u8, event: HidEvent) -> (action: HidAction<()>)
    ensures
        follows(set_command(layer), |response: [u8; 32]| (), event, action),
{
    let payload: [u8; 3] = [0x02, 0xB0, layer];
    assert(payload@ =~= set_command(layer));
    match transact(payload.as_slice(), event) {
        HidAction::Write(r) => HidAction::Write(r),
        HidAction::ReadClock => HidAction::ReadClock,
        HidAction::Read { timeout_ms } => HidAction::Read { timeout_ms },
        HidAction::Finish(Ok(_)) => HidAction::Finish(Ok(())),
        HidAction::Finish(Err(e)) => HidAction::Finish(Err(e)),
    }
}

/// One step of asking the keyboard for its layer.
pub fn get_layer(event: HidEvent) -> (action: HidAction<u8>)
    ensures
        follows(get_command(), |response: [u8; 32]| response@[2], event, action),
{
    let payload: [u8; 2] = [0x02, 0xB1];
    assert(payload@ =~= get_command());
    match transact(payload.as_slice(), event) {
        HidAction::Write(r) => HidAction::Write(r),
        HidAction::ReadClock => HidAction::ReadClock,
        HidAction::Read { timeout_ms } => HidAction::Read { timeout_ms },
        HidAction::Finish(Ok(response)) => HidAction::Finish(Ok(response[2])),
        HidAction::Finish(Err(e)) => HidAction::Finish(Err(e)),
    }
}

/// The layer that the keyboard reports is the layer that asking returns.
pub proof fn law_reported_layer_is_returned(
    n: usize,
    response: [u8; 32],
    layer: u8,
    action: HidAction<u8>,
)
    requires
        n > 0,
        response@[0] == 0x02,
        response@[1] == 0xB1,
        response@[2] == layer,
        follows(
            get_command(),
            |r: [u8; 32]| r@[2],
            HidEvent::Received(Ok(n), response),
            action,
        ),
    ensures
        action == HidAction::<u8>::Finish(Ok(layer)),
{
}

/// The answer the firmware gives to a layer switch ends the switch in success.
pub proof fn law_switch_is_acknowledged(
    n: usize,
    response: [u8; 32],
    layer: u8,
    action: HidAction<()>,
)
    requires
        n > 0,
        response@.take(3) == set_command(layer),
        follows(
            set_command(layer),
            |r: [u8; 32]| (),
            HidEvent::Received(Ok(n), response),
            action,
        ),
    ensures
        action == HidAction::<()>::Finish(Ok(())),
{
    assert(response@[0] == response@.take(3)[0]);
    assert(response@[1] == response@.take(3)[1]);
}

/// The answer to one command is never taken for the answer to the other.
pub proof fn law_answers_are_not_confused(n: usize, response: Seq<u8>, layer: u8)
    ensures
        !(answers(set_command(layer), n, response) && answers(get_command(), n, response)),
{
}

/// A read never waits past the end of the time allowed for a reply.
pub proof fn law_reads_end_by_the_deadline<T>(
    payload: Seq<u8>,
    result: spec_fn([u8; 32]) -> T,
    elapsed: u64,
    action: HidAction<T>,
)
    requires
        follows(payload, result, HidEvent::Elapsed(elapsed), action),
    ensures
        action matches HidAction::Read { timeout_ms } ==> 0 <= timeout_ms <= 1000 && elapsed
            + timeout_ms * 1_000_000 <= READ_TIMEOUT,
        elapsed >= READ_TIMEOUT ==> action is Finish,
{
}

/// What is written for a switch is the command, the layer and zeros.
pub proof fn law_switch_report(layer: u8)
    ensures
        report(set_command(layer)).len() == REPORT_SIZE,
        report(set_command(layer)).take(4) == seq![0u8, 0x02u8, 0xB0u8, layer],
        forall|i: int| 4 <= i < REPORT_SIZE ==> report(set_command(layer))[i] == 0,
{
    assert(report(set_command(layer)).take(4) =~= seq![0u8, 0x02u8, 0xB0u8, layer]);
}

/// A report is 33 bytes: a zero, the payload, and zeros to the end.
pub proof fn law_report_carries_the_payload(payload: Seq<u8>, i: int)
    requires
        payload.len() <= 32,
        0 <= i < 32,
    ensures
        report(payload).len() == 33,
        report(payload)[0] == 0,
        i < payload.len() ==> report(payload)[i + 1] == payload[i],
        i >= payload.len() ==> report(payload)[i + 1] == 0,
{
}

/// The two commands: family 2, then `B0` and the layer to set one, `B1` to ask.
pub proof fn law_commands(layer: u8)
    ensures
        set_command(layer).len() == 3,
        set_command(layer)[0] == 2 && set_command(layer)[1] == 0xB0 && set_command(layer)[2]
            == layer,
        get_command().len() == 2,
        get_command()[0] == 2 && get_command()[1] == 0xB1,
{
}

/// An exchange begins with writing the report of the payload, and looks at the
/// clock once that is written.
pub proof fn law_exchange_writes_the_payload(
    payload: &[u8],
    i: int,
    error: String,
    start: HidAction<[u8; 32]>,
    written: HidAction<[u8; 32]>,
    failed: HidAction<[u8; 32]>,
)
    requires
        2 <= payload@.len() <= 32,
        0 <= i < 32,
        call_ensures(transact, (payload, HidEvent::Start), start),
        call_ensures(transact, (payload, HidEvent::Written(Ok(()))), written),
        call_ensures(transact, (payload, HidEvent::Written(Err(error))), failed),
    ensures
        start matches HidAction::Write(r) && r@[0] == 0 && r@[i + 1] == (if i < payload@.len() {
            payload@[i]
        } else {
            0
        }),
        written is ReadClock,
        failed matches HidAction::Finish(Err(e)) && e == error,
{
}

/// A reply is waited for until a second has gone by since the report was written,
/// in whole milliseconds that do not go past it; then the exchange ends in an error.
pub proof fn law_reply_is_waited_for_a_second(
    payload: &[u8],
    elapsed: u64,
    action: HidAction<[u8; 32]>,
)
    requires
        2 <= payload@.len() <= 32,
        call_ensures(transact, (payload, HidEvent::Elapsed(elapsed)), action),
    ensures
        elapsed < 1_000_000_000 ==> (action matches HidAction::Read { timeout_ms } && elapsed
            + timeout_ms * 1_000_000 <= 1_000_000_000 < elapsed + (timeout_ms + 1) * 1_000_000),
        elapsed >= 1_000_000_000 ==> (action matches HidAction::Finish(Err(e)) && e@
            == "timeout waiting for reply"@),
{
}

/// Only a report that is not empty and starts with the first two bytes of the
/// payload is the answer; any other is passed over, and a failed read ends the
/// exchange with its error.
pub proof fn law_answer_starts_like_the_payload(
    payload: &[u8],
    n: usize,
    response: [u8; 32],
    error: String,
    action: HidAction<[u8; 32]>,
    failed: HidAction<[u8; 32]>,
)
    requires
        2 <= payload@.len() <= 32,
        call_ensures(transact, (payload, HidEvent::Received(Ok(n), response)), action),
        call_ensures(transact, (payload, HidEvent::Received(Err(error), response)), failed),
    ensures
        n > 0 && response@[0] == payload@[0] && response@[1] == payload@[1] ==> action
            == HidAction::<[u8; 32]>::Finish(Ok(response)),
        n == 0 || response@[0] != payload@[0] || response@[1] != payload@[1] ==> action is ReadClock,
        failed matches HidAction::Finish(Err(e)) && e == error,
{
}

/// Switching writes the command with the layer and takes only an acknowledgement of
/// such a command as the end.
pub proof fn law_switching_exchange(
    layer: u8,
    n: usize,
    response: [u8; 32],
    start: HidAction<()>,
    received: HidAction<()>,
)
    requires
        call_ensures(set_layer, (layer, HidEvent::Start), start),
        call_ensures(set_layer, (layer, HidEvent::Received(Ok(n), response)), received),
    ensures
        start matches HidAction::Write(r) && r@[0] == 0 && r@[1] == 2 && r@[2] == 0xB0 && r@[3]
            == layer && forall|i: int| 4 <= i < 33 ==> r@[i] == 0,
        n > 0 && response@[0] == 2 && response@[1] == 0xB0 ==> received == HidAction::<()>::Finish(
            Ok(()),
        ),
        n == 0 || response@[0] != 2 || response@[1] != 0xB0 ==> received is ReadClock,
{
}

/// Asking writes the command and returns the third byte of its answer.
pub proof fn law_asking_exchange(
    n: usize,
    response: [u8; 32],
    start: HidAction<u8>,
    received: HidAction<u8>,
)
    requires
        call_ensures(get_layer, (HidEvent::Start,), start),
        call_ensures(get_layer, (HidEvent::Received(Ok(n), response),), received),
    ensures
        start matches HidAction::Write(r) && r@[0] == 0 && r@[1] == 2 && r@[2] == 0xB1 && forall|
            i: int,
        |
            3 <= i < 33 ==> r@[i] == 0,
        n > 0 && response@[0] == 2 && response@[1] == 0xB1 ==> received == HidAction::<u8>::Finish(
            Ok(response@[2]),
        ),
        n == 0 || response@[0] != 2 || response@[1] != 0xB1 ==> received is ReadClock,
{
}

/// Between writing and the answer, both commands go by the clock and the errors as
/// any exchange does.
pub proof fn law_commands_wait_like_any_exchange(
    layer: u8,
    elapsed: u64,
    error: String,
    response: [u8; 32],
    written: (HidAction<()>, HidAction<u8>),
    unwritten: (HidAction<()>, HidAction<u8>),
    waiting: (HidAction<()>, HidAction<u8>),
    unread: (HidAction<()>, HidAction<u8>),
)
    requires
        call_ensures(set_layer, (layer, HidEvent::Written(Ok(()))), written.0),
        call_ensures(get_layer, (HidEvent::Written(Ok(())),), written.1),
        call_ensures(set_layer, (layer, HidEvent::Written(Err(error))), unwritten.0),
        call_ensures(get_layer, (HidEvent::Written(Err(error)),), unwritten.1),
        call_ensures(set_layer, (layer, HidEvent::Elapsed(elapsed)), waiting.0),
        call_ensures(get_layer, (HidEvent::Elapsed(elapsed),), waiting.1),
        call_ensures(set_layer, (layer, HidEvent::Received(Err(error), response)), unread.0),
        call_ensures(get_layer, (HidEvent::Received(Err(error), response),), unread.1),
    ensures
        written.0 is ReadClock && written.1 is ReadClock,
        unwritten.0 == HidAction::<()>::Finish(Err(error)),
        unwritten.1 == HidAction::<u8>::Finish(Err(error)),
        unread.0 == HidAction::<()>::Finish(Err(error)),
        unread.1 == HidAction::<u8>::Finish(Err(error)),
        elapsed < 1_000_000_000 ==> (waiting.0 matches HidAction::Read { timeout_ms } && waiting.1
            == (HidAction::<u8>::Read { timeout_ms }) && elapsed + timeout_ms * 1_000_000
            <= 1_000_000_000 < elapsed + (timeout_ms + 1) * 1_000_000),
        elapsed >= 1_000_000_000 ==> (waiting.0 matches HidAction::Finish(Err(e)) && e@
            == "timeout waiting for reply"@),
        elapsed >= 1_000_000_000 ==> (waiting.1 matches HidAction::Finish(Err(e)) && e@
            == "timeout waiting for reply"@),
{
}

} // verus!
