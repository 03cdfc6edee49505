//! The Feetech (FT-SCS) protocol handler: its settings, its error kinds, and
//! the decisions it takes around the bytes it exchanges with the bus.

use std::time::Duration;

use vstd::prelude::*;
use vstd::string::*;

use crate::text::{decimal, push_decimal};

verus! {

/// Raw Feetech (FT-SCS) communication messages controller.
///
/// Feetech servos use a single protocol version, so unlike the Dynamixel
/// handler this one has no v1/v2 split. Its one setting is the delay that
/// follows each communication, if any; its view is that setting.
#[derive(Debug)]
pub struct FeetechProtocolHandler {
    post_delay: Option<Duration>,
}

impl View for FeetechProtocolHandler {
    type V = Option<Duration>;

    closed spec fn view(&self) -> Option<Duration> {
        self.post_delay
    }
}

impl Default for FeetechProtocolHandler {
    fn default() -> (handler: Self)
        ensures
            handler@ == None::<Duration>,
    {
        Self::new()
    }
}

/// How many times the input buffer is drained, at most, before an
/// instruction packet is sent.
pub const MAX_FLUSH_RETRIES: usize = 3;

/// The pause, in milliseconds, after each drain of the input buffer.
pub const FLUSH_RETRY_DELAY_MS: u64 = 5;

impl FeetechProtocolHandler {
    /// Creates a new Feetech FT-SCS communication handler, with no delay
    /// after its communications.
    pub fn new() -> (handler: Self)
        ensures
            handler@ == None::<Duration>,
    {
        FeetechProtocolHandler { post_delay: None }
    }

    /// Sets a delay after each communication.
    pub fn with_post_delay(self, delay: Duration) -> (handler: Self)
        ensures
            handler@ == Some(delay),
    {
        FeetechProtocolHandler { post_delay: Some(delay) }
    }

    /// The delay that follows each communication, if one was set.
    pub fn post_delay(&self) -> (delay: Option<Duration>)
        ensures
            delay == self@,
    {
        self.post_delay
    }

    /// Whether a factory reset with these options can be sent at all.
    ///
    /// Keeping the ID, or the ID and the baud rate, is not supported by the
    /// FT-SCS protocol: either option is answered with
    /// [`CommunicationErrorKind::Unsupported`] before anything is sent.
    pub fn check_factory_reset_options(
        &self,
        conserve_id_only: bool,
        conserve_id_and_baudrate: bool,
    ) -> (checked: Result<(), CommunicationErrorKind>)
        ensures
            checked is Ok <==> !conserve_id_only && !conserve_id_and_baudrate,
            checked is Err ==> checked == Err::<(), CommunicationErrorKind>(CommunicationErrorKind::Unsupported),
    {
        if conserve_id_only || conserve_id_and_baudrate {
            return Err(CommunicationErrorKind::Unsupported);
        }
        Ok(())
    }
}

/// What the handler does after it has looked at the serial input buffer
/// before sending an instruction packet.
#[derive(Debug, Clone, Copy, PartialEq, Eq, Structural)]
pub enum FlushStep {
    /// The buffer is empty: the packet can be sent.
    Ready,
    /// Stale bytes are waiting: read them away, pause, and look again.
    Drain,
    /// The buffer is still not empty after the last allowed drain: the
    /// exchange fails with [`CommunicationErrorKind::TimeoutError`].
    TimedOut,
}

/// The decision after look number `check` (counted from 0) at the input
/// buffer, when at most `max_retries` drains are allowed.
pub open spec fn spec_flush_step(check: nat, max_retries: nat, input_empty: bool) -> FlushStep {
    if input_empty {
        FlushStep::Ready
    } else if check < max_retries {
        FlushStep::Drain
    } else {
        FlushStep::TimedOut
    }
}

/// The decision after look number `check` (counted from 0) at the input
/// buffer, given whether the buffer was found empty, when at most
/// `max_retries` drains are allowed.
pub fn flush_step(check: usize, max_retries: usize, input_empty: bool) -> (step: FlushStep)
    ensures
        step == spec_flush_step(check as nat, max_retries as nat, input_empty),
{
    if input_empty {
        FlushStep::Ready
    } else if check < max_retries {
        FlushStep::Drain
    } else {
        FlushStep::TimedOut
    }
}

/// Where the pre-send drain ends when it is driven by [`flush_step`] from
/// look number `check` on, and look number `k` finds the buffer empty
/// exactly when `observed[k]` holds.
pub open spec fn flush_outcome(observed: Seq<bool>, max_retries: nat, check: nat) -> FlushStep
    decreases max_retries - check,
{
    if check > max_retries || check >= observed.len() {
        FlushStep::TimedOut
    } else {
        match spec_flush_step(check, max_retries, observed[check as int]) {
            FlushStep::Drain => flush_outcome(observed, max_retries, check + 1),
            other => other,
        }
    }
}

proof fn lemma_flush_outcome_from(observed: Seq<bool>, max_retries: nat, check: nat)
    requires
        observed.len() == max_retries + 1,
        check <= max_retries + 1,
    ensures
        flush_outcome(observed, max_retries, check) is Ready <==> exists|k: int|
            check <= k < observed.len() && #[trigger] observed[k],
        flush_outcome(observed, max_retries, check) is Ready || flush_outcome(observed, max_retries, check) is TimedOut,
    decreases max_retries + 1 - check,
{
    if check <= max_retries {
        lemma_flush_outcome_from(observed, max_retries, check + 1);
    }
}

/// Driving the pre-send drain with [`flush_step`], from the first look on,
/// ends ready to send exactly when one of the `max_retries + 1` looks finds
/// the input buffer empty, and times out otherwise; it never ends while a
/// drain is still asked for.
pub proof fn lemma_flush_outcome(observed: Seq<bool>, max_retries: nat)
    requires
        observed.len() == max_retries + 1,
    ensures
        flush_outcome(observed, max_retries, 0) is Ready <==> exists|k: int|
            0 <= k < observed.len() && #[trigger] observed[k],
        flush_outcome(observed, max_retries, 0) is TimedOut <==> forall|k: int|
            0 <= k < observed.len() ==> !#[trigger] observed[k],
{
    lemma_flush_outcome_from(observed, max_retries, 0);
}

/// Feetech communication error.
#[derive(Debug, Clone, Copy)]
pub enum CommunicationErrorKind {
    /// Incorrect checksum
    ChecksumError,
    /// Could not parse incoherent message
    ParsingError,
    /// Timeout
    TimeoutError,
    /// Incorrect response id - different from sender (sender id, response id)
    IncorrectId(u8, u8),
    /// Operation not supported
    Unsupported,
}

impl CommunicationErrorKind {
    /// The text of the error, as it is shown to a user.
    pub open spec fn spec_message(self) -> Seq<char> {
        match self {
            CommunicationErrorKind::ChecksumError => "Checksum error"@,
            CommunicationErrorKind::ParsingError => "Parsing error"@,
            CommunicationErrorKind::TimeoutError => "Timeout error"@,
            CommunicationErrorKind::IncorrectId(sender_id, resp_id) => "Incorrect id ("@ + decimal(
                resp_id as int,
            ) + " instead of "@ + decimal(sender_id as int) + ")"@,
            CommunicationErrorKind::Unsupported => "Operation not supported"@,
        }
    }

    /// The error as text, as it is shown to a user.
    pub fn message(&self) -> (text: String)
        ensures
            text@ == self.spec_message(),
    {
        match self {
            CommunicationErrorKind::ChecksumError => String::from_str("Checksum error"),
            CommunicationErrorKind::ParsingError => String::from_str("Parsing error"),
            CommunicationErrorKind::TimeoutError => String::from_str("Timeout error"),
            CommunicationErrorKind::IncorrectId(sender_id, resp_id) => {
                let mut text = String::from_str("Incorrect id (");
                push_decimal(&mut text, *resp_id as i64);
                text.append(" instead of ");
                push_decimal(&mut text, *sender_id as i64);
                text.append(")");
                text
            },
            CommunicationErrorKind::Unsupported => String::from_str("Operation not supported"),
        }
    }
}

} // verus!
