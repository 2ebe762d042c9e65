//! Error types shared by the stream DSL and the stream runtime model.
use vstd::prelude::*;
use vstd::string::StringExecFns;

verus! {

/// Errors returned by stream operations.
#[derive(Debug, Clone, Copy, PartialEq, Eq)]
pub enum StreamError {
    /// Indicates an invalid demand request.
    InvalidDemand { requested: u64 },
    /// Indicates demand consumption exceeded the remaining demand.
    DemandExceeded { requested: u64, remaining: u64 },
    /// Indicates a queue overflow or backpressure failure.
    BufferOverflow,
    /// Indicates the materializer has not been started.
    MaterializerNotStarted,
    /// Indicates the materializer has already been started.
    MaterializerAlreadyStarted,
    /// Indicates the materializer has already been stopped.
    MaterializerStopped,
    /// Indicates an actor system is missing for actor-backed materializers.
    ActorSystemMissing,
    /// Indicates a stream graph connection is invalid.
    InvalidConnection,
    /// Indicates a type mismatch at runtime.
    TypeMismatch,
    /// Indicates that processing cannot make progress yet and should be retried.
    WouldBlock,
    /// Indicates stream processing failed with a user error.
    Failed,
    /// Indicates that a partition route is invalid.
    InvalidRoute { route: isize, partition_count: usize },
    /// Indicates that observed substream keys exceeded the configured limit.
    SubstreamLimitExceeded { max_substreams: usize },
    /// Indicates that a timeout condition was reached.
    Timeout { kind: &'static str, ticks: u64 },
}

/// Key of an operator in the compatibility catalog.
#[derive(Debug, Clone, Copy, PartialEq, Eq)]
pub struct OperatorKey {
    pub name: &'static str,
}

/// Errors returned by stream DSL operations.
#[derive(Debug, Clone, Copy, PartialEq, Eq)]
pub enum StreamDslError {
    /// Indicates an invalid argument at stream construction.
    InvalidArgument { name: &'static str, value: usize, reason: &'static str },
    /// Indicates an operator key outside of the compatibility catalog.
    UnsupportedOperator { key: OperatorKey },
}

/// The reason attached to a rejected zero argument.
pub open spec fn spec_positive_reason() -> &'static str {
    "must be greater than zero"
}

/// The error that `validate_positive_argument` reports for a zero argument.
pub open spec fn spec_zero_argument(name: &'static str) -> StreamDslError {
    StreamDslError::InvalidArgument { name, value: 0, reason: spec_positive_reason() }
}

/// Checks that a DSL argument is positive and returns it unchanged.
pub fn validate_positive_argument(name: &'static str, value: usize) -> (r: Result<usize, StreamDslError>)
    ensures
        value > 0 ==> r == Ok::<usize, StreamDslError>(value),
        value == 0 ==> r == Err::<usize, StreamDslError>(spec_zero_argument(name)),
{
    if value == 0 {
        Err(StreamDslError::InvalidArgument { name, value: 0, reason: "must be greater than zero" })
    } else {
        Ok(value)
    }
}

/// The decimal digit `d` as a character.
pub open spec fn digit_char(d: nat) -> char {
    if d == 0 { '0' } else if d == 1 { '1' } else if d == 2 { '2' } else if d == 3 { '3' } else if d == 4 { '4' }
    else if d == 5 { '5' } else if d == 6 { '6' } else if d == 7 { '7' } else if d == 8 { '8' } else { '9' }
}

/// The decimal digits of `n`, most significant first, without leading zeros.
pub open spec fn decimal(n: nat) -> Seq<char>
    decreases n,
{
    if n < 10 { seq![digit_char(n)] } else { decimal(n / 10) + seq![digit_char(n % 10)] }
}

/// The decimal text of a signed number: a minus sign before the digits of a negative one.
pub open spec fn signed_decimal(n: int) -> Seq<char> {
    if n < 0 { seq!['-'] + decimal((-n) as nat) } else { decimal(n as nat) }
}

/// The single digit `d` as a string.
fn digit_str(d: u64) -> (r: &'static str)
    requires d < 10,
    ensures r@ == seq![digit_char(d as nat)],
{
    proof {
        reveal_strlit("0"); reveal_strlit("1"); reveal_strlit("2"); reveal_strlit("3"); reveal_strlit("4");
        reveal_strlit("5"); reveal_strlit("6"); reveal_strlit("7"); reveal_strlit("8"); reveal_strlit("9");
    }
    if d == 0 { "0" } else if d == 1 { "1" } else if d == 2 { "2" } else if d == 3 { "3" } else if d == 4 { "4" }
    else if d == 5 { "5" } else if d == 6 { "6" } else if d == 7 { "7" } else if d == 8 { "8" } else { "9" }
}

/// Appends the decimal digits of `n` to `s`.
fn append_decimal(s: &mut String, n: u64)
    ensures final(s)@ == old(s)@ + decimal(n as nat),
    decreases n,
{
    if n >= 10 {
        append_decimal(s, n / 10);
    }
    let d = digit_str(n % 10);
    s.append(d);
    proof {
        if n < 10 {
            assert(old(s)@ + decimal(n as nat) =~= old(s)@ + seq![digit_char(n as nat)]);
        } else {
            assert(old(s)@ + decimal(n as nat) =~= old(s)@ + decimal((n / 10) as nat) + seq![digit_char((n % 10) as nat)]);
        }
    }
}

/// Appends the decimal text of the signed number `n` to `s`.
fn append_signed(s: &mut String, n: isize)
    ensures final(s)@ == old(s)@ + signed_decimal(n as int),
{
    if n < 0 {
        proof { reveal_strlit("-"); }
        s.append("-");
        let magnitude: u64 = if n == isize::MIN { (isize::MAX as u64) + 1 } else { (-n) as u64 };
        append_decimal(s, magnitude);
        proof {
            assert(old(s)@ + signed_decimal(n as int) =~= old(s)@ + seq!['-'] + decimal(magnitude as nat));
        }
    } else {
        append_decimal(s, n as u64);
    }
}

impl StreamError {
    /// The text that describes the error.
    pub open spec fn spec_message(self) -> Seq<char> {
        match self {
            StreamError::InvalidDemand { requested } => "invalid demand: "@ + decimal(requested as nat),
            StreamError::DemandExceeded { requested, remaining } =>
                "demand exceeded: requested="@ + decimal(requested as nat) + " remaining="@ + decimal(remaining as nat),
            StreamError::BufferOverflow => "stream buffer overflow"@,
            StreamError::MaterializerNotStarted => "materializer not started"@,
            StreamError::MaterializerAlreadyStarted => "materializer already started"@,
            StreamError::MaterializerStopped => "materializer stopped"@,
            StreamError::ActorSystemMissing => "actor system missing"@,
            StreamError::InvalidConnection => "invalid stream connection"@,
            StreamError::TypeMismatch => "stream type mismatch"@,
            StreamError::WouldBlock => "stream would block"@,
            StreamError::Failed => "stream failed"@,
            StreamError::InvalidRoute { route, partition_count } =>
                "invalid partition route: route="@ + signed_decimal(route as int) + " partition_count="@
                    + decimal(partition_count as nat),
            StreamError::SubstreamLimitExceeded { max_substreams } =>
                "substream limit exceeded: max_substreams="@ + decimal(max_substreams as nat),
            StreamError::Timeout { kind, ticks } => kind@ + " timeout after "@ + decimal(ticks as nat) + " ticks"@,
        }
    }

    /// The text that describes the error.
    pub fn message(&self) -> (r: String)
        ensures r@ == self.spec_message(),
    {
        match *self {
            StreamError::InvalidDemand { requested } => {
                let mut s = String::from_str("invalid demand: ");
                append_decimal(&mut s, requested);
                s
            },
            StreamError::DemandExceeded { requested, remaining } => {
                let mut s = String::from_str("demand exceeded: requested=");
                append_decimal(&mut s, requested);
                s.append(" remaining=");
                append_decimal(&mut s, remaining);
                s
            },
            StreamError::BufferOverflow => String::from_str("stream buffer overflow"),
            StreamError::MaterializerNotStarted => String::from_str("materializer not started"),
            StreamError::MaterializerAlreadyStarted => String::from_str("materializer already started"),
            StreamError::MaterializerStopped => String::from_str("materializer stopped"),
            StreamError::ActorSystemMissing => String::from_str("actor system missing"),
            StreamError::InvalidConnection => String::from_str("invalid stream connection"),
            StreamError::TypeMismatch => String::from_str("stream type mismatch"),
            StreamError::WouldBlock => String::from_str("stream would block"),
            StreamError::Failed => String::from_str("stream failed"),
            StreamError::InvalidRoute { route, partition_count } => {
                let mut s = String::from_str("invalid partition route: route=");
                append_signed(&mut s, route);
                s.append(" partition_count=");
                append_decimal(&mut s, partition_count as u64);
                s
            },
            StreamError::SubstreamLimitExceeded { max_substreams } => {
                let mut s = String::from_str("substream limit exceeded: max_substreams=");
                append_decimal(&mut s, max_substreams as u64);
                s
            },
            StreamError::Timeout { kind, ticks } => {
                let mut s = String::from_str(kind);
                s.append(" timeout after ");
                append_decimal(&mut s, ticks);
                s.append(" ticks");
                s
            },
        }
    }
}

} // verus!
