//! Materialized values: marker values, completion handles and combination rules.
use vstd::prelude::*;
use crate::error::StreamError;
use crate::body::StreamBody;
use crate::sink::SinkStage;

verus! {

/// Materialized value of stages that do not produce one.
#[derive(Debug, Clone, Copy, PartialEq, Eq, Default, Structural)]
pub struct StreamNotUsed {}

impl StreamNotUsed {
    /// Creates the marker value.
    pub fn new() -> (r: Self)
        ensures r == (StreamNotUsed {}),
    {
        StreamNotUsed {}
    }
}

/// Completion marker of a stream that produced no value.
#[derive(Debug, Clone, Copy, PartialEq, Eq, Default, Structural)]
pub struct StreamDone {}

impl StreamDone {
    /// Creates the marker value.
    pub fn new() -> (r: Self)
        ensures r == (StreamDone {}),
    {
        StreamDone {}
    }
}

/// How the materialized values of two connected parts combine on an edge.
#[derive(Debug, Clone, Copy, PartialEq, Eq, Structural)]
pub enum MatCombine {
    KeepLeft,
    KeepRight,
    KeepBoth,
    KeepNone,
}

/// The state of a completion handle.
#[derive(Debug, PartialEq, Eq)]
pub enum Completion<T> {
    /// The stream has not finished yet.
    Pending,
    /// The stream finished with the given result.
    Ready(Result<T, StreamError>),
}

/// The result a completion handle holds after completing it with `result` while it held `held`.
pub open spec fn completed_with<T>(held: Option<Result<T, StreamError>>, result: Result<T, StreamError>)
    -> Option<Result<T, StreamError>>
{
    if held is Some { held } else { Some(result) }
}

/// A completion handle keeps its first result: completing it again changes nothing, and a
/// pending handle completed twice holds the first result.
pub proof fn lemma_first_completion_wins<T>(held: Option<Result<T, StreamError>>, first: Result<T, StreamError>,
    second: Result<T, StreamError>)
    ensures
        completed_with(completed_with(held, first), second) == completed_with(held, first),
        held is None ==> completed_with(completed_with(held, first), second) == Some(first),
{
}

/// Handle used to observe stream completion; it holds at most one result.
#[derive(Debug)]
pub struct StreamCompletion<T> {
    result: Option<Result<T, StreamError>>,
}

impl<T> StreamCompletion<T> {
    /// The result held by this handle, if any.
    pub closed spec fn spec_result(self) -> Option<Result<T, StreamError>> {
        self.result
    }

    /// Creates a pending completion handle.
    pub fn new() -> (r: Self)
        ensures r.spec_result() is None,
    {
        StreamCompletion { result: None }
    }

    /// Creates a handle that already holds `result`.
    pub fn ready(result: Result<T, StreamError>) -> (r: Self)
        ensures r.spec_result() == Some(result),
    {
        StreamCompletion { result: Some(result) }
    }

    /// Records the result; a result that is already recorded is kept.
    pub fn complete(&mut self, result: Result<T, StreamError>)
        ensures
            final(self).spec_result() == completed_with(old(self).spec_result(), result),
            old(self).spec_result() is Some ==> final(self).spec_result() == old(self).spec_result(),
            old(self).spec_result() is None ==> final(self).spec_result() == Some(result),
    {
        if self.result.is_none() {
            self.result = Some(result);
        }
    }

    /// Takes the recorded result, leaving the handle pending.
    pub fn try_take(&mut self) -> (r: Option<Result<T, StreamError>>)
        ensures r == old(self).spec_result(), final(self).spec_result() is None,
    {
        self.result.take()
    }

    /// Whether a result has been recorded.
    pub fn is_ready(&self) -> (r: bool)
        ensures r == self.spec_result() is Some,
    {
        self.result.is_some()
    }
}

impl<T> StreamCompletion<T> {
    /// The completion state, consuming the handle.
    pub fn into_completion(self) -> (r: Completion<T>)
        ensures
            self.spec_result() is None ==> r == Completion::<T>::Pending,
            self.spec_result() matches Some(res) ==> r == Completion::<T>::Ready(res),
    {
        match self.result {
            Some(res) => Completion::Ready(res),
            None => Completion::Pending,
        }
    }
}

impl<T: Copy> StreamCompletion<T> {
    /// Polls the completion state without consuming the result.
    pub fn poll(&self) -> (r: Completion<T>)
        ensures
            self.spec_result() is None ==> r == Completion::<T>::Pending,
            self.spec_result() matches Some(res) ==> r == Completion::<T>::Ready(res),
    {
        match &self.result {
            Some(Ok(v)) => Completion::Ready(Ok(*v)),
            Some(Err(e)) => Completion::Ready(Err(*e)),
            None => Completion::Pending,
        }
    }
}

/// A rule that combines a left and a right materialized value.
pub trait MatCombineRule<L, R> {
    /// The combined materialized value type.
    type Out;

    /// The combined value.
    spec fn spec_combine(left: L, right: R) -> Self::Out;

    /// Combines the two values.
    fn combine(left: L, right: R) -> (out: Self::Out)
        ensures out == Self::spec_combine(left, right);
}

/// A combine rule that can settle the right part of a value it combined, where it keeps one.
pub trait SettleRight<L, R, In, K: SinkStage<In, R>>: MatCombineRule<L, R> {
    /// Whether `after` is `out` with its right part, where it keeps one, settled by `logic`
    /// consuming `input`; a combined value that dropped the right part stays as it is.
    spec fn right_settled(out: Self::Out, logic: K, input: StreamBody<In>, after: Self::Out) -> bool;

    /// Settles the right part of a combined value, where it keeps one, by running `logic` over `input`.
    fn settle_right(out: Self::Out, logic: K, input: StreamBody<In>) -> (after: Self::Out)
        requires logic.ready(),
        ensures Self::right_settled(out, logic, input, after);
}

/// Keeps the left materialized value.
#[derive(Debug, Clone, Copy, PartialEq, Eq, Default)]
pub struct KeepLeft;

/// Keeps the right materialized value.
#[derive(Debug, Clone, Copy, PartialEq, Eq, Default)]
pub struct KeepRight;

/// Keeps both materialized values as a pair.
#[derive(Debug, Clone, Copy, PartialEq, Eq, Default)]
pub struct KeepBoth;

/// Keeps neither materialized value.
#[derive(Debug, Clone, Copy, PartialEq, Eq, Default)]
pub struct KeepNone;

impl<L, R> MatCombineRule<L, R> for KeepLeft {
    type Out = L;

    open spec fn spec_combine(left: L, right: R) -> L {
        left
    }

    fn combine(left: L, right: R) -> (out: L) {
        left
    }
}

impl<L, R> MatCombineRule<L, R> for KeepRight {
    type Out = R;

    open spec fn spec_combine(left: L, right: R) -> R {
        right
    }

    fn combine(left: L, right: R) -> (out: R) {
        right
    }
}

impl<L, R> MatCombineRule<L, R> for KeepBoth {
    type Out = (L, R);

    open spec fn spec_combine(left: L, right: R) -> (L, R) {
        (left, right)
    }

    fn combine(left: L, right: R) -> (out: (L, R)) {
        (left, right)
    }
}

impl<L, R> MatCombineRule<L, R> for KeepNone {
    type Out = StreamNotUsed;

    open spec fn spec_combine(left: L, right: R) -> StreamNotUsed {
        StreamNotUsed {}
    }

    fn combine(left: L, right: R) -> (out: StreamNotUsed) {
        StreamNotUsed {}
    }
}

impl<L, R, In, K: SinkStage<In, R>> SettleRight<L, R, In, K> for KeepLeft {
    open spec fn right_settled(out: L, logic: K, input: StreamBody<In>, after: L) -> bool {
        after == out
    }

    fn settle_right(out: L, logic: K, input: StreamBody<In>) -> (after: L) {
        out
    }
}

impl<L, R, In, K: SinkStage<In, R>> SettleRight<L, R, In, K> for KeepRight {
    open spec fn right_settled(out: R, logic: K, input: StreamBody<In>, after: R) -> bool {
        logic.settles(input, out, after)
    }

    fn settle_right(out: R, logic: K, input: StreamBody<In>) -> (after: R) {
        logic.settle(input, out)
    }
}

impl<L, R, In, K: SinkStage<In, R>> SettleRight<L, R, In, K> for KeepBoth {
    open spec fn right_settled(out: (L, R), logic: K, input: StreamBody<In>, after: (L, R)) -> bool {
        after.0 == out.0 && logic.settles(input, out.1, after.1)
    }

    fn settle_right(out: (L, R), logic: K, input: StreamBody<In>) -> (after: (L, R)) {
        let (left, right) = out;
        (left, logic.settle(input, right))
    }
}

impl<L, R, In, K: SinkStage<In, R>> SettleRight<L, R, In, K> for KeepNone {
    open spec fn right_settled(out: StreamNotUsed, logic: K, input: StreamBody<In>, after: StreamNotUsed) -> bool {
        after == out
    }

    fn settle_right(out: StreamNotUsed, logic: K, input: StreamBody<In>) -> (after: StreamNotUsed) {
        out
    }
}

} // verus!
