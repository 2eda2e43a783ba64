//! A deterministic stand-in for an adapter: it spawns no process, answers
//! from what it was told to answer, and records how it was used.

use crate::integrations::error::{ErrorView, IntegrationError, IntegrationResult};
use crate::integrations::subprocess::output_view;
use crate::text::{copy_lines, lines, owned_texts, texts};
use vstd::prelude::*;
use vstd::string::*;

verus! {

/// Mock adapter for testing Dashboard components without real CLI tools.
///
/// `MockAdapter` allows tests to control what `call()` returns, to simulate
/// errors and failures, to verify that methods were called with the expected
/// arguments, and to replay predefined lines through `subscribe()`.
pub struct MockAdapter {
    name: String,
    /// Response to return from `call()`.
    call_response: IntegrationResult<String>,
    /// Lines to replay from `subscribe()`.
    subscribe_lines: Vec<String>,
    /// Whether to simulate being healthy.
    is_healthy: bool,
    /// Count of `call()` invocations.
    call_count: usize,
    /// Count of `subscribe()` invocations.
    subscribe_count: usize,
    /// Count of `stop()` invocations.
    stop_count: usize,
    /// Last arguments passed to `call()`.
    last_call_args: Vec<String>,
    /// Last arguments passed to `subscribe()`.
    last_subscribe_args: Vec<String>,
}

/// What a [`MockAdapter`] holds, as plain values.
pub ghost struct MockState {
    pub name: Seq<char>,
    pub call_response: Result<Seq<char>, ErrorView>,
    pub subscribe_lines: Seq<Seq<char>>,
    pub healthy: bool,
    pub call_count: usize,
    pub subscribe_count: usize,
    pub stop_count: usize,
    pub last_call_args: Seq<Seq<char>>,
    pub last_subscribe_args: Seq<Seq<char>>,
}

/// The count after one more invocation. A count that has reached the largest
/// value starts over at zero.
pub open spec fn counted(count: usize) -> usize {
    if count == usize::MAX {
        0
    } else {
        (count + 1) as usize
    }
}

impl MockState {
    /// The state after a stop: unhealthy, with the stop counted.
    pub open spec fn stopped(self) -> MockState {
        MockState { healthy: false, stop_count: counted(self.stop_count), ..self }
    }
}

impl View for MockAdapter {
    type V = MockState;

    closed spec fn view(&self) -> MockState {
        MockState {
            name: self.name@,
            call_response: output_view(self.call_response),
            subscribe_lines: lines(self.subscribe_lines@),
            healthy: self.is_healthy,
            call_count: self.call_count,
            subscribe_count: self.subscribe_count,
            stop_count: self.stop_count,
            last_call_args: lines(self.last_call_args@),
            last_subscribe_args: lines(self.last_subscribe_args@),
        }
    }
}

/// One more invocation.
fn count_up(count: usize) -> (next: usize)
    ensures
        next == counted(count),
{
    if count == usize::MAX {
        0
    } else {
        count + 1
    }
}

impl MockAdapter {
    /// Create a new mock adapter named `name`: healthy, never used, with an
    /// empty successful response and no lines.
    pub fn new(name: &str) -> (mock: Self)
        ensures
            mock@ == (MockState {
                name: name@,
                call_response: Ok(Seq::<char>::empty()),
                subscribe_lines: Seq::<Seq<char>>::empty(),
                healthy: true,
                call_count: 0,
                subscribe_count: 0,
                stop_count: 0,
                last_call_args: Seq::<Seq<char>>::empty(),
                last_subscribe_args: Seq::<Seq<char>>::empty(),
            }),
    {
        let mock = MockAdapter {
            name: String::from_str(name),
            call_response: Ok(String::new()),
            subscribe_lines: Vec::new(),
            is_healthy: true,
            call_count: 0,
            subscribe_count: 0,
            stop_count: 0,
            last_call_args: Vec::new(),
            last_subscribe_args: Vec::new(),
        };
        assert(lines(mock.subscribe_lines@) =~= Seq::<Seq<char>>::empty());
        assert(lines(mock.last_call_args@) =~= Seq::<Seq<char>>::empty());
        assert(lines(mock.last_subscribe_args@) =~= Seq::<Seq<char>>::empty());
        mock
    }

    /// Set the response that `call()` will return.
    pub fn set_call_response(&mut self, response: IntegrationResult<String>)
        ensures
            final(self)@ == (MockState { call_response: output_view(response), ..old(self)@ }),
    {
        self.call_response = response;
    }

    /// Set predefined lines for `subscribe()` to replay.
    pub fn set_subscribe_lines(&mut self, lines: Vec<String>)
        ensures
            final(self)@ == (MockState {
                subscribe_lines: crate::text::lines(lines@),
                ..old(self)@
            }),
    {
        self.subscribe_lines = lines;
    }

    /// Set whether `is_healthy()` returns true.
    pub fn set_healthy(&mut self, healthy: bool)
        ensures
            final(self)@ == (MockState { healthy, ..old(self)@ }),
    {
        self.is_healthy = healthy;
    }

    /// Get the number of times `call()` was invoked.
    pub fn call_count(&self) -> (count: usize)
        ensures
            count == self@.call_count,
    {
        self.call_count
    }

    /// Get the number of times `subscribe()` was invoked.
    pub fn subscribe_count(&self) -> (count: usize)
        ensures
            count == self@.subscribe_count,
    {
        self.subscribe_count
    }

    /// Get the number of times `stop()` was invoked.
    pub fn stop_count(&self) -> (count: usize)
        ensures
            count == self@.stop_count,
    {
        self.stop_count
    }

    /// Get the last arguments passed to `call()`.
    pub fn last_call_args(&self) -> (args: Vec<String>)
        ensures
            lines(args@) == self@.last_call_args,
    {
        copy_lines(&self.last_call_args)
    }

    /// Get the last arguments passed to `subscribe()`.
    pub fn last_subscribe_args(&self) -> (args: Vec<String>)
        ensures
            lines(args@) == self@.last_subscribe_args,
    {
        copy_lines(&self.last_subscribe_args)
    }

    /// Reset all counters and recorded arguments. The configured response,
    /// the lines and the health flag stay.
    pub fn reset(&mut self)
        ensures
            final(self)@ == (MockState {
                call_count: 0,
                subscribe_count: 0,
                stop_count: 0,
                last_call_args: Seq::<Seq<char>>::empty(),
                last_subscribe_args: Seq::<Seq<char>>::empty(),
                ..old(self)@
            }),
    {
        self.call_count = 0;
        self.subscribe_count = 0;
        self.stop_count = 0;
        self.last_call_args = Vec::new();
        self.last_subscribe_args = Vec::new();
        assert(lines(self.last_call_args@) =~= Seq::<Seq<char>>::empty());
        assert(lines(self.last_subscribe_args@) =~= Seq::<Seq<char>>::empty());
    }

    /// A one-shot call: records the invocation and its arguments and returns
    /// a copy of the configured response.
    pub fn call(&mut self, args: &[&str]) -> (result: IntegrationResult<String>)
        ensures
            output_view(result) == old(self)@.call_response,
            final(self)@ == (MockState {
                call_count: counted(old(self)@.call_count),
                last_call_args: texts(args@),
                ..old(self)@
            }),
    {
        self.call_count = count_up(self.call_count);
        self.last_call_args = owned_texts(args);
        match &self.call_response {
            Ok(s) => Ok(s.clone()),
            Err(e) => Err(e.duplicate()),
        }
    }

    /// A subscription: records the invocation and its arguments and returns
    /// the configured lines, in order, for replay to the consumer.
    pub fn subscribe(&mut self, args: &[&str]) -> (result: IntegrationResult<Vec<String>>)
        ensures
            result matches Ok(replay) && lines(replay@) == old(self)@.subscribe_lines,
            final(self)@ == (MockState {
                subscribe_count: counted(old(self)@.subscribe_count),
                last_subscribe_args: texts(args@),
                ..old(self)@
            }),
    {
        self.subscribe_count = count_up(self.subscribe_count);
        self.last_subscribe_args = owned_texts(args);
        Ok(copy_lines(&self.subscribe_lines))
    }

    /// A stop: records the invocation, turns the adapter unhealthy and
    /// succeeds, however often it is called.
    pub fn stop(&mut self) -> (result: IntegrationResult<()>)
        ensures
            result is Ok,
            final(self)@ == old(self)@.stopped(),
    {
        self.stop_count = count_up(self.stop_count);
        self.is_healthy = false;
        Ok(())
    }

    /// Whether the adapter simulates being healthy.
    pub fn is_healthy(&self) -> (healthy: bool)
        ensures
            healthy == self@.healthy,
    {
        self.is_healthy
    }

    /// The name of this adapter.
    pub fn name(&self) -> (name: &str)
        ensures
            name@ == self@.name,
    {
        self.name.as_str()
    }
}

/// Stopping a mock twice leaves it unhealthy after either stop and as the
/// first stop left it, but for the count of stops.
pub proof fn lemma_mock_stop_twice(before: MockState)
    ensures
        !before.stopped().healthy,
        !before.stopped().stopped().healthy,
        before.stopped().stopped() == (MockState {
            stop_count: counted(counted(before.stop_count)),
            ..before.stopped()
        }),
{
}

} // verus!
