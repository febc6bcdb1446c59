//! The connection-manager client: manager, enumerator, and connection.
//!
//! The platform's connection manager hands out reference-counted objects
//! behind vtables; this module models them with plain values so that the
//! protocols around them — enumeration with its sentinel completion
//! codes, property-snapshot production, and the connect/disconnect state
//! changes — are stated and proved. Each model carries the outcome the
//! native call would report, so the logic above is verified for every
//! behaviour the platform may show. The native vtable calls themselves
//! live outside the library.

use crate::hresult::{HResult, S_FALSE, S_OK};
use crate::properties::NetConProperties;
use vstd::prelude::*;

verus! {

/// What one fetch from the native enumerator means.
#[derive(Debug, Clone, Copy, PartialEq, Eq, Structural)]
pub enum FetchInterpretation {
    /// A connection was fetched.
    Item,
    /// The sequence is exhausted; no item was fetched.
    Exhausted,
    /// The fetch failed with a platform status code.
    Failed(HResult),
}

/// The reading of the enumerator protocol's raw outcome: a status code
/// together with the items-fetched count. Plain success with zero items
/// and the dedicated no-more-items code both mean "exhausted"; plain
/// success with an item means "item"; every other code is a hard error.
pub open spec fn spec_interpret_fetch(code: i32, fetched: u32) -> FetchInterpretation {
    if code == S_OK && fetched == 0 {
        FetchInterpretation::Exhausted
    } else if code == S_OK {
        FetchInterpretation::Item
    } else if code == S_FALSE {
        FetchInterpretation::Exhausted
    } else {
        FetchInterpretation::Failed(HResult { code })
    }
}

/// Interpret the raw outcome of one fetch from the native enumerator.
///
/// The two completion signals — a zero-count plain success and the
/// dedicated no-more-items code — are both read as "exhausted", never as
/// an error; any other non-`S_OK` code is a failure.
pub fn interpret_fetch(code: i32, fetched: u32) -> (r: FetchInterpretation)
    ensures
        r == spec_interpret_fetch(code, fetched),
{
    if code == S_OK && fetched == 0 {
        FetchInterpretation::Exhausted
    } else if code == S_OK {
        FetchInterpretation::Item
    } else if code == S_FALSE {
        FetchInterpretation::Exhausted
    } else {
        FetchInterpretation::Failed(HResult::from_code(code))
    }
}

/// One network connection.
///
/// `properties` is the connection's current state, snapshotted by
/// `get_properties`. The three outcome fields hold what the native calls
/// against this connection report: `None` for success, or the failing
/// status code.
#[derive(Debug)]
pub struct NetConnection {
    /// The connection's current properties.
    pub properties: NetConProperties,
    /// What fetching a property snapshot reports.
    pub get_properties_outcome: Option<HResult>,
    /// What a connect request reports.
    pub connect_outcome: Option<HResult>,
    /// What a disconnect request reports.
    pub disconnect_outcome: Option<HResult>,
}

impl NetConnection {
    /// The property snapshot this connection hands out on success: its
    /// current property values in a fresh, live allocation.
    pub open spec fn spec_snapshot(&self) -> NetConProperties {
        self.properties.spec_fresh_copy()
    }

    /// What `get_properties` returns: a fresh snapshot, or the platform
    /// error the native call reports.
    pub open spec fn spec_get_properties(&self) -> Result<NetConProperties, HResult> {
        match self.get_properties_outcome {
            Some(e) => Err(e),
            None => Ok(self.spec_snapshot()),
        }
    }

    /// A connection whose native calls all succeed, with the given
    /// current properties.
    pub fn new(properties: NetConProperties) -> (r: NetConnection)
        ensures
            r.properties == properties,
            r.get_properties_outcome is None,
            r.connect_outcome is None,
            r.disconnect_outcome is None,
    {
        NetConnection {
            properties,
            get_properties_outcome: Option::None,
            connect_outcome: Option::None,
            disconnect_outcome: Option::None,
        }
    }

    /// A second handle to the same connection, as the native layer's
    /// reference counting provides.
    pub fn duplicate(&self) -> (r: NetConnection)
        ensures
            r == *self,
    {
        NetConnection {
            properties: self.properties.duplicate(),
            get_properties_outcome: self.get_properties_outcome,
            connect_outcome: self.connect_outcome,
            disconnect_outcome: self.disconnect_outcome,
        }
    }

    /// Fetch a fresh, independently owned property snapshot of this
    /// connection's state at call time, or the platform error the native
    /// call reports. Repeated calls each allocate their own snapshot.
    pub fn get_properties(&self) -> (r: Result<NetConProperties, HResult>)
        ensures
            r == self.spec_get_properties(),
            r is Ok ==> r->Ok_0.live(),
    {
        match self.get_properties_outcome {
            Option::Some(e) => Err(e),
            Option::None => Ok(self.properties.duplicate_as_fresh()),
        }
    }

    /// Issue one synchronous connect request: a no-op on an
    /// already-connected connection. Succeeds or reports the platform
    /// error; the native call may block for seconds.
    pub fn connect(&self) -> (r: Result<(), HResult>)
        ensures
            r == match self.connect_outcome {
                Option::Some(e) => Result::<(), HResult>::Err(e),
                Option::None => Result::<(), HResult>::Ok(()),
            },
    {
        match self.connect_outcome {
            Option::Some(e) => Err(e),
            Option::None => Ok(()),
        }
    }

    /// Issue one synchronous disconnect request. Succeeds or reports the
    /// platform error; the native call may block for seconds.
    pub fn disconnect(&self) -> (r: Result<(), HResult>)
        ensures
            r == match self.disconnect_outcome {
                Option::Some(e) => Result::<(), HResult>::Err(e),
                Option::None => Result::<(), HResult>::Ok(()),
            },
    {
        match self.disconnect_outcome {
            Option::Some(e) => Err(e),
            Option::None => Ok(()),
        }
    }
}

/// A forward-only cursor over the manager's connection set as it stood
/// when the enumerator was produced.
///
/// `exhaustion_code_is_s_false` records which of the two interchangeable
/// completion codes the platform uses to signal the end; the cursor's
/// observable behaviour is proved independent of that choice.
#[derive(Debug)]
pub struct EnumNetConnection {
    /// The connection set being enumerated.
    pub connections: Vec<NetConnection>,
    /// How many connections have been passed.
    pub cursor: usize,
    /// Whether exhaustion is signalled with the dedicated no-more-items
    /// code rather than a zero-count plain success.
    pub exhaustion_code_is_s_false: bool,
}

impl EnumNetConnection {
    /// The cursor never stands past the end of the connection set.
    pub open spec fn wf(&self) -> bool {
        self.cursor <= self.connections@.len()
    }

    /// What the next fetch returns: the connection under the cursor, or
    /// nothing when the set is exhausted.
    pub open spec fn spec_next_item(&self) -> Option<NetConnection> {
        if self.cursor < self.connections@.len() {
            Some(self.connections@[self.cursor as int])
        } else {
            None
        }
    }

    /// Where the cursor stands after one fetch.
    pub open spec fn spec_next_cursor(&self) -> int {
        if self.cursor < self.connections@.len() {
            self.cursor + 1
        } else {
            self.cursor as int
        }
    }

    /// Fetch the next connection: the one under the cursor, or "no more
    /// items" once the set is exhausted.
    ///
    /// The underlying protocol reports a status code and an
    /// items-fetched count; both ways the platform may signal exhaustion
    /// are read identically, so the result does not depend on which one
    /// it chose.
    pub fn next_connection(&mut self) -> (r: Result<Option<NetConnection>, HResult>)
        requires
            old(self).wf(),
        ensures
            final(self).wf(),
            final(self).connections == old(self).connections,
            final(self).exhaustion_code_is_s_false == old(self).exhaustion_code_is_s_false,
            r == Result::<Option<NetConnection>, HResult>::Ok(old(self).spec_next_item()),
            final(self).cursor == old(self).spec_next_cursor(),
    {
        let (code, fetched): (i32, u32) = if self.cursor < self.connections.len() {
            (S_OK, 1)
        } else if self.exhaustion_code_is_s_false {
            (S_FALSE, 0)
        } else {
            (S_OK, 0)
        };
        match interpret_fetch(code, fetched) {
            FetchInterpretation::Item => {
                let c = self.connections[self.cursor].duplicate();
                self.cursor = self.cursor + 1;
                Ok(Some(c))
            },
            FetchInterpretation::Exhausted => Ok(None),
            FetchInterpretation::Failed(e) => Err(e),
        }
    }

    /// Pass over up to `n` connections without materializing them.
    pub fn skip_connection(&mut self, n: u32) -> (r: Result<(), HResult>)
        requires
            old(self).wf(),
        ensures
            final(self).wf(),
            final(self).connections == old(self).connections,
            final(self).exhaustion_code_is_s_false == old(self).exhaustion_code_is_s_false,
            r is Ok,
            final(self).cursor == if old(self).cursor + n <= old(self).connections@.len() {
                old(self).cursor + n
            } else {
                old(self).connections@.len() as int
            },
    {
        let remaining = self.connections.len() - self.cursor;
        if (n as usize) <= remaining {
            self.cursor = self.cursor + n as usize;
        } else {
            self.cursor = self.connections.len();
        }
        Ok(())
    }

    /// Rewind the cursor to the start of the connection set.
    pub fn reset(&mut self) -> (r: Result<(), HResult>)
        requires
            old(self).wf(),
        ensures
            final(self).wf(),
            final(self).connections == old(self).connections,
            final(self).exhaustion_code_is_s_false == old(self).exhaustion_code_is_s_false,
            r is Ok,
            final(self).cursor == 0,
    {
        self.cursor = 0;
        Ok(())
    }
}

/// The item the `k`-th fetch of a fresh enumerator over `connections`
/// returns, counting from zero: the `k`-th connection while any remain,
/// then "no more items" forever.
pub open spec fn spec_advance_outcome(connections: Seq<NetConnection>, k: int) -> Option<
    NetConnection,
> {
    if 0 <= k < connections.len() {
        Some(connections[k])
    } else {
        None
    }
}

/// The outcomes of `count` successive fetches from a fresh enumerator
/// over `connections`, oldest first.
pub open spec fn spec_advance_outcomes(connections: Seq<NetConnection>, count: int) -> Seq<
    Option<NetConnection>,
>
    decreases count,
{
    if count <= 0 {
        Seq::empty()
    } else {
        spec_advance_outcomes(connections, count - 1).push(
            spec_advance_outcome(connections, count - 1),
        )
    }
}

proof fn lemma_advance_outcomes_pointwise(connections: Seq<NetConnection>, count: int)
    requires
        count >= 0,
    ensures
        spec_advance_outcomes(connections, count).len() == count,
        forall|k: int| #![trigger spec_advance_outcomes(connections, count)[k]]
            0 <= k < count ==> spec_advance_outcomes(connections, count)[k]
                == spec_advance_outcome(connections, k),
    decreases count,
{
    if count > 0 {
        lemma_advance_outcomes_pointwise(connections, count - 1);
        assert forall|k: int|
            0 <= k < count implies spec_advance_outcomes(connections, count)[k]
            == spec_advance_outcome(connections, k) by {
            if k < count - 1 {
                assert(spec_advance_outcomes(connections, count)[k] == spec_advance_outcomes(
                    connections,
                    count - 1,
                )[k]);
            }
        }
    }
}

/// An enumerator over `n` connections, advanced `n + 1` times from the
/// start, yields its `n` connections in order and then exactly one "no
/// more items" — and none of those outcomes depends on which completion
/// code the platform uses to signal exhaustion, since no outcome reads
/// `exhaustion_code_is_s_false` at all.
pub proof fn lemma_enumerator_yields_each_connection_then_exhaustion(
    connections: Seq<NetConnection>,
)
    ensures
        ({
            let outcomes = spec_advance_outcomes(connections, connections.len() as int + 1);
            &&& outcomes.len() == connections.len() as int + 1
            &&& forall|k: int| #![trigger outcomes[k]]
                0 <= k < connections.len() ==> outcomes[k] == Some(connections[k])
            &&& outcomes[connections.len() as int] is None
        }),
{
    lemma_advance_outcomes_pointwise(connections, connections.len() as int + 1);
    let outcomes = spec_advance_outcomes(connections, connections.len() as int + 1);
    assert forall|k: int| 0 <= k < connections.len() implies outcomes[k] == Some(
        connections[k],
    ) by {
        assert(outcomes[k] == spec_advance_outcome(connections, k));
    }
    assert(outcomes[connections.len() as int] == spec_advance_outcome(
        connections,
        connections.len() as int,
    ));
}

/// Successive fetches walk the cursor forward one connection at a time:
/// a well-formed enumerator whose cursor stands at `k` returns exactly
/// `spec_advance_outcome` for position `k` and moves to `k + 1` while
/// connections remain. Together with `next_connection`'s contract this
/// pins the whole fetch sequence.
pub proof fn lemma_next_matches_advance_outcome(e: EnumNetConnection)
    requires
        e.wf(),
    ensures
        e.spec_next_item() == spec_advance_outcome(e.connections@, e.cursor as int),
        e.cursor < e.connections@.len() ==> e.spec_next_cursor() == e.cursor + 1,
        e.cursor >= e.connections@.len() ==> e.spec_next_cursor() == e.cursor as int,
{
}

/// Which completion code the platform uses to signal exhaustion is
/// unobservable: two enumerators over the same connection set with
/// their cursors at the same position — whatever their exhaustion
/// codes — produce the same fetch outcome and move to the same place.
pub proof fn lemma_outcomes_independent_of_exhaustion_code(
    a: EnumNetConnection,
    b: EnumNetConnection,
)
    requires
        a.connections@ == b.connections@,
        a.cursor == b.cursor,
    ensures
        a.spec_next_item() == b.spec_next_item(),
        a.spec_next_cursor() == b.spec_next_cursor(),
{
}

/// The manager of the platform's network connections.
///
/// One native manager instance is created per worker-thread lifetime;
/// this model holds the connection set it would enumerate, and the
/// outcome the native enumeration request reports.
#[derive(Debug)]
pub struct NetConnectionManager {
    /// The connections the manager knows.
    pub connections: Vec<NetConnection>,
    /// What requesting an enumerator reports: `None` for success, or the
    /// failing status code.
    pub enum_connections_outcome: Option<HResult>,
    /// Whether enumerators signal exhaustion with the dedicated
    /// no-more-items code.
    pub exhaustion_code_is_s_false: bool,
}

impl NetConnectionManager {
    /// A manager over the given connections whose native calls succeed.
    pub fn new(connections: Vec<NetConnection>) -> (r: NetConnectionManager)
        ensures
            r.connections == connections,
            r.enum_connections_outcome is None,
            r.exhaustion_code_is_s_false == true,
    {
        NetConnectionManager {
            connections,
            enum_connections_outcome: Option::None,
            exhaustion_code_is_s_false: true,
        }
    }

    /// Request a fresh enumerator positioned before the first
    /// connection, or the platform error the native call reports.
    pub fn iter(&self) -> (r: Result<EnumNetConnection, HResult>)
        ensures
            match self.enum_connections_outcome {
                Some(e) => r == Result::<EnumNetConnection, HResult>::Err(e),
                None => {
                    &&& r is Ok
                    &&& r->Ok_0.connections@ == self.connections@
                    &&& r->Ok_0.cursor == 0
                    &&& r->Ok_0.exhaustion_code_is_s_false == self.exhaustion_code_is_s_false
                    &&& r->Ok_0.wf()
                },
            },
    {
        match self.enum_connections_outcome {
            Option::Some(e) => Err(e),
            Option::None => {
                let mut copied: Vec<NetConnection> = Vec::new();
                let mut i: usize = 0;
                let n = self.connections.len();
                while i < n
                    invariant
                        n == self.connections@.len(),
                        i <= n,
                        copied@ == self.connections@.subrange(0, i as int),
                    decreases n - i,
                {
                    copied.push(self.connections[i].duplicate());
                    proof {
                        assert(copied@ =~= self.connections@.subrange(0, i + 1 as int));
                    }
                    i = i + 1;
                }
                proof {
                    assert(copied@ =~= self.connections@);
                }
                Ok(
                    EnumNetConnection {
                        connections: copied,
                        cursor: 0,
                        exhaustion_code_is_s_false: self.exhaustion_code_is_s_false,
                    },
                )
            },
        }
    }
}

} // verus!
