//! What holds of a server at every moment, whatever the order of the
//! handshakes, tunnels and disconnections that it sees.

use crate::id::Id;
use crate::server::{Error, ServerView, UserView};
use vstd::multiset::Multiset;
use vstd::prelude::*;

verus! {

/// One change of a server's state.
pub ghost enum Step<C> {
    /// `add_user` with a user of this identifier and these port pairs.
    AddUser(u128, Seq<(i32, i32)>),
    /// `connect` with this identifier.
    Connect(Id),
    /// `disconnect` with this identifier.
    Disconnect(Id),
    /// `register_tunnel` or `open_tunnel` with this session and connection.
    Register(Id, C),
    /// `redeem` with this session.
    Redeem(Id),
}

impl<C> Step<C> {
    /// Whether the step leaves the configuration alone.
    pub open spec fn at_runtime(self) -> bool {
        !(self is AddUser)
    }
}

impl<C> ServerView<C> {
    /// Only configured users are online.
    pub open spec fn consistent(self) -> bool {
        self.online_users.subset_of(self.users.dom())
    }

    /// The port pairs that have a listener for `uuid` at this moment: all of
    /// the user's pairs while the user is online, none otherwise.
    pub open spec fn serving(self, uuid: u128) -> Seq<(i32, i32)> {
        if self.online_users.contains(uuid) && self.users.contains_key(uuid) {
            self.users[uuid]
        } else {
            Seq::empty()
        }
    }

    /// The connection that waits under `session` after a run of steps: the
    /// one that was registered last under it and not redeemed since.
    pub open spec fn waiting_after(self, steps: Seq<Step<C>>, session: u128) -> Option<C>
        decreases steps.len(),
    {
        if steps.len() == 0 {
            if self.waiting_tunnel.contains_key(session) {
                Some(self.waiting_tunnel[session])
            } else {
                None
            }
        } else {
            let before = self.waiting_after(steps.drop_last(), session);
            match steps.last() {
                Step::Register(id, connection) => if id@ == session {
                    Some(connection)
                } else {
                    before
                },
                Step::Redeem(id) => if id@ == session {
                    None
                } else {
                    before
                },
                _ => before,
            }
        }
    }

    /// The port pairs that listeners serve for `uuid` once admitted, each as
    /// often as it is configured, in no order.
    pub open spec fn listeners(self, uuid: u128) -> Multiset<(i32, i32)> {
        if self.users.contains_key(uuid) {
            self.users[uuid].to_multiset()
        } else {
            Multiset::empty()
        }
    }

    /// The state after one step.
    pub open spec fn step(self, step: Step<C>) -> ServerView<C> {
        match step {
            Step::AddUser(uuid, ports) => ServerView {
                users: self.users.insert(uuid, ports),
                ..self
            },
            Step::Connect(uuid) => self.admitted(uuid),
            Step::Disconnect(uuid) => self.disconnected(uuid),
            Step::Register(session, connection) => self.registered(session, connection),
            Step::Redeem(session) => self.redeemed(session),
        }
    }

    /// The state after the users of a configuration were added, in their
    /// order.
    pub open spec fn add_users(self, entries: Seq<UserView>) -> ServerView<C>
        decreases entries.len(),
    {
        if entries.len() == 0 {
            self
        } else {
            self.add_users(entries.drop_last()).step(
                Step::AddUser(entries.last().uuid, entries.last().ports),
            )
        }
    }

    /// The state after a run of steps.
    pub open spec fn run(self, steps: Seq<Step<C>>) -> ServerView<C>
        decreases steps.len(),
    {
        if steps.len() == 0 {
            self
        } else {
            self.run(steps.drop_last()).step(steps.last())
        }
    }

    /// How many control connections `uuid` holds after a run of steps: one
    /// more with each `connect` that is answered with `Ok`, one fewer with
    /// each `disconnect` of that user while online.
    pub open spec fn control_connections(self, steps: Seq<Step<C>>, uuid: u128) -> int
        decreases steps.len(),
    {
        if steps.len() == 0 {
            if self.online_users.contains(uuid) {
                1
            } else {
                0
            }
        } else {
            let before = self.run(steps.drop_last());
            let held = self.control_connections(steps.drop_last(), uuid);
            match steps.last() {
                Step::Connect(id) => if id@ == uuid && before.admission(id) is Ok {
                    held + 1
                } else {
                    held
                },
                Step::Disconnect(id) => if id@ == uuid && before.online_users.contains(uuid) {
                    held - 1
                } else {
                    held
                },
                _ => held,
            }
        }
    }
}

/// At every moment a user holds at most one control connection, and holds
/// one exactly while online.
pub proof fn lemma_at_most_one_control_connection<C>(
    start: ServerView<C>,
    steps: Seq<Step<C>>,
    uuid: u128,
)
    ensures
        0 <= start.control_connections(steps, uuid) <= 1,
        start.control_connections(steps, uuid) == 1 <==> start.run(steps).online_users.contains(
            uuid,
        ),
    decreases steps.len(),
{
    if steps.len() > 0 {
        lemma_at_most_one_control_connection(start, steps.drop_last(), uuid);
    }
}

/// Whatever happens, only configured users are online.
pub proof fn lemma_run_keeps_consistency<C>(start: ServerView<C>, steps: Seq<Step<C>>)
    requires
        start.consistent(),
    ensures
        start.run(steps).consistent(),
    decreases steps.len(),
{
    if steps.len() > 0 {
        lemma_run_keeps_consistency(start, steps.drop_last());
    }
}

/// The user table and the control port are fixed once the configuration is
/// done: no handshake, tunnel or disconnection changes them.
pub proof fn lemma_configuration_fixed_at_runtime<C>(start: ServerView<C>, steps: Seq<Step<C>>)
    requires
        forall|i: int| 0 <= i < steps.len() ==> (#[trigger] steps[i]).at_runtime(),
    ensures
        start.run(steps).users == start.users,
        start.run(steps).server_port == start.server_port,
    decreases steps.len(),
{
    if steps.len() > 0 {
        lemma_configuration_fixed_at_runtime(start, steps.drop_last());
    }
}

/// At every moment a session names at most one waiting connection: the one
/// registered last under it, until a dial-back has redeemed it. A dial-back
/// gets that connection and no other.
pub proof fn lemma_waiting_connection_is_latest_unredeemed<C>(
    start: ServerView<C>,
    steps: Seq<Step<C>>,
    session: Id,
)
    ensures
        start.run(steps).redemption(session) == match start.waiting_after(steps, session@) {
            Some(connection) => Ok::<C, Error>(connection),
            None => Err::<C, Error>(Error::UnknownSessionId(session)),
        },
    decreases steps.len(),
{
    if steps.len() > 0 {
        lemma_waiting_connection_is_latest_unredeemed(start, steps.drop_last(), session);
    }
}

/// A user's ports have listeners exactly while the user is online. An
/// admission puts listeners on all of the user's port pairs, the ones that
/// `connect` returns; a refused one, of an unknown user or of a duplicate,
/// adds none; and no admission touches another user's listeners.
pub proof fn lemma_listeners_follow_admission<C>(server: ServerView<C>, uuid: Id, other: u128)
    ensures
        server.admission(uuid) matches Ok(ports) ==> server.serving(uuid@).len() == 0
            && server.admitted(uuid).serving(uuid@) == ports,
        server.admission(uuid) is Err ==> server.admitted(uuid).serving(uuid@) == server.serving(
            uuid@,
        ),
        !server.users.contains_key(uuid@) ==> server.admitted(uuid).serving(uuid@).len() == 0,
        other != uuid@ ==> server.admitted(uuid).serving(other) == server.serving(other),
{
}

/// When a user's control connection has ended, none of the user's ports has
/// a listener, and the listeners of the other users stay.
pub proof fn lemma_listeners_gone_after_disconnect<C>(server: ServerView<C>, uuid: Id, other: u128)
    ensures
        server.disconnected(uuid).serving(uuid@).len() == 0,
        other != uuid@ ==> server.disconnected(uuid).serving(other) == server.serving(other),
{
}

/// While a user is online, a second control connection with the same
/// identifier is refused as a duplicate, and the refusal changes nothing:
/// the first connection stays online and the waiting tunnels stay.
pub proof fn lemma_duplicate_refused<C>(server: ServerView<C>, uuid: Id)
    requires
        server.admission(uuid) is Ok,
    ensures
        server.admitted(uuid).online_users.contains(uuid@),
        server.admitted(uuid).admission(uuid) == Err::<Seq<(i32, i32)>, Error>(
            Error::ConnectionDuplicate(uuid),
        ),
        server.admitted(uuid).admitted(uuid) == server.admitted(uuid),
{
}

/// Once a user's control connection has ended, the same identifier is
/// admitted again.
pub proof fn lemma_readmitted_after_disconnect<C>(server: ServerView<C>, uuid: Id)
    requires
        server.users.contains_key(uuid@),
    ensures
        server.disconnected(uuid).admission(uuid) == Ok::<Seq<(i32, i32)>, Error>(
            server.users[uuid@],
        ),
{
}

/// A refused handshake changes nothing: neither an unknown user, nor a
/// duplicate, nor an unknown session.
pub proof fn lemma_refusal_changes_nothing<C>(server: ServerView<C>, id: Id)
    ensures
        server.admission(id) is Err ==> server.admitted(id) == server,
        server.redemption(id) is Err ==> server.redeemed(id) == server,
{
    if server.redemption(id) is Err {
    }
}

/// A connection that waits under a session is handed to the first dial-back
/// that presents the session, and to no later one.
pub proof fn lemma_redeemed_once<C>(server: ServerView<C>, session: Id, connection: C)
    ensures
        server.registered(session, connection).redemption(session) == Ok::<C, Error>(connection),
        server.registered(session, connection).redeemed(session).redemption(session) == Err::<
            C,
            Error,
        >(Error::UnknownSessionId(session)),
{
}

/// Two tunnels with different sessions are paired independently: each
/// dial-back receives the connection that was registered under its own
/// session, in whatever order the two dial-backs arrive, and neither takes
/// the other's connection out of the table.
pub proof fn lemma_tunnels_paired_independently<C>(
    server: ServerView<C>,
    first: Id,
    first_connection: C,
    second: Id,
    second_connection: C,
)
    requires
        first@ != second@,
    ensures
        ({
            let both = server.registered(first, first_connection).registered(
                second,
                second_connection,
            );
            &&& both.redemption(first) == Ok::<C, Error>(first_connection)
            &&& both.redemption(second) == Ok::<C, Error>(second_connection)
            &&& both.redeemed(first).redemption(second) == Ok::<C, Error>(second_connection)
            &&& both.redeemed(second).redemption(first) == Ok::<C, Error>(first_connection)
            &&& both.redeemed(first).redeemed(second) == both.redeemed(second).redeemed(first)
        }),
{
}

/// The port pairs of the last entry of a configuration that names `uuid`.
pub open spec fn last_entry(entries: Seq<UserView>, uuid: u128) -> Option<Seq<(i32, i32)>>
    decreases entries.len(),
{
    if entries.len() == 0 {
        None
    } else if entries.last().uuid == uuid {
        Some(entries.last().ports)
    } else {
        last_entry(entries.drop_last(), uuid)
    }
}

/// The user table is a function of the configuration: each identifier that
/// the configuration names is filed with the port pairs of its last entry,
/// wherever the entries of other users stand, and nothing else changes.
pub proof fn lemma_user_table_of_configuration<C>(
    server: ServerView<C>,
    entries: Seq<UserView>,
    uuid: u128,
)
    ensures
        server.add_users(entries).server_port == server.server_port,
        server.add_users(entries).online_users == server.online_users,
        server.add_users(entries).waiting_tunnel == server.waiting_tunnel,
        match last_entry(entries, uuid) {
            Some(ports) => server.add_users(entries).users.contains_key(uuid)
                && server.add_users(entries).users[uuid] == ports,
            None => server.add_users(entries).users.contains_key(uuid)
                == server.users.contains_key(uuid) && (server.users.contains_key(uuid)
                ==> server.add_users(entries).users[uuid] == server.users[uuid]),
        },
    decreases entries.len(),
{
    if entries.len() > 0 {
        lemma_user_table_of_configuration(server, entries.drop_last(), uuid);
    }
}

/// The user table does not depend on the order in which users with
/// different identifiers were added.
pub proof fn lemma_users_added_in_any_order<C>(
    server: ServerView<C>,
    first: u128,
    first_ports: Seq<(i32, i32)>,
    second: u128,
    second_ports: Seq<(i32, i32)>,
)
    requires
        first != second,
    ensures
        server.step(Step::AddUser(first, first_ports)).step(Step::AddUser(second, second_ports))
            == server.step(Step::AddUser(second, second_ports)).step(
            Step::AddUser(first, first_ports),
        ),
{
}

/// Two port pairs added to a user in either order give the same ports to
/// listen on.
pub proof fn lemma_ports_added_in_any_order(
    ports: Seq<(i32, i32)>,
    first: (i32, i32),
    second: (i32, i32),
)
    ensures
        ports.push(first).push(second).to_multiset() == ports.push(second).push(
            first,
        ).to_multiset(),
{
    vstd::seq_lib::to_multiset_build(ports, first);
    vstd::seq_lib::to_multiset_build(ports, second);
    vstd::seq_lib::to_multiset_build(ports.push(first), second);
    vstd::seq_lib::to_multiset_build(ports.push(second), first);
}

/// The listeners of every user are the same for two configurations that
/// give a user the same port pairs in another order.
pub proof fn lemma_listeners_independent_of_port_order<C>(
    server: ServerView<C>,
    uuid: u128,
    ports: Seq<(i32, i32)>,
    reordered: Seq<(i32, i32)>,
    other: u128,
)
    requires
        ports.to_multiset() == reordered.to_multiset(),
    ensures
        server.step(Step::AddUser(uuid, ports)).listeners(other) == server.step(
            Step::AddUser(uuid, reordered),
        ).listeners(other),
{
}

} // verus!
