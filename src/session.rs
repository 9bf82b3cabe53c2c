use vstd::prelude::*;
use crate::container::{
    args_view, container_name_of, remove_args, remove_args_spec, run_args_spec, stop_args,
    stop_args_spec, SessionError,
};
use crate::types::opt_view;

verus! {

/// The WebDriver client of `fantoccini`, carried through opaque: nothing is assumed of it.
#[verifier::external_type_specification]
#[verifier::external_body]
pub struct ExClient(fantoccini::Client);

/// Where a session is in its life.
#[derive(Debug, Clone, Copy, PartialEq, Eq, Structural)]
pub enum SessionState {
    /// The client is connected; queries and downloads may run.
    Connected,
    /// Teardown has begun; it is never undone.
    Closing,
    /// The container has been stopped and removed, or the attempt has ended.
    Closed,
}

/// The commands that tear a session's container down, in order.
pub struct Teardown {
    /// Stops the container.
    pub stop: Vec<String>,
    /// Removes the container.
    pub remove: Vec<String>,
}

/// A browser session: a remote-control client connected to the driver that runs in
/// the session's own container.
pub struct Driver {
    client: fantoccini::Client,
    name: String,
    port: u16,
    state: SessionState,
}

impl Driver {
    /// The session's name.
    pub closed spec fn spec_name(&self) -> Seq<char> {
        self.name@
    }

    /// The port that the session's container publishes.
    pub closed spec fn spec_port(&self) -> u16 {
        self.port
    }

    /// Where the session is in its life.
    pub closed spec fn spec_state(&self) -> SessionState {
        self.state
    }

    /// The handle of a session whose container runs and whose client has connected.
    pub fn connected(client: fantoccini::Client, name: String, port: u16) -> (r: Driver)
        ensures
            r.spec_name() == name@,
            r.spec_port() == port,
            r.spec_state() == SessionState::Connected,
    {
        Driver { client, name, port, state: SessionState::Connected }
    }

    /// The session's name.
    pub fn name(&self) -> (r: &str)
        ensures
            r@ == self.spec_name(),
    {
        self.name.as_str()
    }

    /// The port that the session's container publishes.
    pub fn port(&self) -> (r: u16)
        ensures
            r == self.spec_port(),
    {
        self.port
    }

    /// Where the session is in its life.
    pub fn state(&self) -> (r: SessionState)
        ensures
            r == self.spec_state(),
    {
        self.state
    }

    /// The remote-control client of the session.
    pub fn client(&self) -> &fantoccini::Client {
        &self.client
    }

    /// Begins teardown. The first call on a connected session moves it to `Closing` and
    /// returns the commands that stop and remove its container; every later call
    /// returns nothing and changes nothing, so teardown is issued once per session.
    pub fn begin_close(&mut self) -> (r: Option<Teardown>)
        ensures
            final(self).spec_name() == old(self).spec_name(),
            final(self).spec_port() == old(self).spec_port(),
            old(self).spec_state() == SessionState::Connected ==> {
                &&& final(self).spec_state() == SessionState::Closing
                &&& r is Some
                &&& args_view(r->0.stop@) == stop_args_spec(old(self).spec_name())
                &&& args_view(r->0.remove@) == remove_args_spec(old(self).spec_name())
            },
            old(self).spec_state() != SessionState::Connected ==> {
                &&& final(self).spec_state() == old(self).spec_state()
                &&& r is None
            },
    {
        match self.state {
            SessionState::Connected => {
                self.state = SessionState::Closing;
                Some(Teardown { stop: stop_args(self.name.as_str()), remove: remove_args(self.name.as_str()) })
            },
            _ => None,
        }
    }

    /// Ends teardown once the stop and remove commands have run. A failed command is
    /// reported as `TeardownFailure`; the session is closed either way.
    pub fn finish_close(&mut self, stopped: bool, removed: bool) -> (r: Result<(), SessionError>)
        ensures
            final(self).spec_name() == old(self).spec_name(),
            final(self).spec_port() == old(self).spec_port(),
            old(self).spec_state() == SessionState::Closing ==> final(self).spec_state()
                == SessionState::Closed,
            old(self).spec_state() != SessionState::Closing ==> final(self).spec_state() == old(
                self,
            ).spec_state(),
            r is Ok <==> (stopped && removed) || old(self).spec_state() != SessionState::Closing,
            r is Err ==> r == Err::<(), SessionError>(SessionError::TeardownFailure),
    {
        match self.state {
            SessionState::Closing => {
                self.state = SessionState::Closed;
                if stopped && removed {
                    Ok(())
                } else {
                    Err(SessionError::TeardownFailure)
                }
            },
            _ => Ok(()),
        }
    }
}

/// The teardown of a session stops and removes the very container that its launch
/// started: the name that the run command gives the container is the one that the
/// stop and remove commands name.
pub proof fn lemma_teardown_targets_launched_container(name: Seq<char>, port: u16)
    ensures
        run_args_spec(name, port)[4] == container_name_of(name),
        stop_args_spec(name) == seq!["stop"@, container_name_of(name)],
        remove_args_spec(name) == seq!["rm"@, container_name_of(name)],
{
}

/// Sessions with different names run in containers with different names.
pub proof fn lemma_container_names_distinct(a: Seq<char>, b: Seq<char>)
    requires
        a != b,
    ensures
        container_name_of(a) != container_name_of(b),
{
    let p = crate::container::CONTAINER_PREFIX@;
    if container_name_of(a) == container_name_of(b) {
        assert(a =~= container_name_of(a).subrange(p.len() as int, container_name_of(a).len() as int));
        assert(b =~= container_name_of(b).subrange(p.len() as int, container_name_of(b).len() as int));
    }
}

/// The link that a download fetches: the override where one is given, else the
/// element's link attribute.
pub open spec fn download_link_of(
    override_link: Option<Seq<char>>,
    attribute: Option<Seq<char>>,
) -> Option<Seq<char>> {
    match override_link {
        Some(o) => Some(o),
        None => attribute,
    }
}

/// Whether a download must read the element's link attribute: only where no override
/// link is given.
pub fn needs_link_attribute(override_link: &Option<String>) -> (r: bool)
    ensures
        r == override_link.is_none(),
{
    override_link.is_none()
}

/// The link that a download fetches: the override where one is given, whatever the
/// attribute holds; else the element's link attribute, failing with `AttributeMissing`
/// where the element has none.
pub fn download_link(override_link: Option<String>, attribute: Option<String>) -> (r: Result<
    String,
    SessionError,
>)
    ensures
        match download_link_of(opt_view(override_link), opt_view(attribute)) {
            Some(l) => r is Ok && r->Ok_0@ == l,
            None => r == Err::<String, SessionError>(SessionError::AttributeMissing),
        },
        override_link is Some ==> r is Ok && r->Ok_0 == override_link->0,
{
    match override_link {
        Some(o) => Ok(o),
        None => match attribute {
            Some(a) => Ok(a),
            None => Err(SessionError::AttributeMissing),
        },
    }
}

/// Appends one data frame of a response body to the bytes received so far.
pub fn append_frame(body: &mut Vec<u8>, data: &[u8])
    ensures
        final(body)@ == old(body)@ + data@,
{
    let mut i: usize = 0;
    while i < data.len()
        invariant
            i <= data@.len(),
            body@ == old(body)@ + data@.subrange(0, i as int),
        decreases data@.len() - i,
    {
        body.push(data[i]);
        i = i + 1;
        assert(body@ =~= old(body)@ + data@.subrange(0, i as int));
    }
    assert(data@.subrange(0, data@.len() as int) =~= data@);
}

} // verus!
