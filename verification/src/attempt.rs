//! One attempt to connect, as a state machine. The attempt says what is to
//! be done next; whoever drives it does that and reports what happened.

use vstd::prelude::*;
use crate::driver::{driver_address, DriverConfig, DriverConfigView, Encryption};
use crate::error::{ConnectError, ConnectErrorView};

verus! {

/// Where an attempt stands, as mathematical values.
pub enum PhaseView {
    Opening,
    Handshaking,
    Connected,
    Failed(ConnectErrorView),
}

/// Where an attempt stands.
#[derive(Debug, PartialEq, Eq)]
pub enum Phase {
    /// The socket is being opened.
    Opening,
    /// The socket is open and the driver is logging in.
    Handshaking,
    /// The connection stands. It is the caller's from now on.
    Connected,
    /// The attempt is over, without a connection.
    Failed(ConnectError),
}

impl View for Phase {
    type V = PhaseView;

    open spec fn view(&self) -> PhaseView {
        match self {
            Phase::Opening => PhaseView::Opening,
            Phase::Handshaking => PhaseView::Handshaking,
            Phase::Connected => PhaseView::Connected,
            Phase::Failed(error) => PhaseView::Failed(error@),
        }
    }
}

/// What happened to an attempt, as mathematical values.
pub enum EventView {
    SocketOpened,
    SocketFailed { cause: Seq<char>, encryption_unsupported: bool },
    LoggedIn,
    LoginFailed { cause: Seq<char>, encryption_unsupported: bool },
    TimedOut(Seq<char>),
}

impl EventView {
    /// The event is a failure which shows that the server does not support
    /// encryption of the transport.
    pub open spec fn shows_missing_encryption(self) -> bool {
        match self {
            EventView::SocketFailed { encryption_unsupported, .. } => encryption_unsupported,
            EventView::LoginFailed { encryption_unsupported, .. } => encryption_unsupported,
            _ => false,
        }
    }
}

/// What happened to an attempt since it last said what to do. A failure
/// comes with its cause, in the words of whoever met it, and says whether it
/// shows that the server does not support encryption of the transport.
#[derive(Debug, PartialEq, Eq)]
pub enum Event {
    /// The socket is open and sends without delay.
    SocketOpened,
    /// The socket could not be opened, or not be made to send without delay.
    SocketFailed { cause: String, encryption_unsupported: bool },
    /// The driver has logged in.
    LoggedIn,
    /// The driver could not log in.
    LoginFailed { cause: String, encryption_unsupported: bool },
    /// The time that the attempt was given is over.
    TimedOut(String),
}

impl View for Event {
    type V = EventView;

    open spec fn view(&self) -> EventView {
        match self {
            Event::SocketOpened => EventView::SocketOpened,
            Event::SocketFailed { cause, encryption_unsupported } => EventView::SocketFailed {
                cause: cause@,
                encryption_unsupported: *encryption_unsupported,
            },
            Event::LoggedIn => EventView::LoggedIn,
            Event::LoginFailed { cause, encryption_unsupported } => EventView::LoginFailed {
                cause: cause@,
                encryption_unsupported: *encryption_unsupported,
            },
            Event::TimedOut(cause) => EventView::TimedOut(cause@),
        }
    }
}

/// What is to be done for an attempt, as mathematical values.
pub enum ActionView {
    OpenSocket { address: Seq<char>, warning: Option<Seq<char>> },
    Discover { config: DriverConfigView },
    Handshake { config: DriverConfigView },
    Succeed,
    Fail(ConnectErrorView),
}

/// What is to be done next for an attempt.
#[derive(Debug, PartialEq, Eq)]
pub enum Action {
    /// Log the warning if there is one. Then open a socket to the address
    /// and make it send without delay.
    OpenSocket { address: String, warning: Option<String> },
    /// Ask the SQL Server Browser of the host for the instance that the
    /// settings name, and open a socket to it.
    Discover { config: DriverConfig },
    /// Let the driver log in over the open socket, with these settings.
    Handshake { config: DriverConfig },
    /// Hand the connection to the caller.
    Succeed,
    /// Hand the failure to the caller.
    Fail(ConnectError),
}

impl View for Action {
    type V = ActionView;

    open spec fn view(&self) -> ActionView {
        match self {
            Action::OpenSocket { address, warning } => ActionView::OpenSocket {
                address: address@,
                warning: match warning {
                    Some(warning) => Some(warning@),
                    None => None,
                },
            },
            Action::Discover { config } => ActionView::Discover { config: config@ },
            Action::Handshake { config } => ActionView::Handshake { config: config@ },
            Action::Succeed => ActionView::Succeed,
            Action::Fail(error) => ActionView::Fail(error@),
        }
    }
}

/// The warning that goes with the second try: it names the failure of the
/// first.
pub open spec fn fallback_warning(error: ConnectErrorView) -> Seq<char> {
    "Encryption is not supported by the host, err is "@ + error.message()
        + ". Trying without encryption..."@
}

/// An attempt as mathematical values.
pub struct AttemptView {
    /// The settings that the driver logs in with.
    pub config: DriverConfigView,
    /// The address that the socket is opened to.
    pub address: Seq<char>,
    /// The socket is opened through the SQL Server Browser.
    pub by_name: bool,
    pub phase: PhaseView,
    /// A second try is left: a failure which shows that the server does not
    /// support encryption is answered by one more try, without encryption.
    pub fallback: bool,
    /// The seconds that the attempt may take, if they are limited.
    pub deadline: Option<u64>,
    /// The warning of the second try, once there is one.
    pub warning: Option<Seq<char>>,
}

impl AttemptView {
    /// An attempt that is about to open its socket.
    pub open spec fn open(config: DriverConfigView, by_name: bool, fallback: bool) -> AttemptView {
        AttemptView {
            config,
            address: driver_address(config.host, config.port),
            by_name,
            phase: PhaseView::Opening,
            fallback,
            deadline: None,
            warning: None,
        }
    }

    /// The attempt is over.
    pub open spec fn finished(self) -> bool {
        self.phase is Connected || self.phase is Failed
    }

    /// What is to be done next.
    pub open spec fn action(self) -> ActionView {
        match self.phase {
            PhaseView::Opening => if self.by_name {
                ActionView::Discover { config: self.config }
            } else {
                ActionView::OpenSocket { address: self.address, warning: self.warning }
            },
            PhaseView::Handshaking => ActionView::Handshake { config: self.config },
            PhaseView::Connected => ActionView::Succeed,
            PhaseView::Failed(error) => ActionView::Fail(error),
        }
    }

    /// The failure that a socket which could not be opened stands for.
    pub open spec fn socket_error(self, cause: Seq<char>) -> ConnectErrorView {
        if self.by_name {
            ConnectErrorView::Discovery {
                instance_name: match self.config.instance_name {
                    Some(name) => name,
                    None => Seq::empty(),
                },
                cause,
            }
        } else {
            ConnectErrorView::Tcp { address: self.address, cause }
        }
    }

    /// The failure that an event stands for while the attempt is in its
    /// present phase, if it stands for one: a socket that could not be
    /// opened while the attempt waits for the socket, a login that failed
    /// while it waits for the login.
    pub open spec fn failure_of(self, event: EventView) -> Option<ConnectErrorView> {
        match (self.phase, event) {
            (PhaseView::Opening, EventView::SocketFailed { cause, .. }) => Some(
                self.socket_error(cause),
            ),
            (PhaseView::Handshaking, EventView::LoginFailed { cause, .. }) => Some(
                ConnectErrorView::Login { cause },
            ),
            _ => None,
        }
    }

    /// The event makes the attempt try once more, without encryption: it is
    /// a failure which shows that the server does not support encryption,
    /// and a second try is left.
    pub open spec fn falls_back(self, event: EventView) -> bool {
        self.fallback && self.failure_of(event).is_some() && event.shows_missing_encryption()
    }

    /// The attempt after a failure: a second try without encryption where
    /// one is left and the failure shows that the server does not support
    /// encryption, else the end.
    pub open spec fn fail(self, error: ConnectErrorView, encryption_unsupported: bool) -> AttemptView {
        if self.fallback && encryption_unsupported {
            AttemptView {
                config: DriverConfigView { encryption: Encryption::NotSupported, ..self.config },
                phase: PhaseView::Opening,
                fallback: false,
                warning: Some(fallback_warning(error)),
                ..self
            }
        } else {
            AttemptView { phase: PhaseView::Failed(error), ..self }
        }
    }

    /// The attempt after an event. An event that the present phase does not
    /// wait for changes nothing, and so does every event once the attempt is
    /// over. Time runs out only for an attempt with a deadline.
    pub open spec fn step(self, event: EventView) -> AttemptView {
        match (self.phase, event) {
            (PhaseView::Opening, EventView::SocketOpened) => AttemptView {
                phase: PhaseView::Handshaking,
                ..self
            },
            (
                PhaseView::Opening,
                EventView::SocketFailed { cause, encryption_unsupported },
            ) => self.fail(self.socket_error(cause), encryption_unsupported),
            (PhaseView::Handshaking, EventView::LoggedIn) => AttemptView {
                phase: PhaseView::Connected,
                ..self
            },
            (
                PhaseView::Handshaking,
                EventView::LoginFailed { cause, encryption_unsupported },
            ) => self.fail(ConnectErrorView::Login { cause }, encryption_unsupported),
            (PhaseView::Opening, EventView::TimedOut(cause))
            | (PhaseView::Handshaking, EventView::TimedOut(cause)) => match self.deadline {
                Some(configured_timeout) => AttemptView {
                    phase: PhaseView::Failed(
                        ConnectErrorView::Timeout { configured_timeout, cause },
                    ),
                    ..self
                },
                None => self,
            },
            _ => self,
        }
    }

    /// The attempt after a sequence of events, the first of them first.
    pub open spec fn run(self, events: Seq<EventView>) -> AttemptView
        decreases events.len(),
    {
        if events.len() == 0 {
            self
        } else {
            self.run(events.drop_last()).step(events.last())
        }
    }

    /// How many events of a sequence make the attempt try once more.
    pub open spec fn fallbacks(self, events: Seq<EventView>) -> nat
        decreases events.len(),
    {
        if events.len() == 0 {
            0
        } else {
            let before = events.drop_last();
            self.fallbacks(before) + if self.run(before).falls_back(events.last()) {
                1nat
            } else {
                0nat
            }
        }
    }
}

/// One attempt to connect. It starts by opening a socket and ends connected
/// or failed; in between it says what is to be done next.
#[derive(Debug, PartialEq, Eq)]
pub struct Attempt {
    config: DriverConfig,
    address: String,
    by_name: bool,
    phase: Phase,
    fallback: bool,
    deadline: Option<u64>,
    warning: Option<String>,
}

impl View for Attempt {
    type V = AttemptView;

    closed spec fn view(&self) -> AttemptView {
        AttemptView {
            config: self.config@,
            address: self.address@,
            by_name: self.by_name,
            phase: self.phase@,
            fallback: self.fallback,
            deadline: self.deadline,
            warning: match self.warning {
                Some(warning) => Some(warning@),
                None => None,
            },
        }
    }
}

impl Attempt {
    /// An attempt that is about to open its socket, to the address that the
    /// driver has for the host and the port of the settings. The socket is
    /// opened through the SQL Server Browser if `by_name` says so. With
    /// `fallback`, the first failure which shows that the server does not
    /// support encryption is answered by a second try without encryption.
    pub fn open(config: DriverConfig, by_name: bool, fallback: bool) -> (attempt: Attempt)
        ensures
            attempt@ == AttemptView::open(config@, by_name, fallback),
    {
        let address = config.address();
        Attempt {
            config,
            address,
            by_name,
            phase: Phase::Opening,
            fallback,
            deadline: None,
            warning: None,
        }
    }

    /// The same attempt, limited to a number of seconds.
    pub fn with_deadline(self, seconds: u64) -> (attempt: Attempt)
        ensures
            attempt@ == (AttemptView { deadline: Some(seconds), ..self@ }),
    {
        let mut attempt = self;
        attempt.deadline = Some(seconds);
        attempt
    }

    /// The seconds that the attempt may take, if they are limited.
    pub fn deadline(&self) -> (deadline: Option<u64>)
        ensures
            deadline == self@.deadline,
    {
        self.deadline
    }

    /// Where the attempt stands.
    pub fn phase(&self) -> (phase: &Phase)
        ensures
            phase@ == self@.phase,
    {
        &self.phase
    }

    /// The settings that the driver logs in with.
    pub fn config(&self) -> (config: &DriverConfig)
        ensures
            config@ == self@.config,
    {
        &self.config
    }

    /// Whether the attempt is over.
    pub fn is_finished(&self) -> (finished: bool)
        ensures
            finished == self@.finished(),
    {
        match self.phase {
            Phase::Connected | Phase::Failed(_) => true,
            _ => false,
        }
    }

    /// What is to be done next.
    pub fn action(&self) -> (action: Action)
        ensures
            action@ == self@.action(),
    {
        match &self.phase {
            Phase::Opening => if self.by_name {
                Action::Discover { config: self.config.clone() }
            } else {
                Action::OpenSocket {
                    address: self.address.clone(),
                    warning: self.warning.clone(),
                }
            },
            Phase::Handshaking => Action::Handshake { config: self.config.clone() },
            Phase::Connected => Action::Succeed,
            Phase::Failed(error) => Action::Fail(error.clone()),
        }
    }

    /// The attempt after a failure: a second try without encryption where
    /// one is left and the failure shows that the server does not support
    /// encryption, else the end.
    fn fail(self, error: ConnectError, encryption_unsupported: bool) -> (attempt: Attempt)
        ensures
            attempt@ == self@.fail(error@, encryption_unsupported),
    {
        let mut attempt = self;
        if attempt.fallback && encryption_unsupported {
            let mut warning = String::from_str("Encryption is not supported by the host, err is ");
            warning.append(error.to_string().as_str());
            warning.append(". Trying without encryption...");
            attempt.config.encryption = Encryption::NotSupported;
            attempt.phase = Phase::Opening;
            attempt.fallback = false;
            attempt.warning = Some(warning);
        } else {
            attempt.phase = Phase::Failed(error);
        }
        attempt
    }

    /// Takes in what happened and says what is to be done next.
    ///
    /// A socket that opened is followed by the login, a login that succeeded
    /// by the end. A failure of either ends the attempt. The one exception
    /// is a failure which shows that the server does not support encryption,
    /// while a second try is left: then the socket is opened once more, for
    /// a login without encryption. When the time of an attempt with a deadline is over, the
    /// attempt ends, whatever it was waiting for. An event that the attempt
    /// does not wait for changes nothing, and so does the end of a time that
    /// was never limited.
    pub fn step(self, event: Event) -> (next: (Attempt, Action))
        ensures
            next.0@ == self@.step(event@),
            next.1@ == self@.step(event@).action(),
    {
        let attempt = match (&self.phase, event) {
            (Phase::Opening, Event::SocketOpened) => {
                let mut attempt = self;
                attempt.phase = Phase::Handshaking;
                attempt
            },
            (Phase::Opening, Event::SocketFailed { cause, encryption_unsupported }) => {
                let error = if self.by_name {
                    ConnectError::Discovery {
                        instance_name: match &self.config.instance_name {
                            Some(name) => name.clone(),
                            None => String::new(),
                        },
                        cause,
                    }
                } else {
                    ConnectError::Tcp { address: self.address.clone(), cause }
                };
                self.fail(error, encryption_unsupported)
            },
            (Phase::Handshaking, Event::LoggedIn) => {
                let mut attempt = self;
                attempt.phase = Phase::Connected;
                attempt
            },
            (Phase::Handshaking, Event::LoginFailed { cause, encryption_unsupported }) => self.fail(
                ConnectError::Login { cause },
                encryption_unsupported,
            ),
            (Phase::Opening, Event::TimedOut(cause)) | (Phase::Handshaking, Event::TimedOut(cause)) => {
                match self.deadline {
                    Some(configured_timeout) => {
                        let mut attempt = self;
                        attempt.phase = Phase::Failed(
                            ConnectError::Timeout { configured_timeout, cause },
                        );
                        attempt
                    },
                    None => self,
                }
            },
            _ => self,
        };
        let action = attempt.action();
        (attempt, action)
    }
}

/// An attempt that is over stays as it is, whatever happens after.
pub proof fn lemma_finished_is_final(attempt: AttemptView, events: Seq<EventView>)
    requires
        attempt.finished(),
    ensures
        attempt.run(events) == attempt,
    decreases events.len(),
{
    if events.len() > 0 {
        lemma_finished_is_final(attempt, events.drop_last());
    }
}

/// Whatever happens to an attempt, it tries once more at most once, and not
/// at all unless it started with a second try left. A second try changes
/// the settings in one place: the transport is no longer encrypted.
pub proof fn lemma_fallback_at_most_once(attempt: AttemptView, events: Seq<EventView>)
    ensures
        attempt.fallbacks(events) <= 1,
        !attempt.fallback ==> attempt.fallbacks(events) == 0,
        attempt.run(events).fallback ==> attempt.fallback && attempt.fallbacks(events) == 0,
        attempt.fallbacks(events) == 0 ==> attempt.run(events).config == attempt.config,
        attempt.fallbacks(events) == 1 ==> attempt.run(events).config == (DriverConfigView {
            encryption: Encryption::NotSupported,
            ..attempt.config
        }),
    decreases events.len(),
{
    if events.len() > 0 {
        lemma_fallback_at_most_once(attempt, events.drop_last());
    }
}

/// A failure which shows that the server does not support encryption, met
/// with a second try left, is answered by opening the socket once more, with
/// a warning that names the failure. If the socket opens and the login
/// succeeds then, the attempt ends connected, without encryption. If the
/// second try fails too, the attempt ends with that failure, whatever it
/// shows.
pub proof fn lemma_second_try(attempt: AttemptView, first: EventView, second: EventView)
    requires
        !attempt.finished(),
        attempt.fallback,
        attempt.failure_of(first).is_some(),
        first.shows_missing_encryption(),
    ensures
        ({
            let retry = attempt.step(first);
            let connected = retry.step(EventView::SocketOpened).step(EventView::LoggedIn);
            &&& !retry.by_name ==> retry.action() == ActionView::OpenSocket {
                address: attempt.address,
                warning: Some(fallback_warning(attempt.failure_of(first).unwrap())),
            }
            &&& retry.config.encryption == Encryption::NotSupported
            &&& connected.phase == PhaseView::Connected
            &&& connected.config == retry.config
            &&& retry.failure_of(second) matches Some(error) ==> retry.step(second).phase
                == PhaseView::Failed(error)
        }),
{
}

/// A failure that does not show that the server lacks encryption ends the
/// attempt, and so does every failure once no second try is left: nothing
/// is tried again, and the settings stay as they are.
pub proof fn lemma_other_failures_are_final(attempt: AttemptView, event: EventView)
    requires
        attempt.failure_of(event).is_some(),
        !event.shows_missing_encryption() || !attempt.fallback,
    ensures
        !attempt.falls_back(event),
        attempt.step(event).phase == PhaseView::Failed(attempt.failure_of(event).unwrap()),
        attempt.step(event).config == attempt.config,
        attempt.step(event).action() == ActionView::Fail(attempt.failure_of(event).unwrap()),
{
}

/// When the time of an attempt is over before the attempt is, it ends with
/// a timeout that holds the seconds it was given.
pub proof fn lemma_timeout_ends_attempt(attempt: AttemptView, cause: Seq<char>)
    requires
        !attempt.finished(),
        attempt.deadline.is_some(),
    ensures
        attempt.step(EventView::TimedOut(cause)).phase == PhaseView::Failed(
            ConnectErrorView::Timeout { configured_timeout: attempt.deadline.unwrap(), cause },
        ),
{
}

} // verus!
