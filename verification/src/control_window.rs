//! The state of the connection as the user interface shows it.

use vstd::prelude::*;
use vstd::std_specs::convert::{FromSpec, FromSpecImpl};

verus! {

/// An analogue to bool that tries to avoid any spelling errors in the strings used as
/// representation – needed for the UI.
#[derive(Clone, Copy, Debug, PartialEq, Eq, Hash, Structural)]
pub enum ConnectedState {
    Connected,
    NotConnected,
}

impl ConnectedState {
    /// The text for this value in the user interface.
    pub open spec fn label(self) -> Seq<char> {
        match self {
            ConnectedState::Connected => "Connected"@,
            ConnectedState::NotConnected => "Not Connected"@,
        }
    }

    /// The value whose text in the user interface is `text`, if any.
    pub open spec fn labelled(text: Seq<char>) -> Option<ConnectedState> {
        if text == "Connected"@ {
            Some(ConnectedState::Connected)
        } else if text == "Not Connected"@ {
            Some(ConnectedState::NotConnected)
        } else {
            None
        }
    }

    /// The text for this value in the user interface.
    pub fn to_string(&self) -> (r: String)
        ensures
            r@ == self.label(),
    {
        match self {
            ConnectedState::Connected => String::from_str("Connected"),
            ConnectedState::NotConnected => String::from_str("Not Connected"),
        }
    }

    /// The value whose text in the user interface is `text`. The text must be that of a value:
    /// no value has any other text.
    pub fn from_label(text: &str) -> (r: ConnectedState)
        requires
            ConnectedState::labelled(text@) is Some,
        ensures
            ConnectedState::labelled(text@) == Some(r),
    {
        match ConnectedState::parse_label(text) {
            Some(x) => x,
            None => ConnectedState::Connected,
        }
    }

    /// The value whose text in the user interface is `text`; `None` where no value has it. This
    /// tells a caller whether [ConnectedState::from_label] may be called on the text.
    pub fn parse_label(text: &str) -> (r: Option<ConnectedState>)
        ensures
            r == ConnectedState::labelled(text@),
    {
        let text = text.to_owned();
        if text == String::from_str("Connected") {
            Some(ConnectedState::Connected)
        } else if text == String::from_str("Not Connected") {
            Some(ConnectedState::NotConnected)
        } else {
            None
        }
    }

    /// Reading back the text of a value gives that value, and text that reads as a value is
    /// the text of that value.
    pub proof fn lemma_label_round_trip(x: ConnectedState, text: Seq<char>)
        ensures
            ConnectedState::labelled(x.label()) == Some(x),
            ConnectedState::labelled(text) matches Some(y) ==> y.label() == text,
    {
        reveal_strlit("Connected");
        reveal_strlit("Not Connected");
        assert("Connected"@.len() != "Not Connected"@.len());
        assert("Connected"@ != "Not Connected"@);
        match x {
            ConnectedState::Connected => {},
            ConnectedState::NotConnected => {},
        }
    }
}

impl From<bool> for ConnectedState {
    fn from(b: bool) -> (r: Self) {
        if b {
            ConnectedState::Connected
        } else {
            ConnectedState::NotConnected
        }
    }
}

impl FromSpecImpl<bool> for ConnectedState {
    open spec fn obeys_from_spec() -> bool {
        true
    }

    open spec fn from_spec(b: bool) -> Self {
        if b {
            ConnectedState::Connected
        } else {
            ConnectedState::NotConnected
        }
    }
}

impl From<ConnectedState> for bool {
    fn from(c: ConnectedState) -> (r: bool) {
        c == ConnectedState::Connected
    }
}

impl FromSpecImpl<ConnectedState> for bool {
    open spec fn obeys_from_spec() -> bool {
        true
    }

    open spec fn from_spec(c: ConnectedState) -> bool {
        c == ConnectedState::Connected
    }
}

/// Turning a bool into a connection state and back gives the bool back, and the other way round.
pub proof fn lemma_connected_bool_round_trip(b: bool, c: ConnectedState)
    ensures
        <bool as FromSpec<ConnectedState>>::from_spec(
            <ConnectedState as FromSpec<bool>>::from_spec(b),
        ) == b,
        <ConnectedState as FromSpec<bool>>::from_spec(
            <bool as FromSpec<ConnectedState>>::from_spec(c),
        ) == c,
{
}

/// The port that an AVR850 listens on.
pub const DEFAULT_PORT_NUMBER: u16 = 50000;

/// What the user is told where there is no address to connect to.
pub const NO_ADDRESS: &'static str = "No address to connect to.";

/// What the user is told where the address to connect to is empty.
pub const EMPTY_ADDRESS: &'static str = "Empty string as address, not connecting.";

/// Where to connect to on the user's request: the address from the address field and the port
/// given when the program was started, [DEFAULT_PORT_NUMBER] where none was. Where the field has
/// no text or empty text there is no connection, and the message says why.
pub fn connect_target(address: Option<&str>, port_number: Option<u16>) -> (r: Result<(String, u16), &'static str>)
    ensures
        match address {
            None => r matches Err(message) && message@ == NO_ADDRESS@,
            Some(a) => if a@.len() == 0 {
                r matches Err(message) && message@ == EMPTY_ADDRESS@
            } else {
                r matches Ok((target, port)) && target@ == a@ && port == match port_number {
                    Some(p) => p,
                    None => DEFAULT_PORT_NUMBER,
                }
            },
        },
{
    match address {
        None => Err(NO_ADDRESS),
        Some(a) => {
            if a.is_empty() {
                Err(EMPTY_ADDRESS)
            } else {
                let port = match port_number {
                    Some(p) => p,
                    None => DEFAULT_PORT_NUMBER,
                };
                Ok((a.to_owned(), port))
            }
        },
    }
}

/// The text that the user interface shows for each connection state.
pub proof fn lemma_user_interface_labels()
    ensures
        ConnectedState::Connected.label() == "Connected"@,
        ConnectedState::NotConnected.label() == "Not Connected"@,
{
}

} // verus!
