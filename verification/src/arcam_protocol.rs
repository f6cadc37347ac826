//! The packets of the Arcam protocol for communicating with an Arcam amplifier over a TCP
//! connection.
//!
//! The Arcam manual states that each Arcam amplifier that has an Ethernet connection can be
//! connected to using port 50000 (AVR850, 50001 for AVR600). The amplifier responds to messages
//! "AMX" by sending an AMXB response. Otherwise communication is via packets with well defined
//! structures. Each packet starts with 0x21 (!) and ends with 0x0d (\r).
//!
//! Request packets sent to the amplifier are structured:
//!
//! - St (Start transmission): 0x21 (‘!’)
//! - Zn (Zone number): 0x1, 0x2 for the zone number
//! - Cc (Command code): the code for the command
//! - Dl (Data Length): the number of data items following this item, excluding the Et
//! - Data: the parameters for the response of length n. n is limited to 255
//! - Et (End transmission): 0x0d (\r)
//!
//! Response packets sent by the amplifier are structured:
//!
//! - St (Start transmission): 0x21 (‘!’)
//! - Zn (Zone number): 0x1, 0x2 for the zone number
//! - Cc (Command code): the code for the command
//! - Ac (Answer code): the answer code for the request
//! - Dl (Data Length): the number of data items following this item, excluding the Et
//! - Data: the parameters for the response of length n. n is limited to 255
//! - Et (End transmission): 0x0d (\r)
//!
//! Communication is not synchronous: the amplifier receives request packets and within 3
//! seconds will send a response packet. There is no guarantee that the response order will be
//! the request order, but in normal circumstances it probably will be.

use vstd::prelude::*;

pub use crate::codes::{
    AnswerCode, Brightness, Command, MuteState, PowerState, Source, VideoSource, ZoneNumber,
};
pub use crate::rc5::{get_rc5command_data, RC5Command};
use vstd::std_specs::convert::{FromSpec, FromSpecImpl};
use crate::text::{decimal, decimal_string};

verus! {

/// The value used as the start of packet value.
pub const PACKET_START: u8 = 0x21;

/// The value used as the end of packet value.
pub const PACKET_END: u8 = 0x0d;

/// The value used to represent the question of which value is currently set.
pub const REQUEST_QUERY: u8 = 0xf0;

impl Brightness {
    /// The text for this value in the user interface.
    pub open spec fn label(self) -> Seq<char> {
        match self {
            Brightness::Off => "Off"@,
            Brightness::Level1 => "Level1"@,
            Brightness::Level2 => "Level2"@,
        }
    }

    /// The value whose text in the user interface is `text`, if any.
    pub open spec fn labelled(text: Seq<char>) -> Option<Brightness> {
        if text == "Off"@ {
            Some(Brightness::Off)
        } else if text == "Level1"@ {
            Some(Brightness::Level1)
        } else if text == "Level2"@ {
            Some(Brightness::Level2)
        } else {
            None
        }
    }

    /// The text for this value in the user interface.
    pub fn to_string(&self) -> (r: String)
        ensures
            r@ == self.label(),
    {
        match self {
            Brightness::Off => String::from_str("Off"),
            Brightness::Level1 => String::from_str("Level1"),
            Brightness::Level2 => String::from_str("Level2"),
        }
    }

    /// The value whose text in the user interface is `text`. The text must be that of a value:
    /// no value has any other text.
    pub fn from_label(text: &str) -> (r: Brightness)
        requires
            Brightness::labelled(text@) is Some,
        ensures
            Brightness::labelled(text@) == Some(r),
    {
        match Brightness::parse_label(text) {
            Some(x) => x,
            None => Brightness::Off,
        }
    }

    /// The value whose text in the user interface is `text`; `None` where no value has it. This
    /// tells a caller whether [Brightness::from_label] may be called on the text.
    pub fn parse_label(text: &str) -> (r: Option<Brightness>)
        ensures
            r == Brightness::labelled(text@),
    {
        let text = text.to_owned();
        if text == String::from_str("Off") {
            Some(Brightness::Off)
        } else if text == String::from_str("Level1") {
            Some(Brightness::Level1)
        } else if text == String::from_str("Level2") {
            Some(Brightness::Level2)
        } else {
            None
        }
    }

    /// Reading back the text of a value gives that value, and text that reads as a value is
    /// the text of that value.
    pub proof fn lemma_label_round_trip(x: Brightness, text: Seq<char>)
        ensures
            Brightness::labelled(x.label()) == Some(x),
            Brightness::labelled(text) matches Some(y) ==> y.label() == text,
    {
        reveal_strlit("Off");
        reveal_strlit("Level1");
        reveal_strlit("Level2");
        assert("Off"@.len() != "Level1"@.len());
        assert("Off"@ != "Level1"@);
        assert("Off"@.len() != "Level2"@.len());
        assert("Off"@ != "Level2"@);
        assert("Level1"@[5] != "Level2"@[5]);
        assert("Level1"@ != "Level2"@);
        match x {
            Brightness::Off => {},
            Brightness::Level1 => {},
            Brightness::Level2 => {},
        }
    }
}

impl PowerState {
    /// The text for this value in the user interface.
    pub open spec fn label(self) -> Seq<char> {
        match self {
            PowerState::Standby => "Standby"@,
            PowerState::On => "On"@,
        }
    }

    /// The value whose text in the user interface is `text`, if any.
    pub open spec fn labelled(text: Seq<char>) -> Option<PowerState> {
        if text == "Standby"@ {
            Some(PowerState::Standby)
        } else if text == "On"@ {
            Some(PowerState::On)
        } else {
            None
        }
    }

    /// The text for this value in the user interface.
    pub fn to_string(&self) -> (r: String)
        ensures
            r@ == self.label(),
    {
        match self {
            PowerState::Standby => String::from_str("Standby"),
            PowerState::On => String::from_str("On"),
        }
    }

    /// The value whose text in the user interface is `text`. The text must be that of a value:
    /// no value has any other text.
    pub fn from_label(text: &str) -> (r: PowerState)
        requires
            PowerState::labelled(text@) is Some,
        ensures
            PowerState::labelled(text@) == Some(r),
    {
        match PowerState::parse_label(text) {
            Some(x) => x,
            None => PowerState::Standby,
        }
    }

    /// The value whose text in the user interface is `text`; `None` where no value has it. This
    /// tells a caller whether [PowerState::from_label] may be called on the text.
    pub fn parse_label(text: &str) -> (r: Option<PowerState>)
        ensures
            r == PowerState::labelled(text@),
    {
        let text = text.to_owned();
        if text == String::from_str("Standby") {
            Some(PowerState::Standby)
        } else if text == String::from_str("On") {
            Some(PowerState::On)
        } else {
            None
        }
    }

    /// Reading back the text of a value gives that value, and text that reads as a value is
    /// the text of that value.
    pub proof fn lemma_label_round_trip(x: PowerState, text: Seq<char>)
        ensures
            PowerState::labelled(x.label()) == Some(x),
            PowerState::labelled(text) matches Some(y) ==> y.label() == text,
    {
        reveal_strlit("Standby");
        reveal_strlit("On");
        assert("Standby"@.len() != "On"@.len());
        assert("Standby"@ != "On"@);
        match x {
            PowerState::Standby => {},
            PowerState::On => {},
        }
    }
}

impl MuteState {
    /// The text for this value in the user interface.
    pub open spec fn label(self) -> Seq<char> {
        match self {
            MuteState::Muted => "Muted"@,
            MuteState::NotMuted => "Not Muted"@,
        }
    }

    /// The value whose text in the user interface is `text`, if any.
    pub open spec fn labelled(text: Seq<char>) -> Option<MuteState> {
        if text == "Muted"@ {
            Some(MuteState::Muted)
        } else if text == "Not Muted"@ {
            Some(MuteState::NotMuted)
        } else {
            None
        }
    }

    /// The text for this value in the user interface.
    pub fn to_string(&self) -> (r: String)
        ensures
            r@ == self.label(),
    {
        match self {
            MuteState::Muted => String::from_str("Muted"),
            MuteState::NotMuted => String::from_str("Not Muted"),
        }
    }

    /// The value whose text in the user interface is `text`. The text must be that of a value:
    /// no value has any other text.
    pub fn from_label(text: &str) -> (r: MuteState)
        requires
            MuteState::labelled(text@) is Some,
        ensures
            MuteState::labelled(text@) == Some(r),
    {
        match MuteState::parse_label(text) {
            Some(x) => x,
            None => MuteState::Muted,
        }
    }

    /// The value whose text in the user interface is `text`; `None` where no value has it. This
    /// tells a caller whether [MuteState::from_label] may be called on the text.
    pub fn parse_label(text: &str) -> (r: Option<MuteState>)
        ensures
            r == MuteState::labelled(text@),
    {
        let text = text.to_owned();
        if text == String::from_str("Muted") {
            Some(MuteState::Muted)
        } else if text == String::from_str("Not Muted") {
            Some(MuteState::NotMuted)
        } else {
            None
        }
    }

    /// Reading back the text of a value gives that value, and text that reads as a value is
    /// the text of that value.
    pub proof fn lemma_label_round_trip(x: MuteState, text: Seq<char>)
        ensures
            MuteState::labelled(x.label()) == Some(x),
            MuteState::labelled(text) matches Some(y) ==> y.label() == text,
    {
        reveal_strlit("Muted");
        reveal_strlit("Not Muted");
        assert("Muted"@.len() != "Not Muted"@.len());
        assert("Muted"@ != "Not Muted"@);
        match x {
            MuteState::Muted => {},
            MuteState::NotMuted => {},
        }
    }
}

impl Source {
    /// The name of this source, as the user interface shows it.
    pub open spec fn label(self) -> Seq<char> {
        match self {
            Source::FollowZone1 => "FollowZone1"@,
            Source::CD => "CD"@,
            Source::BD => "BD"@,
            Source::AV => "AV"@,
            Source::SAT => "SAT"@,
            Source::PVR => "PVR"@,
            Source::VCR => "VCR"@,
            Source::AUX => "AUX"@,
            Source::DISPLAY => "DISPLAY"@,
            Source::TUNER => "TUNER"@,
            Source::TUNERDAB => "TUNERDAB"@,
            Source::NET => "NET"@,
            Source::USB => "USB"@,
            Source::STB => "STB"@,
            Source::GAME => "GAME"@,
        }
    }

    /// The value whose text in the user interface is `text`, if any.
    pub open spec fn labelled(text: Seq<char>) -> Option<Source> {
        if text == "FollowZone1"@ {
            Some(Source::FollowZone1)
        } else if text == "CD"@ {
            Some(Source::CD)
        } else if text == "BD"@ {
            Some(Source::BD)
        } else if text == "AV"@ {
            Some(Source::AV)
        } else if text == "SAT"@ {
            Some(Source::SAT)
        } else if text == "PVR"@ {
            Some(Source::PVR)
        } else if text == "VCR"@ {
            Some(Source::VCR)
        } else if text == "AUX"@ {
            Some(Source::AUX)
        } else if text == "DISPLAY"@ {
            Some(Source::DISPLAY)
        } else if text == "TUNER"@ {
            Some(Source::TUNER)
        } else if text == "TUNERDAB"@ {
            Some(Source::TUNERDAB)
        } else if text == "NET"@ {
            Some(Source::NET)
        } else if text == "USB"@ {
            Some(Source::USB)
        } else if text == "STB"@ {
            Some(Source::STB)
        } else if text == "GAME"@ {
            Some(Source::GAME)
        } else {
            None
        }
    }

    /// The text for this value in the user interface.
    pub fn label_string(&self) -> (r: String)
        ensures
            r@ == self.label(),
    {
        match self {
            Source::FollowZone1 => String::from_str("FollowZone1"),
            Source::CD => String::from_str("CD"),
            Source::BD => String::from_str("BD"),
            Source::AV => String::from_str("AV"),
            Source::SAT => String::from_str("SAT"),
            Source::PVR => String::from_str("PVR"),
            Source::VCR => String::from_str("VCR"),
            Source::AUX => String::from_str("AUX"),
            Source::DISPLAY => String::from_str("DISPLAY"),
            Source::TUNER => String::from_str("TUNER"),
            Source::TUNERDAB => String::from_str("TUNERDAB"),
            Source::NET => String::from_str("NET"),
            Source::USB => String::from_str("USB"),
            Source::STB => String::from_str("STB"),
            Source::GAME => String::from_str("GAME"),
        }
    }

    /// The value whose text in the user interface is `text`. The text must be that of a value:
    /// no value has any other text.
    pub fn from_label(text: &str) -> (r: Source)
        requires
            Source::labelled(text@) is Some,
        ensures
            Source::labelled(text@) == Some(r),
    {
        match Source::parse_label(text) {
            Some(x) => x,
            None => Source::FollowZone1,
        }
    }

    /// The value whose text in the user interface is `text`; `None` where no value has it. This
    /// tells a caller whether [Source::from_label] may be called on the text.
    pub fn parse_label(text: &str) -> (r: Option<Source>)
        ensures
            r == Source::labelled(text@),
    {
        let text = text.to_owned();
        if text == String::from_str("FollowZone1") {
            Some(Source::FollowZone1)
        } else if text == String::from_str("CD") {
            Some(Source::CD)
        } else if text == String::from_str("BD") {
            Some(Source::BD)
        } else if text == String::from_str("AV") {
            Some(Source::AV)
        } else if text == String::from_str("SAT") {
            Some(Source::SAT)
        } else if text == String::from_str("PVR") {
            Some(Source::PVR)
        } else if text == String::from_str("VCR") {
            Some(Source::VCR)
        } else if text == String::from_str("AUX") {
            Some(Source::AUX)
        } else if text == String::from_str("DISPLAY") {
            Some(Source::DISPLAY)
        } else if text == String::from_str("TUNER") {
            Some(Source::TUNER)
        } else if text == String::from_str("TUNERDAB") {
            Some(Source::TUNERDAB)
        } else if text == String::from_str("NET") {
            Some(Source::NET)
        } else if text == String::from_str("USB") {
            Some(Source::USB)
        } else if text == String::from_str("STB") {
            Some(Source::STB)
        } else if text == String::from_str("GAME") {
            Some(Source::GAME)
        } else {
            None
        }
    }

    /// Reading back the text of a value gives that value, and text that reads as a value is
    /// the text of that value.
    pub proof fn lemma_label_round_trip(x: Source, text: Seq<char>)
        ensures
            Source::labelled(x.label()) == Some(x),
            Source::labelled(text) matches Some(y) ==> y.label() == text,
    {
        reveal_strlit("FollowZone1");
        reveal_strlit("CD");
        reveal_strlit("BD");
        reveal_strlit("AV");
        reveal_strlit("SAT");
        reveal_strlit("PVR");
        reveal_strlit("VCR");
        reveal_strlit("AUX");
        reveal_strlit("DISPLAY");
        reveal_strlit("TUNER");
        reveal_strlit("TUNERDAB");
        reveal_strlit("NET");
        reveal_strlit("USB");
        reveal_strlit("STB");
        reveal_strlit("GAME");
        assert("FollowZone1"@.len() != "CD"@.len());
        assert("FollowZone1"@ != "CD"@);
        assert("FollowZone1"@.len() != "BD"@.len());
        assert("FollowZone1"@ != "BD"@);
        assert("FollowZone1"@.len() != "AV"@.len());
        assert("FollowZone1"@ != "AV"@);
        assert("FollowZone1"@.len() != "SAT"@.len());
        assert("FollowZone1"@ != "SAT"@);
        assert("FollowZone1"@.len() != "PVR"@.len());
        assert("FollowZone1"@ != "PVR"@);
        assert("FollowZone1"@.len() != "VCR"@.len());
        assert("FollowZone1"@ != "VCR"@);
        assert("FollowZone1"@.len() != "AUX"@.len());
        assert("FollowZone1"@ != "AUX"@);
        assert("FollowZone1"@.len() != "DISPLAY"@.len());
        assert("FollowZone1"@ != "DISPLAY"@);
        assert("FollowZone1"@.len() != "TUNER"@.len());
        assert("FollowZone1"@ != "TUNER"@);
        assert("FollowZone1"@.len() != "TUNERDAB"@.len());
        assert("FollowZone1"@ != "TUNERDAB"@);
        assert("FollowZone1"@.len() != "NET"@.len());
        assert("FollowZone1"@ != "NET"@);
        assert("FollowZone1"@.len() != "USB"@.len());
        assert("FollowZone1"@ != "USB"@);
        assert("FollowZone1"@.len() != "STB"@.len());
        assert("FollowZone1"@ != "STB"@);
        assert("FollowZone1"@.len() != "GAME"@.len());
        assert("FollowZone1"@ != "GAME"@);
        assert("CD"@[0] != "BD"@[0]);
        assert("CD"@ != "BD"@);
        assert("CD"@[0] != "AV"@[0]);
        assert("CD"@ != "AV"@);
        assert("CD"@.len() != "SAT"@.len());
        assert("CD"@ != "SAT"@);
        assert("CD"@.len() != "PVR"@.len());
        assert("CD"@ != "PVR"@);
        assert("CD"@.len() != "VCR"@.len());
        assert("CD"@ != "VCR"@);
        assert("CD"@.len() != "AUX"@.len());
        assert("CD"@ != "AUX"@);
        assert("CD"@.len() != "DISPLAY"@.len());
        assert("CD"@ != "DISPLAY"@);
        assert("CD"@.len() != "TUNER"@.len());
        assert("CD"@ != "TUNER"@);
        assert("CD"@.len() != "TUNERDAB"@.len());
        assert("CD"@ != "TUNERDAB"@);
        assert("CD"@.len() != "NET"@.len());
        assert("CD"@ != "NET"@);
        assert("CD"@.len() != "USB"@.len());
        assert("CD"@ != "USB"@);
        assert("CD"@.len() != "STB"@.len());
        assert("CD"@ != "STB"@);
        assert("CD"@.len() != "GAME"@.len());
        assert("CD"@ != "GAME"@);
        assert("BD"@[0] != "AV"@[0]);
        assert("BD"@ != "AV"@);
        assert("BD"@.len() != "SAT"@.len());
        assert("BD"@ != "SAT"@);
        assert("BD"@.len() != "PVR"@.len());
        assert("BD"@ != "PVR"@);
        assert("BD"@.len() != "VCR"@.len());
        assert("BD"@ != "VCR"@);
        assert("BD"@.len() != "AUX"@.len());
        assert("BD"@ != "AUX"@);
        assert("BD"@.len() != "DISPLAY"@.len());
        assert("BD"@ != "DISPLAY"@);
        assert("BD"@.len() != "TUNER"@.len());
        assert("BD"@ != "TUNER"@);
        assert("BD"@.len() != "TUNERDAB"@.len());
        assert("BD"@ != "TUNERDAB"@);
        assert("BD"@.len() != "NET"@.len());
        assert("BD"@ != "NET"@);
        assert("BD"@.len() != "USB"@.len());
        assert("BD"@ != "USB"@);
        assert("BD"@.len() != "STB"@.len());
        assert("BD"@ != "STB"@);
        assert("BD"@.len() != "GAME"@.len());
        assert("BD"@ != "GAME"@);
        assert("AV"@.len() != "SAT"@.len());
        assert("AV"@ != "SAT"@);
        assert("AV"@.len() != "PVR"@.len());
        assert("AV"@ != "PVR"@);
        assert("AV"@.len() != "VCR"@.len());
        assert("AV"@ != "VCR"@);
        assert("AV"@.len() != "AUX"@.len());
        assert("AV"@ != "AUX"@);
        assert("AV"@.len() != "DISPLAY"@.len());
        assert("AV"@ != "DISPLAY"@);
        assert("AV"@.len() != "TUNER"@.len());
        assert("AV"@ != "TUNER"@);
        assert("AV"@.len() != "TUNERDAB"@.len());
        assert("AV"@ != "TUNERDAB"@);
        assert("AV"@.len() != "NET"@.len());
        assert("AV"@ != "NET"@);
        assert("AV"@.len() != "USB"@.len());
        assert("AV"@ != "USB"@);
        assert("AV"@.len() != "STB"@.len());
        assert("AV"@ != "STB"@);
        assert("AV"@.len() != "GAME"@.len());
        assert("AV"@ != "GAME"@);
        assert("SAT"@[0] != "PVR"@[0]);
        assert("SAT"@ != "PVR"@);
        assert("SAT"@[0] != "VCR"@[0]);
        assert("SAT"@ != "VCR"@);
        assert("SAT"@[0] != "AUX"@[0]);
        assert("SAT"@ != "AUX"@);
        assert("SAT"@.len() != "DISPLAY"@.len());
        assert("SAT"@ != "DISPLAY"@);
        assert("SAT"@.len() != "TUNER"@.len());
        assert("SAT"@ != "TUNER"@);
        assert("SAT"@.len() != "TUNERDAB"@.len());
        assert("SAT"@ != "TUNERDAB"@);
        assert("SAT"@[0] != "NET"@[0]);
        assert("SAT"@ != "NET"@);
        assert("SAT"@[0] != "USB"@[0]);
        assert("SAT"@ != "USB"@);
        assert("SAT"@[1] != "STB"@[1]);
        assert("SAT"@ != "STB"@);
        assert("SAT"@.len() != "GAME"@.len());
        assert("SAT"@ != "GAME"@);
        assert("PVR"@[0] != "VCR"@[0]);
        assert("PVR"@ != "VCR"@);
        assert("PVR"@[0] != "AUX"@[0]);
        assert("PVR"@ != "AUX"@);
        assert("PVR"@.len() != "DISPLAY"@.len());
        assert("PVR"@ != "DISPLAY"@);
        assert("PVR"@.len() != "TUNER"@.len());
        assert("PVR"@ != "TUNER"@);
        assert("PVR"@.len() != "TUNERDAB"@.len());
        assert("PVR"@ != "TUNERDAB"@);
        assert("PVR"@[0] != "NET"@[0]);
        assert("PVR"@ != "NET"@);
        assert("PVR"@[0] != "USB"@[0]);
        assert("PVR"@ != "USB"@);
        assert("PVR"@[0] != "STB"@[0]);
        assert("PVR"@ != "STB"@);
        assert("PVR"@.len() != "GAME"@.len());
        assert("PVR"@ != "GAME"@);
        assert("VCR"@[0] != "AUX"@[0]);
        assert("VCR"@ != "AUX"@);
        assert("VCR"@.len() != "DISPLAY"@.len());
        assert("VCR"@ != "DISPLAY"@);
        assert("VCR"@.len() != "TUNER"@.len());
        assert("VCR"@ != "TUNER"@);
        assert("VCR"@.len() != "TUNERDAB"@.len());
        assert("VCR"@ != "TUNERDAB"@);
        assert("VCR"@[0] != "NET"@[0]);
        assert("VCR"@ != "NET"@);
        assert("VCR"@[0] != "USB"@[0]);
        assert("VCR"@ != "USB"@);
        assert("VCR"@[0] != "STB"@[0]);
        assert("VCR"@ != "STB"@);
        assert("VCR"@.len() != "GAME"@.len());
        assert("VCR"@ != "GAME"@);
        assert("AUX"@.len() != "DISPLAY"@.len());
        assert("AUX"@ != "DISPLAY"@);
        assert("AUX"@.len() != "TUNER"@.len());
        assert("AUX"@ != "TUNER"@);
        assert("AUX"@.len() != "TUNERDAB"@.len());
        assert("AUX"@ != "TUNERDAB"@);
        assert("AUX"@[0] != "NET"@[0]);
        assert("AUX"@ != "NET"@);
        assert("AUX"@[0] != "USB"@[0]);
        assert("AUX"@ != "USB"@);
        assert("AUX"@[0] != "STB"@[0]);
        assert("AUX"@ != "STB"@);
        assert("AUX"@.len() != "GAME"@.len());
        assert("AUX"@ != "GAME"@);
        assert("DISPLAY"@.len() != "TUNER"@.len());
        assert("DISPLAY"@ != "TUNER"@);
        assert("DISPLAY"@.len() != "TUNERDAB"@.len());
        assert("DISPLAY"@ != "TUNERDAB"@);
        assert("DISPLAY"@.len() != "NET"@.len());
        assert("DISPLAY"@ != "NET"@);
        assert("DISPLAY"@.len() != "USB"@.len());
        assert("DISPLAY"@ != "USB"@);
        assert("DISPLAY"@.len() != "STB"@.len());
        assert("DISPLAY"@ != "STB"@);
        assert("DISPLAY"@.len() != "GAME"@.len());
        assert("DISPLAY"@ != "GAME"@);
        assert("TUNER"@.len() != "TUNERDAB"@.len());
        assert("TUNER"@ != "TUNERDAB"@);
        assert("TUNER"@.len() != "NET"@.len());
        assert("TUNER"@ != "NET"@);
        assert("TUNER"@.len() != "USB"@.len());
        assert("TUNER"@ != "USB"@);
        assert("TUNER"@.len() != "STB"@.len());
        assert("TUNER"@ != "STB"@);
        assert("TUNER"@.len() != "GAME"@.len());
        assert("TUNER"@ != "GAME"@);
        assert("TUNERDAB"@.len() != "NET"@.len());
        assert("TUNERDAB"@ != "NET"@);
        assert("TUNERDAB"@.len() != "USB"@.len());
        assert("TUNERDAB"@ != "USB"@);
        assert("TUNERDAB"@.len() != "STB"@.len());
        assert("TUNERDAB"@ != "STB"@);
        assert("TUNERDAB"@.len() != "GAME"@.len());
        assert("TUNERDAB"@ != "GAME"@);
        assert("NET"@[0] != "USB"@[0]);
        assert("NET"@ != "USB"@);
        assert("NET"@[0] != "STB"@[0]);
        assert("NET"@ != "STB"@);
        assert("NET"@.len() != "GAME"@.len());
        assert("NET"@ != "GAME"@);
        assert("USB"@[0] != "STB"@[0]);
        assert("USB"@ != "STB"@);
        assert("USB"@.len() != "GAME"@.len());
        assert("USB"@ != "GAME"@);
        assert("STB"@.len() != "GAME"@.len());
        assert("STB"@ != "GAME"@);
        match x {
            Source::FollowZone1 => {},
            Source::CD => {},
            Source::BD => {},
            Source::AV => {},
            Source::SAT => {},
            Source::PVR => {},
            Source::VCR => {},
            Source::AUX => {},
            Source::DISPLAY => {},
            Source::TUNER => {},
            Source::TUNERDAB => {},
            Source::NET => {},
            Source::USB => {},
            Source::STB => {},
            Source::GAME => {},
        }
    }
}

impl From<bool> for PowerState {
    fn from(b: bool) -> (r: Self) {
        if b {
            PowerState::On
        } else {
            PowerState::Standby
        }
    }
}

impl FromSpecImpl<bool> for PowerState {
    open spec fn obeys_from_spec() -> bool {
        true
    }

    open spec fn from_spec(b: bool) -> Self {
        if b {
            PowerState::On
        } else {
            PowerState::Standby
        }
    }
}

impl From<PowerState> for bool {
    fn from(p: PowerState) -> (r: bool) {
        p == PowerState::On
    }
}

impl FromSpecImpl<PowerState> for bool {
    open spec fn obeys_from_spec() -> bool {
        true
    }

    open spec fn from_spec(p: PowerState) -> bool {
        p == PowerState::On
    }
}

impl From<bool> for MuteState {
    fn from(b: bool) -> (r: Self) {
        if b {
            MuteState::Muted
        } else {
            MuteState::NotMuted
        }
    }
}

impl FromSpecImpl<bool> for MuteState {
    open spec fn obeys_from_spec() -> bool {
        true
    }

    open spec fn from_spec(b: bool) -> Self {
        if b {
            MuteState::Muted
        } else {
            MuteState::NotMuted
        }
    }
}

impl From<MuteState> for bool {
    fn from(m: MuteState) -> (r: bool) {
        m == MuteState::Muted
    }
}

impl FromSpecImpl<MuteState> for bool {
    open spec fn obeys_from_spec() -> bool {
        true
    }

    open spec fn from_spec(m: MuteState) -> bool {
        m == MuteState::Muted
    }
}

/// Turning a bool into a power state and back gives the bool back, and the other way round.
pub proof fn lemma_power_bool_round_trip(b: bool, p: PowerState)
    ensures
        <bool as FromSpec<PowerState>>::from_spec(
            <PowerState as FromSpec<bool>>::from_spec(b),
        ) == b,
        <PowerState as FromSpec<bool>>::from_spec(
            <bool as FromSpec<PowerState>>::from_spec(p),
        ) == p,
{
}

/// Turning a bool into a mute state and back gives the bool back, and the other way round.
pub proof fn lemma_mute_bool_round_trip(b: bool, m: MuteState)
    ensures
        <bool as FromSpec<MuteState>>::from_spec(
            <MuteState as FromSpec<bool>>::from_spec(b),
        ) == b,
        <MuteState as FromSpec<bool>>::from_spec(
            <bool as FromSpec<MuteState>>::from_spec(m),
        ) == m,
{
}

/// The error given for a buffer that does not (yet) hold a whole packet.
pub const INSUFFICIENT_BYTES: &'static str = "Insufficient bytes to form a packet.";

/// The error given for a buffer whose first byte is not [PACKET_START].
pub const NO_START_MARKER: &'static str = "First byte is not the start of packet marker.";

/// The error given for a packet whose last byte is not [PACKET_END].
pub const NO_END_MARKER: &'static str = "Final byte is not the end of packet marker.";

/// The error given when creating a request with more than 255 bytes of data.
pub const REQUEST_DATA_TOO_LONG: &'static str = "Cannot have more than 255 bytes as data.";

/// The error given when creating a response with more than 255 bytes of data.
pub const RESPONSE_DATA_TOO_LONG: &'static str = "data is too long for a response.";

/// Why a buffer does not start with a complete packet.
#[derive(Clone, Copy, Debug, PartialEq, Eq, Structural)]
pub enum PacketError {
    /// The buffer ends before the packet does.
    InsufficientBytes,
    /// The first byte is not [PACKET_START].
    NoStartMarker,
    /// The byte after the data is not [PACKET_END].
    NoEndMarker,
}

impl PacketError {
    /// The text that the parsers give for this error.
    pub open spec fn spec_message(self) -> Seq<char> {
        match self {
            PacketError::InsufficientBytes => INSUFFICIENT_BYTES@,
            PacketError::NoStartMarker => NO_START_MARKER@,
            PacketError::NoEndMarker => NO_END_MARKER@,
        }
    }

    /// The text that the parsers give for this error.
    pub fn message(self) -> (r: &'static str)
        ensures
            r@ == self.spec_message(),
    {
        match self {
            PacketError::InsufficientBytes => INSUFFICIENT_BYTES,
            PacketError::NoStartMarker => NO_START_MARKER,
            PacketError::NoEndMarker => NO_END_MARKER,
        }
    }
}

/// How a packet lies at the start of a buffer, for packets with `header_len` bytes before
/// their data, the last of which is the data length: the data length where the buffer starts
/// with a whole packet, else why it does not.
pub open spec fn framing(buffer: Seq<u8>, header_len: int) -> Result<u8, PacketError> {
    if buffer.len() < header_len + 1 {
        Err(PacketError::InsufficientBytes)
    } else if buffer[0] != PACKET_START {
        Err(PacketError::NoStartMarker)
    } else {
        let dl = buffer[header_len - 1];
        if header_len + dl >= buffer.len() {
            Err(PacketError::InsufficientBytes)
        } else if buffer[header_len + dl] != PACKET_END {
            Err(PacketError::NoEndMarker)
        } else {
            Ok(dl)
        }
    }
}

/// The framing of packets with `header_len` bytes before their data, computed.
fn check_framing(buffer: &[u8], header_len: usize) -> (r: Result<u8, PacketError>)
    requires
        1 <= header_len <= 5,
    ensures
        r == framing(buffer@, header_len as int),
{
    let packet_length = buffer.len();
    if packet_length < header_len + 1 {
        return Err(PacketError::InsufficientBytes);
    }
    if buffer[0] != PACKET_START {
        return Err(PacketError::NoStartMarker);
    }
    let dl = buffer[header_len - 1];
    let end_index = header_len + dl as usize;
    if end_index >= packet_length {
        return Err(PacketError::InsufficientBytes);
    }
    if buffer[end_index] != PACKET_END {
        return Err(PacketError::NoEndMarker);
    }
    Ok(dl)
}

/// A copy of `buffer[start..start + len]`.
fn copy_bytes(buffer: &[u8], start: usize, len: usize) -> (r: Vec<u8>)
    requires
        start + len <= buffer@.len(),
    ensures
        r@ == buffer@.subrange(start as int, start + len),
{
    let mut data: Vec<u8> = Vec::new();
    let n = buffer.len();
    let mut i: usize = 0;
    while i < len
        invariant
            i <= len,
            n == buffer@.len(),
            start + len <= buffer@.len(),
            data@ == buffer@.subrange(start as int, start + i),
        decreases len - i,
    {
        data.push(buffer[start + i]);
        i = i + 1;
    }
    data
}

/// `prefix` followed by `data` and [PACKET_END].
fn frame_packet(prefix: Vec<u8>, data: &Vec<u8>) -> (r: Vec<u8>)
    ensures
        r@ == prefix@ + data@ + seq![PACKET_END],
{
    let mut result = prefix;
    let mut i: usize = 0;
    while i < data.len()
        invariant
            i <= data@.len(),
            result@ == prefix@ + data@.subrange(0, i as int),
        decreases data@.len() - i,
    {
        result.push(data[i]);
        i = i + 1;
    }
    result.push(PACKET_END);
    result
}

/// The bytes of a request packet.
pub open spec fn request_packet(zone: ZoneNumber, cc: Command, data: Seq<u8>) -> Seq<u8> {
    seq![PACKET_START, zone.code(), cc.code(), data.len() as u8] + data + seq![PACKET_END]
}

/// The buffer does not start with a start marker followed by an unknown zone or command: the
/// cases on which the request parser has no value to give.
pub open spec fn request_header_known(buffer: Seq<u8>) -> bool {
    buffer.len() >= 5 && buffer[0] == PACKET_START ==> {
        &&& ZoneNumber::from_code(buffer[1]) is Some
        &&& Command::from_code(buffer[2]) is Some
    }
}

/// The request at the start of a buffer, with the number of bytes it takes, or why there
/// is none.
pub open spec fn parse_request(buffer: Seq<u8>) -> Result<
    (ZoneNumber, Command, Seq<u8>, int),
    PacketError,
> {
    match framing(buffer, 4) {
        Err(e) => Err(e),
        Ok(dl) => Ok(
            (
                ZoneNumber::from_code(buffer[1]).unwrap(),
                Command::from_code(buffer[2]).unwrap(),
                buffer.subrange(4, 4 + dl),
                5 + dl,
            ),
        ),
    }
}

/// The bytes of a data field as `Debug` writes a list of them, without the brackets: each
/// in decimal, with a comma and a space between two of them.
pub open spec fn byte_list(data: Seq<u8>) -> Seq<char>
    decreases data.len(),
{
    if data.len() == 0 {
        Seq::empty()
    } else if data.len() == 1 {
        decimal(data[0] as nat)
    } else {
        byte_list(data.drop_last()) + ", "@ + decimal(data.last() as nat)
    }
}

/// The bytes of a data field as `Debug` writes a list of them.
pub open spec fn bytes_debug(data: Seq<u8>) -> Seq<char> {
    "["@ + byte_list(data) + "]"@
}

/// The packets whose description can be written: those of a remote control command whose data
/// is the pair of a command, and those of a current source, unless a query, whose data is the
/// code of a source.
pub open spec fn packet_describable(cc: Command, data: Seq<u8>) -> bool {
    if cc == Command::SimulateRC5IRCommand {
        data.len() == 2 && RC5Command::decoded((data[0], data[1])) is Some
    } else if data.len() == 1 && data[0] == REQUEST_QUERY {
        true
    } else if cc == Command::RequestCurrentSource {
        data.len() == 1 && Source::from_code(data[0]) is Some
    } else {
        true
    }
}

/// The field that the description of a packet adds after its data: the remote control
/// command, the query, or the source, where the packet holds one.
pub open spec fn packet_extra_field(cc: Command, data: Seq<u8>) -> Seq<char> {
    if cc == Command::SimulateRC5IRCommand {
        ", rc5command: "@ + RC5Command::decoded((data[0], data[1])).unwrap().spec_name()
    } else if data.len() == 1 && data[0] == REQUEST_QUERY {
        ", value: \"RequestQuery\""@
    } else if cc == Command::RequestCurrentSource {
        ", value: "@ + Source::from_code(data[0]).unwrap().label()
    } else {
        Seq::empty()
    }
}

/// Whether the description of a packet with this command and data can be written; see
/// [packet_describable].
pub fn packet_is_describable(cc: Command, data: &Vec<u8>) -> (r: bool)
    ensures
        r == packet_describable(cc, data@),
{
    if cc == Command::SimulateRC5IRCommand {
        data.len() == 2 && RC5Command::decode((data[0], data[1])).is_some()
    } else if data.len() == 1 && data[0] == REQUEST_QUERY {
        true
    } else if cc == Command::RequestCurrentSource {
        data.len() == 1 && Source::from_u8(data[0]).is_some()
    } else {
        true
    }
}

/// Append the bytes of a data field as `Debug` writes a list of them.
fn append_bytes_debug(text: &mut String, data: &Vec<u8>)
    ensures
        final(text)@ == old(text)@ + bytes_debug(data@),
{
    let ghost start = text@;
    text.append("[");
    let mut i: usize = 0;
    while i < data.len()
        invariant
            i <= data@.len(),
            text@ == start + "["@ + byte_list(data@.take(i as int)),
        decreases data@.len() - i,
    {
        let ghost before = text@;
        if i > 0 {
            text.append(", ");
        }
        let digits = decimal_string(data[i]);
        text.append(digits.as_str());
        proof {
            let taken = data@.take(i + 1);
            assert(taken.drop_last() =~= data@.take(i as int));
            assert(taken.last() == data@[i as int]);
            if i == 0 {
                assert(data@.take(0) =~= Seq::<u8>::empty());
                assert(byte_list(data@.take(0)) =~= Seq::<char>::empty());
                assert(text@ =~= start + "["@ + byte_list(taken));
            } else {
                assert(text@ =~= start + "["@ + byte_list(taken));
            }
        }
        i = i + 1;
    }
    assert(data@.take(data@.len() as int) =~= data@);
    text.append("]");
    assert(text@ =~= start + bytes_debug(data@));
}

/// Append the field that the description of a packet adds after its data.
fn append_extra_field(text: &mut String, cc: Command, data: &Vec<u8>)
    requires
        packet_describable(cc, data@),
    ensures
        final(text)@ == old(text)@ + packet_extra_field(cc, data@),
{
    if cc == Command::SimulateRC5IRCommand {
        text.append(", rc5command: ");
        text.append(RC5Command::from_data((data[0], data[1])).name());
    } else if data.len() == 1 && data[0] == REQUEST_QUERY {
        text.append(", value: \"RequestQuery\"");
    } else if cc == Command::RequestCurrentSource {
        text.append(", value: ");
        text.append(Source::from_u8(data[0]).unwrap().label_string().as_str());
    } else {
        assert(packet_extra_field(cc, data@) =~= Seq::<char>::empty());
    }
}

/// A request to the amplifier.
#[derive(Clone, Debug, PartialEq, Eq)]
pub struct Request {
    pub zone: ZoneNumber,
    pub cc: Command,
    pub data: Vec<u8>,
}

impl Request {
    /// Create a new request.
    ///
    /// The data value is restricted to being at most 255 bytes long.
    pub fn new(zone: ZoneNumber, cc: Command, data: Vec<u8>) -> (r: Result<Self, &'static str>)
        ensures
            r is Ok <==> data@.len() <= 255,
            r matches Ok(request) ==> request.zone == zone && request.cc == cc
                && request.data@ == data@,
            r matches Err(e) ==> e@ == REQUEST_DATA_TOO_LONG@,
    {
        if data.len() > 255 {
            Err(REQUEST_DATA_TOO_LONG)
        } else {
            Ok(Self { zone, cc, data })
        }
    }

    /// Return the byte sequence representing this request.
    ///
    /// All requests are structured:
    ///
    /// - St (Start transmission): PACKET_START
    /// - Zn (Zone number): 0x1, 0x2 for the zone number
    /// - Cc (Command code): the code for the command
    /// - Dl (Data Length): the number of data items following this item, excluding the Et
    /// - Data: the parameters for the response of length n. n is limited to 255
    /// - Et (End transmission): PACKET_END
    pub fn to_bytes(&self) -> (r: Vec<u8>)
        requires
            self.data@.len() <= 255,
        ensures
            r@ == request_packet(self.zone, self.cc, self.data@),
    {
        let dl = self.data.len();
        let prefix = vec![PACKET_START, self.zone.to_u8(), self.cc.to_u8(), dl as u8];
        frame_packet(prefix, &self.data)
    }

    /// Whether the request parser has a value to give for the buffer, that is, whether the
    /// buffer does not start with a start marker followed by an unknown zone or command.
    pub fn header_is_known(buffer: &[u8]) -> (b: bool)
        ensures
            b == request_header_known(buffer@),
    {
        if buffer.len() >= 5 && buffer[0] == PACKET_START {
            ZoneNumber::from_u8(buffer[1]).is_some() && Command::from_u8(buffer[2]).is_some()
        } else {
            true
        }
    }

    /// Parse the bytes in the buffer to create a tuple representing a request and the
    /// number of bytes used for the request packet.
    pub fn parse_bytes(buffer: &[u8]) -> (r: Result<(Self, usize), &'static str>)
        requires
            request_header_known(buffer@),
        ensures
            match parse_request(buffer@) {
                Ok((zone, cc, data, n)) => r matches Ok((request, m)) && request.zone == zone
                    && request.cc == cc && request.data@ == data && m == n,
                Err(e) => r matches Err(s) && s@ == e.spec_message(),
            },
    {
        match check_framing(buffer, 4) {
            Err(e) => Err(e.message()),
            Ok(dl) => {
                let zone = ZoneNumber::from_u8(buffer[1]).unwrap();
                let cc = Command::from_u8(buffer[2]).unwrap();
                let data = copy_bytes(buffer, 4, dl as usize);
                Ok((Self { zone, cc, data }, 5 + dl as usize))
            },
        }
    }
}

/// Parsing the bytes of a request, followed by anything, gives back the request and the
/// length of its bytes.
pub proof fn lemma_request_round_trip(zone: ZoneNumber, cc: Command, data: Seq<u8>, rest: Seq<u8>)
    requires
        data.len() <= 255,
    ensures
        request_header_known(request_packet(zone, cc, data) + rest),
        parse_request(request_packet(zone, cc, data) + rest) == Ok::<_, PacketError>(
            (zone, cc, data, data.len() + 5 as int),
        ),
{
    let buffer = request_packet(zone, cc, data) + rest;
    ZoneNumber::lemma_code_decodes(zone);
    Command::lemma_code_decodes(cc);
    assert(buffer[1] == zone.code());
    assert(buffer[2] == cc.code());
    assert(buffer[3] == data.len());
    assert(buffer[4 + data.len() as int] == PACKET_END);
    assert(buffer.subrange(4, 4 + data.len() as int) =~= data);
}

/// A request that the parser finds at the start of a buffer is one whose bytes are the start
/// of the buffer.
pub proof fn lemma_request_parse_inverse(buffer: Seq<u8>)
    requires
        request_header_known(buffer),
    ensures
        parse_request(buffer) matches Ok((zone, cc, data, n)) ==> {
            &&& data.len() <= 255
            &&& n <= buffer.len()
            &&& request_packet(zone, cc, data) == buffer.subrange(0, n)
        },
{
    if let Ok((zone, cc, data, n)) = parse_request(buffer) {
        ZoneNumber::lemma_decoded_code(buffer[1]);
        Command::lemma_decoded_code(buffer[2]);
        assert(request_packet(zone, cc, data) =~= buffer.subrange(0, n));
    }
}

/// The bytes of a response packet.
pub open spec fn response_packet(zone: ZoneNumber, cc: Command, ac: AnswerCode, data: Seq<u8>) -> Seq<u8> {
    seq![PACKET_START, zone.code(), cc.code(), ac.code(), data.len() as u8] + data + seq![PACKET_END]
}

/// The buffer does not start with a start marker followed by an unknown zone, command or answer
/// code: the cases on which the response parser has no value to give.
pub open spec fn response_header_known(buffer: Seq<u8>) -> bool {
    buffer.len() >= 6 && buffer[0] == PACKET_START ==> {
        &&& ZoneNumber::from_code(buffer[1]) is Some
        &&& Command::from_code(buffer[2]) is Some
        &&& AnswerCode::from_code(buffer[3]) is Some
    }
}

/// The response at the start of a buffer, with the number of bytes it takes, or why there
/// is none.
pub open spec fn parse_response(buffer: Seq<u8>) -> Result<
    (ZoneNumber, Command, AnswerCode, Seq<u8>, int),
    PacketError,
> {
    match framing(buffer, 5) {
        Err(e) => Err(e),
        Ok(dl) => Ok(
            (
                ZoneNumber::from_code(buffer[1]).unwrap(),
                Command::from_code(buffer[2]).unwrap(),
                AnswerCode::from_code(buffer[3]).unwrap(),
                buffer.subrange(5, 5 + dl),
                6 + dl,
            ),
        ),
    }
}

/// A response from the amplifier.
#[derive(Clone, Debug, PartialEq, Eq)]
pub struct Response {
    pub zone: ZoneNumber,
    pub cc: Command,
    pub ac: AnswerCode,
    pub data: Vec<u8>,
}

impl Response {
    /// Create a new response.
    ///
    /// The data value is restricted to being at most 255 bytes long.
    pub fn new(zone: ZoneNumber, cc: Command, ac: AnswerCode, data: Vec<u8>) -> (r: Result<
        Self,
        &'static str,
    >)
        ensures
            r is Ok <==> data@.len() <= 255,
            r matches Ok(response) ==> response.zone == zone && response.cc == cc
                && response.ac == ac && response.data@ == data@,
            r matches Err(e) ==> e@ == RESPONSE_DATA_TOO_LONG@,
    {
        if data.len() > 255 {
            Err(RESPONSE_DATA_TOO_LONG)
        } else {
            Ok(Self { zone, cc, ac, data })
        }
    }

    /// Return the byte sequence representing this response.
    ///
    /// All responses are structured:
    ///
    /// - St (Start transmission): PACKET_START
    /// - Zn (Zone number): 0x1, 0x2 for the zone number
    /// - Cc (Command code): the code for the command
    /// - Ac (Answer code): the answer code for the request
    /// - Dl (Data Length): the number of data items following this item, excluding the Et
    /// - Data: the parameters for the response of length n. n is limited to 255
    /// - Et (End transmission): PACKET_END
    pub fn to_bytes(&self) -> (r: Vec<u8>)
        requires
            self.data@.len() <= 255,
        ensures
            r@ == response_packet(self.zone, self.cc, self.ac, self.data@),
    {
        let dl = self.data.len();
        let prefix = vec![PACKET_START, self.zone.to_u8(), self.cc.to_u8(), self.ac.to_u8(), dl as u8];
        frame_packet(prefix, &self.data)
    }

    /// Whether the response parser has a value to give for the buffer, that is, whether the
    /// buffer does not start with a start marker followed by an unknown zone, command or
    /// answer code.
    pub fn header_is_known(buffer: &[u8]) -> (b: bool)
        ensures
            b == response_header_known(buffer@),
    {
        if buffer.len() >= 6 && buffer[0] == PACKET_START {
            ZoneNumber::from_u8(buffer[1]).is_some() && Command::from_u8(buffer[2]).is_some()
                && AnswerCode::from_u8(buffer[3]).is_some()
        } else {
            true
        }
    }

    /// Parse the bytes in the buffer to create a tuple representing a response and the
    /// number of bytes used for the response packet.
    pub fn parse_bytes(buffer: &[u8]) -> (r: Result<(Self, usize), &'static str>)
        requires
            response_header_known(buffer@),
        ensures
            match parse_response(buffer@) {
                Ok((zone, cc, ac, data, n)) => r matches Ok((response, m)) && response.zone
                    == zone && response.cc == cc && response.ac == ac && response.data@ == data
                    && m == n,
                Err(e) => r matches Err(s) && s@ == e.spec_message(),
            },
    {
        match Self::parse_packet(buffer) {
            Err(e) => Err(e.message()),
            Ok(parsed) => Ok(parsed),
        }
    }

    /// The response at the start of the buffer with the number of bytes it takes, or why
    /// there is none.
    pub(crate) fn parse_packet(buffer: &[u8]) -> (r: Result<(Self, usize), PacketError>)
        requires
            response_header_known(buffer@),
        ensures
            match parse_response(buffer@) {
                Ok((zone, cc, ac, data, n)) => r matches Ok((response, m)) && response.zone
                    == zone && response.cc == cc && response.ac == ac && response.data@ == data
                    && m == n,
                Err(e) => r == Err::<(Self, usize), PacketError>(e),
            },
    {
        match check_framing(buffer, 5) {
            Err(e) => Err(e),
            Ok(dl) => {
                let zone = ZoneNumber::from_u8(buffer[1]).unwrap();
                let cc = Command::from_u8(buffer[2]).unwrap();
                let ac = AnswerCode::from_u8(buffer[3]).unwrap();
                let data = copy_bytes(buffer, 5, dl as usize);
                Ok((Self { zone, cc, ac, data }, 6 + dl as usize))
            },
        }
    }
}

/// Parsing the bytes of a response, followed by anything, gives back the response and the
/// length of its bytes.
pub proof fn lemma_response_round_trip(
    zone: ZoneNumber,
    cc: Command,
    ac: AnswerCode,
    data: Seq<u8>,
    rest: Seq<u8>,
)
    requires
        data.len() <= 255,
    ensures
        response_header_known(response_packet(zone, cc, ac, data) + rest),
        parse_response(response_packet(zone, cc, ac, data) + rest) == Ok::<_, PacketError>(
            (zone, cc, ac, data, data.len() + 6 as int),
        ),
{
    let buffer = response_packet(zone, cc, ac, data) + rest;
    ZoneNumber::lemma_code_decodes(zone);
    Command::lemma_code_decodes(cc);
    AnswerCode::lemma_code_decodes(ac);
    assert(buffer[1] == zone.code());
    assert(buffer[2] == cc.code());
    assert(buffer[3] == ac.code());
    assert(buffer[4] == data.len());
    assert(buffer[5 + data.len() as int] == PACKET_END);
    assert(buffer.subrange(5, 5 + data.len() as int) =~= data);
}

/// A response that the parser finds at the start of a buffer is one whose bytes are the start
/// of the buffer.
pub proof fn lemma_response_parse_inverse(buffer: Seq<u8>)
    requires
        response_header_known(buffer),
    ensures
        parse_response(buffer) matches Ok((zone, cc, ac, data, n)) ==> {
            &&& data.len() <= 255
            &&& n <= buffer.len()
            &&& response_packet(zone, cc, ac, data) == buffer.subrange(0, n)
        },
{
    if let Ok((zone, cc, ac, data, n)) = parse_response(buffer) {
        ZoneNumber::lemma_decoded_code(buffer[1]);
        Command::lemma_decoded_code(buffer[2]);
        AnswerCode::lemma_decoded_code(buffer[3]);
        assert(response_packet(zone, cc, ac, data) =~= buffer.subrange(0, n));
    }
}

impl Request {
    /// The description of this request as the log shows it: its fields, and the remote
    /// control command, the query or the source that it holds.
    pub open spec fn description(self) -> Seq<char> {
        "Request { zone: "@ + self.zone.spec_name() + ", cc: "@ + self.cc.spec_name() + ", data: "@
            + bytes_debug(self.data@) + packet_extra_field(self.cc, self.data@) + " }"@
    }

    /// The description of this request as the log shows it; see [Request::description].
    pub fn debug_text(&self) -> (r: String)
        requires
            packet_describable(self.cc, self.data@),
        ensures
            r@ == self.description(),
    {
        let mut text = String::from_str("Request { zone: ");
        text.append(self.zone.name());
        text.append(", cc: ");
        text.append(self.cc.name());
        text.append(", data: ");
        append_bytes_debug(&mut text, &self.data);
        append_extra_field(&mut text, self.cc, &self.data);
        text.append(" }");
        text
    }
}

impl Response {
    /// The description of this response as the log shows it: its fields, and the remote
    /// control command, the query or the source that it holds.
    pub open spec fn description(self) -> Seq<char> {
        "Response { zone: "@ + self.zone.spec_name() + ", cc: "@ + self.cc.spec_name() + ", ac: "@
            + self.ac.spec_name() + ", data: "@ + bytes_debug(self.data@) + packet_extra_field(
            self.cc,
            self.data@,
        ) + " }"@
    }

    /// The description of this response as the log shows it; see [Response::description].
    pub fn debug_text(&self) -> (r: String)
        requires
            packet_describable(self.cc, self.data@),
        ensures
            r@ == self.description(),
    {
        let mut text = String::from_str("Response { zone: ");
        text.append(self.zone.name());
        text.append(", cc: ");
        text.append(self.cc.name());
        text.append(", ac: ");
        text.append(self.ac.name());
        text.append(", data: ");
        append_bytes_debug(&mut text, &self.data);
        append_extra_field(&mut text, self.cc, &self.data);
        text.append(" }");
        text
    }
}

/// The text that the user interface shows for each brightness, power state, mute state and
/// source is the one the user chooses it by: for a source, its name in the protocol's table.
pub proof fn lemma_user_interface_labels()
    ensures
        Brightness::Off.label() == "Off"@,
        Brightness::Level1.label() == "Level1"@,
        Brightness::Level2.label() == "Level2"@,
        PowerState::Standby.label() == "Standby"@,
        PowerState::On.label() == "On"@,
        MuteState::Muted.label() == "Muted"@,
        MuteState::NotMuted.label() == "Not Muted"@,
        Source::FollowZone1.label() == "FollowZone1"@,
        Source::CD.label() == "CD"@,
        Source::BD.label() == "BD"@,
        Source::AV.label() == "AV"@,
        Source::SAT.label() == "SAT"@,
        Source::PVR.label() == "PVR"@,
        Source::VCR.label() == "VCR"@,
        Source::AUX.label() == "AUX"@,
        Source::DISPLAY.label() == "DISPLAY"@,
        Source::TUNER.label() == "TUNER"@,
        Source::TUNERDAB.label() == "TUNERDAB"@,
        Source::NET.label() == "NET"@,
        Source::USB.label() == "USB"@,
        Source::STB.label() == "STB"@,
        Source::GAME.label() == "GAME"@,
{
}

} // verus!
