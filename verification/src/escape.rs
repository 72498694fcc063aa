use vstd::prelude::*;

use crate::text::{lower_of, lowercase};

verus! {

/// Different types of IRC colour escape.
#[derive(Clone, Copy, Debug)]
pub enum EscapeType {
    /// Emit control characters.
    Control,
    /// Emit InspIRCd config escape characters.
    InspConfig,
    /// Emit InspIRCd MOTD escape characters.
    InspMOTD,
}

/// The prefix that switches to an indexed foreground/background colour.
pub open spec fn colour_prefix_seq(e: EscapeType) -> Seq<char> {
    match e {
        EscapeType::Control => "\x03"@,
        EscapeType::InspConfig => "&irc.colour;"@,
        EscapeType::InspMOTD => "\\c"@,
    }
}

/// The prefix that switches to a direct hexadecimal colour.
pub open spec fn hex_prefix_seq(e: EscapeType) -> Seq<char> {
    match e {
        EscapeType::Control => "\x04"@,
        EscapeType::InspConfig => "&irc.hexcolour;"@,
        EscapeType::InspMOTD => "\\h"@,
    }
}

/// The sequence that resets all formatting.
pub open spec fn reset_seq(e: EscapeType) -> Seq<char> {
    match e {
        EscapeType::Control => "\x0F"@,
        EscapeType::InspConfig => "&irc.reset;"@,
        EscapeType::InspMOTD => "\\x"@,
    }
}

/// The lower-cased names accepted by `EscapeType::from_str`.
pub open spec fn escape_type_of(t: Seq<char>) -> Option<EscapeType> {
    if t == "control"@ {
        Some(EscapeType::Control)
    } else if t == "insp-config"@ {
        Some(EscapeType::InspConfig)
    } else if t == "insp-motd"@ {
        Some(EscapeType::InspMOTD)
    } else {
        None
    }
}

/// The display name of an escape type.
pub open spec fn escape_type_name(e: EscapeType) -> Seq<char> {
    match e {
        EscapeType::Control => "control"@,
        EscapeType::InspConfig => "insp-config"@,
        EscapeType::InspMOTD => "insp-motd"@,
    }
}

impl EscapeType {
    /// Retrieves the colour sequence for this type.
    pub fn colour(&self) -> (r: &'static str)
        ensures
            r@ == colour_prefix_seq(*self),
    {
        match self {
            EscapeType::Control => "\x03",
            EscapeType::InspConfig => "&irc.colour;",
            EscapeType::InspMOTD => "\\c",
        }
    }

    /// Retrieves the hex colour sequence for this type.
    pub fn hex_colour(&self) -> (r: &'static str)
        ensures
            r@ == hex_prefix_seq(*self),
    {
        match self {
            EscapeType::Control => "\x04",
            EscapeType::InspConfig => "&irc.hexcolour;",
            EscapeType::InspMOTD => "\\h",
        }
    }

    /// Retrieves the reset sequence for this type.
    pub fn reset(&self) -> (r: &'static str)
        ensures
            r@ == reset_seq(*self),
    {
        match self {
            EscapeType::Control => "\x0F",
            EscapeType::InspConfig => "&irc.reset;",
            EscapeType::InspMOTD => "\\x",
        }
    }

    /// Parses an escape type from its name, ignoring letter case.
    pub fn from_str(s: &str) -> (r: Result<EscapeType, &'static str>)
        ensures
            r is Ok <==> escape_type_of(lower_of(s@)) is Some,
            r is Ok ==> Some(r->Ok_0) == escape_type_of(lower_of(s@)),
            r is Err ==> r->Err_0@ == "valid values: control, insp-config, insp-motd"@,
    {
        let low = lowercase(s);
        if low == "control".to_owned() {
            Ok(EscapeType::Control)
        } else if low == "insp-config".to_owned() {
            Ok(EscapeType::InspConfig)
        } else if low == "insp-motd".to_owned() {
            Ok(EscapeType::InspMOTD)
        } else {
            Err("valid values: control, insp-config, insp-motd")
        }
    }

    /// The display name of this escape type.
    pub fn as_str(&self) -> (r: &'static str)
        ensures
            r@ == escape_type_name(*self),
    {
        match self {
            EscapeType::Control => "control",
            EscapeType::InspConfig => "insp-config",
            EscapeType::InspMOTD => "insp-motd",
        }
    }
}

} // verus!
