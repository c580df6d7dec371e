//! Browser identity presets: a name, the user-agent text the headers
//! carry, and the transport emulation profile the TLS layer is configured
//! with. Presets are fixed; an unknown name falls back to the default.

use crate::textfmt::str_eq;
use vstd::prelude::*;

verus! {

/// The transport emulation profile a preset selects. The transport layer
/// outside the library maps each profile to its wire-level browser
/// imitation (cipher ordering, ALPN, HTTP/2 frame shape).
#[derive(Clone, Copy, PartialEq, Eq, Structural, Debug)]
pub enum EmulationKind {
    Chrome143,
    Firefox133,
    Safari18,
}

/// Browser identity preset for TLS fingerprinting and header generation.
#[derive(Clone, Copy)]
#[derive(Debug)]
pub struct Preset {
    pub name: &'static str,
    pub user_agent: &'static str,
    pub emulation: EmulationKind,
}

/// The Chrome preset, which is also the fallback for unknown names.
pub open spec fn chrome_preset() -> Preset {
    Preset {
        name: "chrome-143",
        user_agent: "Mozilla/5.0 (Windows NT 10.0; Win64; x64) AppleWebKit/537.36 (KHTML, like Gecko) Chrome/143.0.0.0 Safari/537.36",
        emulation: EmulationKind::Chrome143,
    }
}

/// The Firefox preset.
pub open spec fn firefox_preset() -> Preset {
    Preset {
        name: "firefox-133",
        user_agent: "Mozilla/5.0 (Windows NT 10.0; Win64; x64; rv:133.0) Gecko/20100101 Firefox/133.0",
        emulation: EmulationKind::Firefox133,
    }
}

/// The Safari preset.
pub open spec fn safari_preset() -> Preset {
    Preset {
        name: "safari-18",
        user_agent: "Mozilla/5.0 (Macintosh; Intel Mac OS X 10_15_7) AppleWebKit/605.1.15 (KHTML, like Gecko) Version/18.0 Safari/605.1.15",
        emulation: EmulationKind::Safari18,
    }
}

/// The preset a name selects: Firefox and Safari under their exact
/// names, the Chrome preset for every other name.
pub open spec fn spec_preset(name: Seq<char>) -> Preset {
    if name == "firefox-133"@ {
        firefox_preset()
    } else if name == "safari-18"@ {
        safari_preset()
    } else {
        chrome_preset()
    }
}

/// Select the preset for a name; an unknown name never fails and yields
/// the Chrome preset.
pub fn get_preset(name: &str) -> (r: Preset)
    ensures
        r.name@ == spec_preset(name@).name@,
        r.user_agent@ == spec_preset(name@).user_agent@,
        r.emulation == spec_preset(name@).emulation,
{
    if str_eq(name, "firefox-133") {
        Preset {
            name: "firefox-133",
            user_agent: "Mozilla/5.0 (Windows NT 10.0; Win64; x64; rv:133.0) Gecko/20100101 Firefox/133.0",
            emulation: EmulationKind::Firefox133,
        }
    } else if str_eq(name, "safari-18") {
        Preset {
            name: "safari-18",
            user_agent: "Mozilla/5.0 (Macintosh; Intel Mac OS X 10_15_7) AppleWebKit/605.1.15 (KHTML, like Gecko) Version/18.0 Safari/605.1.15",
            emulation: EmulationKind::Safari18,
        }
    } else {
        Preset {
            name: "chrome-143",
            user_agent: "Mozilla/5.0 (Windows NT 10.0; Win64; x64) AppleWebKit/537.36 (KHTML, like Gecko) Chrome/143.0.0.0 Safari/537.36",
            emulation: EmulationKind::Chrome143,
        }
    }
}

} // verus!
