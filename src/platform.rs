use vstd::prelude::*;

verus! {

/// The class of platform the application is built for.
#[derive(PartialEq, Eq, Structural, Clone, Copy, Debug)]
pub enum PlatformClass {
    /// Traditional operating systems (Linux, macOS, Windows, ...).
    Desktop,
    /// Phone and tablet operating systems (Android, iOS).
    Mobile,
}

/// Whether a target operating system name denotes a phone or tablet system.
pub open spec fn is_mobile_os(os: Seq<char>) -> bool {
    os == "android"@ || os == "ios"@
}

/// The platform class that a target operating system name falls under.
pub open spec fn class_of_os(os: Seq<char>) -> PlatformClass {
    if is_mobile_os(os) {
        PlatformClass::Mobile
    } else {
        PlatformClass::Desktop
    }
}

impl PlatformClass {
    /// Classifies a target operating system name, as Rust spells it
    /// (`"linux"`, `"android"`, `"ios"`, ...).
    pub fn from_target_os(os: &str) -> (r: PlatformClass)
        ensures
            r == class_of_os(os@),
    {
        let name = os.to_owned();
        let android = "android".to_owned();
        let ios = "ios".to_owned();
        proof {
            reveal_strlit("android");
            reveal_strlit("ios");
        }
        if name == android || name == ios {
            PlatformClass::Mobile
        } else {
            PlatformClass::Desktop
        }
    }

    /// Whether this is the desktop class.
    pub fn is_desktop(&self) -> (r: bool)
        ensures
            r == (*self == PlatformClass::Desktop),
    {
        match self {
            PlatformClass::Desktop => true,
            PlatformClass::Mobile => false,
        }
    }
}

} // verus!
