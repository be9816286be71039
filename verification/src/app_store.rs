//! `StoreKit.AppStore`: environment and platform values, and the entry point of its calls.

use vstd::prelude::*;

verus! {

/// Wraps `StoreKit.AppStore.Environment`.
#[derive(Debug, Clone, PartialEq, Eq)]
pub enum AppStoreEnvironment {
    /// The production App Store.
    Production,
    /// The sandbox.
    Sandbox,
    /// Local `StoreKit` testing in Xcode.
    Xcode,
    /// An unrecognized raw value, kept as it was received.
    Unknown(String),
}

impl View for AppStoreEnvironment {
    type V = Seq<char>;

    /// The raw `StoreKit` text of the value.
    open spec fn view(&self) -> Seq<char> {
        match self {
            AppStoreEnvironment::Production => "production"@,
            AppStoreEnvironment::Sandbox => "sandbox"@,
            AppStoreEnvironment::Xcode => "xcode"@,
            AppStoreEnvironment::Unknown(value) => value@,
        }
    }
}

impl AppStoreEnvironment {
    /// `true` when the raw text names a known case.
    pub open spec fn is_known_text(text: Seq<char>) -> bool {
        text == "production"@ || text == "sandbox"@ || text == "xcode"@
    }

    /// A value is canonical when `Unknown` only holds text that names no known case.
    pub open spec fn is_canonical(&self) -> bool {
        match self {
            AppStoreEnvironment::Unknown(value) => !Self::is_known_text(value@),
            _ => true,
        }
    }

    /// The value that `from_raw` builds from `raw`.
    pub open spec fn spec_from_raw(raw: String) -> Self {
        if raw@ == "production"@ {
            AppStoreEnvironment::Production
        } else if raw@ == "sandbox"@ {
            AppStoreEnvironment::Sandbox
        } else if raw@ == "xcode"@ {
            AppStoreEnvironment::Xcode
        } else {
            AppStoreEnvironment::Unknown(raw)
        }
    }

    /// Returns the raw `StoreKit` text for this value.
    pub fn as_str(&self) -> (s: &str)
        ensures
            s@ == self@,
    {
        match self {
            AppStoreEnvironment::Production => "production",
            AppStoreEnvironment::Sandbox => "sandbox",
            AppStoreEnvironment::Xcode => "xcode",
            AppStoreEnvironment::Unknown(value) => value.as_str(),
        }
    }

    /// Builds a value from the raw `StoreKit` text, keeping unrecognized text in `Unknown`.
    pub fn from_raw(raw: String) -> (r: Self)
        ensures
            r == Self::spec_from_raw(raw),
            r@ == raw@,
            r.is_canonical(),
    {
        if crate::text::text_eq(raw.as_str(), "production") {
            AppStoreEnvironment::Production
        } else if crate::text::text_eq(raw.as_str(), "sandbox") {
            AppStoreEnvironment::Sandbox
        } else if crate::text::text_eq(raw.as_str(), "xcode") {
            AppStoreEnvironment::Xcode
        } else {
            AppStoreEnvironment::Unknown(raw)
        }
    }

    /// Reading a value back as text gives the text it was built from, and the value is canonical.
    pub proof fn raw_text_round_trip(raw: String)
        ensures
            Self::spec_from_raw(raw)@ == raw@,
            Self::spec_from_raw(raw).is_canonical(),
    {
    }

    /// Two canonical values with the same raw text are the same case; for a known case they are equal.
    pub proof fn canonical_text_determines_value(a: Self, b: Self)
        requires
            a.is_canonical(),
            b.is_canonical(),
            a@ == b@,
        ensures
            (a is Unknown) == (b is Unknown),
            !(a is Unknown) ==> a == b,
    {
        reveal_strlit("production");
        reveal_strlit("sandbox");
        reveal_strlit("xcode");
        assert("production"@.len() != "sandbox"@.len());
        assert("production"@.len() != "xcode"@.len());
        assert("sandbox"@.len() != "xcode"@.len());
    }
}

/// The platform associated with `StoreKit.AppTransaction`.
#[derive(Debug, Clone, PartialEq, Eq)]
pub enum AppStorePlatform {
    /// iOS.
    IOS,
    /// macOS.
    MacOS,
    /// tvOS.
    TvOS,
    /// visionOS.
    VisionOS,
    /// An unrecognized raw value, kept as it was received.
    Unknown(String),
}

impl View for AppStorePlatform {
    type V = Seq<char>;

    /// The raw `StoreKit` text of the value.
    open spec fn view(&self) -> Seq<char> {
        match self {
            AppStorePlatform::IOS => "iOS"@,
            AppStorePlatform::MacOS => "macOS"@,
            AppStorePlatform::TvOS => "tvOS"@,
            AppStorePlatform::VisionOS => "visionOS"@,
            AppStorePlatform::Unknown(value) => value@,
        }
    }
}

impl AppStorePlatform {
    /// `true` when the raw text names a known case.
    pub open spec fn is_known_text(text: Seq<char>) -> bool {
        text == "iOS"@ || text == "macOS"@ || text == "tvOS"@ || text == "visionOS"@
    }

    /// A value is canonical when `Unknown` only holds text that names no known case.
    pub open spec fn is_canonical(&self) -> bool {
        match self {
            AppStorePlatform::Unknown(value) => !Self::is_known_text(value@),
            _ => true,
        }
    }

    /// The value that `from_raw` builds from `raw`.
    pub open spec fn spec_from_raw(raw: String) -> Self {
        if raw@ == "iOS"@ {
            AppStorePlatform::IOS
        } else if raw@ == "macOS"@ {
            AppStorePlatform::MacOS
        } else if raw@ == "tvOS"@ {
            AppStorePlatform::TvOS
        } else if raw@ == "visionOS"@ {
            AppStorePlatform::VisionOS
        } else {
            AppStorePlatform::Unknown(raw)
        }
    }

    /// Returns the raw `StoreKit` text for this value.
    pub fn as_str(&self) -> (s: &str)
        ensures
            s@ == self@,
    {
        match self {
            AppStorePlatform::IOS => "iOS",
            AppStorePlatform::MacOS => "macOS",
            AppStorePlatform::TvOS => "tvOS",
            AppStorePlatform::VisionOS => "visionOS",
            AppStorePlatform::Unknown(value) => value.as_str(),
        }
    }

    /// Builds a value from the raw `StoreKit` text, keeping unrecognized text in `Unknown`.
    pub fn from_raw(raw: String) -> (r: Self)
        ensures
            r == Self::spec_from_raw(raw),
            r@ == raw@,
            r.is_canonical(),
    {
        if crate::text::text_eq(raw.as_str(), "iOS") {
            AppStorePlatform::IOS
        } else if crate::text::text_eq(raw.as_str(), "macOS") {
            AppStorePlatform::MacOS
        } else if crate::text::text_eq(raw.as_str(), "tvOS") {
            AppStorePlatform::TvOS
        } else if crate::text::text_eq(raw.as_str(), "visionOS") {
            AppStorePlatform::VisionOS
        } else {
            AppStorePlatform::Unknown(raw)
        }
    }

    /// Reading a value back as text gives the text it was built from, and the value is canonical.
    pub proof fn raw_text_round_trip(raw: String)
        ensures
            Self::spec_from_raw(raw)@ == raw@,
            Self::spec_from_raw(raw).is_canonical(),
    {
    }

    /// Two canonical values with the same raw text are the same case; for a known case they are equal.
    pub proof fn canonical_text_determines_value(a: Self, b: Self)
        requires
            a.is_canonical(),
            b.is_canonical(),
            a@ == b@,
        ensures
            (a is Unknown) == (b is Unknown),
            !(a is Unknown) ==> a == b,
    {
        reveal_strlit("iOS");
        reveal_strlit("macOS");
        reveal_strlit("tvOS");
        reveal_strlit("visionOS");
        assert("iOS"@.len() != "macOS"@.len());
        assert("iOS"@.len() != "tvOS"@.len());
        assert("iOS"@.len() != "visionOS"@.len());
        assert("macOS"@.len() != "tvOS"@.len());
        assert("macOS"@.len() != "visionOS"@.len());
        assert("tvOS"@.len() != "visionOS"@.len());
    }
}

/// Helpers backed by `StoreKit.AppStore`; the calls themselves go through the bridge.
#[derive(Debug, Clone, Copy, Default)]
pub struct AppStore;

impl AppStore {
    /// Reads the bridge's answer to an age-rating request: the code when the bridge reported
    /// one.
    pub fn age_rating_from_bridge(raw_value: i64, has_value: i32) -> (r: Option<i64>)
        ensures
            r == if has_value != 0 { Some(raw_value) } else { None::<i64> },
    {
        if has_value != 0 {
            Some(raw_value)
        } else {
            None
        }
    }
}

} // verus!
