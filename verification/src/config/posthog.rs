//! PostHog error-tracking configuration.
//!
//! The API key is a secret: it is redacted from the configuration's debug
//! rendering, so it can never reach logs.

use vstd::prelude::*;

use crate::sheep::opt_view;
use crate::text::{
    chars_of, eq_ignore_ascii_case, equal_ignoring_ascii_case, option_debug, push_option_debug,
    str_debug, debug_quoted, trim, trim_bounds, copy_range,
};

verus! {

/// PostHog error-tracking configuration.
pub struct PostHogConfig {
    api_key: Option<String>,
    enabled: Enablement,
    host: Option<String>,
}

/// Whether `POSTHOG_ENABLED` asked capture to run. A malformed value is its
/// own state, kept distinct from an explicit `false` so it can never break
/// startup yet is still logged as a misconfiguration.
#[derive(Debug, PartialEq, Eq)]
pub enum Enablement {
    /// A truthy value (or the default when unset).
    On,
    /// An explicit falsey value: the operator's kill-switch.
    Off,
    /// An unparseable value; treated as disabled, carrying the raw input.
    Invalid(String),
}

/// An `Enablement` with its raw text as a character sequence.
pub enum EnablementView {
    On,
    Off,
    Invalid(Seq<char>),
}

impl View for Enablement {
    type V = EnablementView;

    open spec fn view(&self) -> EnablementView {
        match self {
            Enablement::On => EnablementView::On,
            Enablement::Off => EnablementView::Off,
            Enablement::Invalid(raw) => EnablementView::Invalid(raw@),
        }
    }
}

/// A `PostHogConfig` with its text taken as character sequences.
pub struct PostHogConfigView {
    pub api_key: Option<Seq<char>>,
    pub enabled: EnablementView,
    pub host: Option<Seq<char>>,
}

impl View for PostHogConfig {
    type V = PostHogConfigView;

    closed spec fn view(&self) -> PostHogConfigView {
        PostHogConfigView {
            api_key: opt_view(self.api_key),
            enabled: self.enabled@,
            host: opt_view(self.host),
        }
    }
}

/// The resolved settings for when error tracking should actually run.
#[derive(Debug, Clone, Copy, PartialEq, Eq)]
pub struct ActivePostHog<'a> {
    /// PostHog project API key.
    pub api_key: &'a str,
    /// Ingestion host, or `None` to use the SDK default (US).
    pub host: Option<&'a str>,
}

/// Why error tracking is not running, for an unambiguous startup log.
#[derive(Debug, PartialEq, Eq)]
pub enum DisabledReason {
    /// `POSTHOG_ENABLED=false`: the explicit kill-switch.
    Killswitch,
    /// `POSTHOG_API_KEY` is unset or blank.
    NoApiKey,
    /// `POSTHOG_ENABLED` held an unparseable value; capture is off rather
    /// than failing startup. Carries the raw value.
    InvalidEnabledValue(String),
}

/// A `DisabledReason` with its raw text as a character sequence.
pub enum DisabledReasonView {
    Killswitch,
    NoApiKey,
    InvalidEnabledValue(Seq<char>),
}

impl View for DisabledReason {
    type V = DisabledReasonView;

    open spec fn view(&self) -> DisabledReasonView {
        match self {
            DisabledReason::Killswitch => DisabledReasonView::Killswitch,
            DisabledReason::NoApiKey => DisabledReasonView::NoApiKey,
            DisabledReason::InvalidEnabledValue(raw) => DisabledReasonView::InvalidEnabledValue(raw@),
        }
    }
}

/// What the startup log says of a reason.
pub open spec fn reason_message(r: DisabledReasonView) -> Seq<char> {
    match r {
        DisabledReasonView::Killswitch => "POSTHOG_ENABLED=false"@,
        DisabledReasonView::NoApiKey => "POSTHOG_API_KEY not set"@,
        DisabledReasonView::InvalidEnabledValue(raw) => "POSTHOG_ENABLED must be one of true/false/1/0/yes/no/on/off, got "@
            + str_debug(raw) + "; treating error tracking as disabled"@,
    }
}

impl DisabledReason {
    /// Whether this reason reflects operator misconfiguration (worth a
    /// warning) rather than an intentional, expected disable.
    pub fn is_misconfiguration(&self) -> (r: bool)
        ensures
            r == self is InvalidEnabledValue,
    {
        match self {
            DisabledReason::InvalidEnabledValue(_) => true,
            _ => false,
        }
    }

    /// The human-readable reason, as the startup log prints it.
    pub fn message(&self) -> (r: String)
        ensures
            r@ == reason_message(self@),
    {
        match self {
            DisabledReason::Killswitch => "POSTHOG_ENABLED=false".to_owned(),
            DisabledReason::NoApiKey => "POSTHOG_API_KEY not set".to_owned(),
            DisabledReason::InvalidEnabledValue(raw) => {
                let mut m = "POSTHOG_ENABLED must be one of true/false/1/0/yes/no/on/off, got ".to_owned();
                m.append(debug_quoted(raw.as_str()).as_str());
                m.append("; treating error tracking as disabled");
                m
            },
        }
    }
}

/// A value that is unset or only white space counts as unset.
pub open spec fn spec_non_blank(value: Option<Seq<char>>) -> Option<Seq<char>> {
    match value {
        Some(v) => if trim(v).len() == 0 {
            None
        } else {
            Some(v)
        },
        None => None,
    }
}

/// Treats a blank or whitespace-only value as unset, without altering a
/// real one.
pub fn non_blank(value: Option<String>) -> (r: Option<String>)
    ensures
        opt_view(r) == spec_non_blank(opt_view(value)),
        r matches Some(v) ==> value == Some(v),
{
    match value {
        Some(v) => {
            let chars = chars_of(v.as_str());
            let (lo, hi) = trim_bounds(&chars);
            if lo == hi {
                None
            } else {
                Some(v)
            }
        },
        None => None,
    }
}

/// `POSTHOG_ENABLED` after trimming, compared without regard to ASCII case.
pub open spec fn spec_parse_enabled(raw: Seq<char>) -> EnablementView {
    let t = trim(raw);
    if eq_ignore_ascii_case(t, "true"@) || eq_ignore_ascii_case(t, "1"@) || eq_ignore_ascii_case(t, "yes"@)
        || eq_ignore_ascii_case(t, "on"@) {
        EnablementView::On
    } else if eq_ignore_ascii_case(t, "false"@) || eq_ignore_ascii_case(t, "0"@) || eq_ignore_ascii_case(t, "no"@)
        || eq_ignore_ascii_case(t, "off"@) {
        EnablementView::Off
    } else {
        EnablementView::Invalid(raw)
    }
}

fn is_word(t: &Vec<char>, word: &str) -> (r: bool)
    ensures
        r == eq_ignore_ascii_case(t@, word@),
{
    let w = chars_of(word);
    equal_ignoring_ascii_case(t.as_slice(), w.as_slice())
}

/// Parses `POSTHOG_ENABLED`. Accepts common truthy and falsey spellings;
/// anything else resolves to `Invalid`, treated as disabled, rather than
/// aborting the service over an additive observability flag.
pub fn parse_enabled(raw: &str) -> (r: Enablement)
    ensures
        r@ == spec_parse_enabled(raw@),
{
    let chars = chars_of(raw);
    let (lo, hi) = trim_bounds(&chars);
    let t = copy_range(&chars, lo, hi);
    if is_word(&t, "true") || is_word(&t, "1") || is_word(&t, "yes") || is_word(&t, "on") {
        Enablement::On
    } else if is_word(&t, "false") || is_word(&t, "0") || is_word(&t, "no") || is_word(&t, "off") {
        Enablement::Off
    } else {
        Enablement::Invalid(raw.to_owned())
    }
}

/// Capture runs: enabled, and a key present.
pub open spec fn spec_is_active(c: PostHogConfigView) -> bool {
    c.enabled is On && c.api_key is Some
}

/// Why capture is off: a disabling `POSTHOG_ENABLED` value (explicit or
/// malformed) takes precedence over a missing key.
pub open spec fn spec_disabled_reason(c: PostHogConfigView) -> Option<DisabledReasonView> {
    match c.enabled {
        EnablementView::Off => Some(DisabledReasonView::Killswitch),
        EnablementView::Invalid(raw) => Some(DisabledReasonView::InvalidEnabledValue(raw)),
        EnablementView::On => if c.api_key is None {
            Some(DisabledReasonView::NoApiKey)
        } else {
            None
        },
    }
}

/// How the configuration renders with `{:?}`: the API key is never shown,
/// only whether there is one.
pub open spec fn posthog_debug(c: PostHogConfigView) -> Seq<char> {
    "PostHogConfig { api_key: "@ + (if c.api_key is Some {
        "Some(\"<redacted>\")"@
    } else {
        "None"@
    }) + ", enabled: "@ + match c.enabled {
        EnablementView::On => "On"@,
        EnablementView::Off => "Off"@,
        EnablementView::Invalid(raw) => "Invalid("@ + str_debug(raw) + ")"@,
    } + ", host: "@ + option_debug(c.host) + " }"@
}

impl PostHogConfig {
    /// Builds the configuration from the values of `POSTHOG_API_KEY`,
    /// `POSTHOG_ENABLED` (default on) and `POSTHOG_HOST`. Blank values count
    /// as unset, so a blank `POSTHOG_ENABLED` leaves capture on.
    pub fn from_environment(api_key: Option<String>, enabled: Option<String>, host: Option<String>) -> (r: Self)
        ensures
            r@.api_key == spec_non_blank(opt_view(api_key)),
            r@.enabled == match spec_non_blank(opt_view(enabled)) {
                Some(raw) => spec_parse_enabled(raw),
                None => EnablementView::On,
            },
            r@.host == spec_non_blank(opt_view(host)),
    {
        let enabled = match non_blank(enabled) {
            Some(raw) => parse_enabled(raw.as_str()),
            None => Enablement::On,
        };
        PostHogConfig { api_key: non_blank(api_key), enabled, host: non_blank(host) }
    }

    /// The resolved settings when capture should run: enabled and a key
    /// present. `None` means error tracking is off.
    pub fn active(&self) -> (r: Option<ActivePostHog<'_>>)
        ensures
            r is Some <==> spec_is_active(self@),
            r matches Some(a) ==> Some(a.api_key@) == self@.api_key && match a.host {
                Some(h) => self@.host == Some(h@),
                None => self@.host is None,
            },
    {
        match self.enabled {
            Enablement::On => {},
            _ => {
                return None;
            },
        }
        let api_key = match &self.api_key {
            Some(k) => k.as_str(),
            None => {
                return None;
            },
        };
        let host = match &self.host {
            Some(h) => Some(h.as_str()),
            None => None,
        };
        Some(ActivePostHog { api_key, host })
    }

    /// Why capture is off, or `None` when it is active.
    pub fn disabled_reason(&self) -> (r: Option<DisabledReason>)
        ensures
            match r {
                Some(reason) => spec_disabled_reason(self@) == Some(reason@),
                None => spec_disabled_reason(self@) is None,
            },
    {
        match &self.enabled {
            Enablement::Off => Some(DisabledReason::Killswitch),
            Enablement::Invalid(raw) => Some(DisabledReason::InvalidEnabledValue(raw.clone())),
            Enablement::On => {
                if self.api_key.is_none() {
                    Some(DisabledReason::NoApiKey)
                } else {
                    None
                }
            },
        }
    }

    /// The configuration as `{:?}` renders it, with the API key redacted.
    pub fn redacted_debug(&self) -> (r: String)
        ensures
            r@ == posthog_debug(self@),
    {
        let mut out = "PostHogConfig { api_key: ".to_owned();
        if self.api_key.is_some() {
            out.append("Some(\"<redacted>\")");
        } else {
            out.append("None");
        }
        out.append(", enabled: ");
        match &self.enabled {
            Enablement::On => out.append("On"),
            Enablement::Off => out.append("Off"),
            Enablement::Invalid(raw) => {
                out.append("Invalid(");
                out.append(debug_quoted(raw.as_str()).as_str());
                out.append(")");
            },
        }
        out.append(", host: ");
        push_option_debug(&mut out, &self.host);
        out.append(" }");
        out
    }
}

/// A disabled-by-absence default: enabled, but with no key, so `active` is
/// `None`.
impl Default for PostHogConfig {
    fn default() -> (r: Self)
        ensures
            r@.api_key is None,
            r@.enabled is On,
            r@.host is None,
    {
        PostHogConfig { api_key: None, enabled: Enablement::On, host: None }
    }
}

/// Why capture is off, whatever the API key: an explicit `false` is the
/// kill-switch and a malformed value is reported as itself (a
/// misconfiguration), both ahead of a missing key; only an enabled
/// configuration without a key lacks the key, and an enabled one with a key
/// is not off at all.
pub proof fn lemma_disabled_reason_precedence(c: PostHogConfigView)
    ensures
        c.enabled is Off ==> spec_disabled_reason(c) == Some(DisabledReasonView::Killswitch),
        c.enabled matches EnablementView::Invalid(raw) ==> spec_disabled_reason(c) == Some(
            DisabledReasonView::InvalidEnabledValue(raw),
        ),
        c.enabled is On && c.api_key is None ==> spec_disabled_reason(c) == Some(DisabledReasonView::NoApiKey),
        c.enabled is On && c.api_key is Some ==> spec_disabled_reason(c) is None,
{
}

/// Capture is active exactly when there is no reason it is off.
pub proof fn lemma_active_iff_no_disabled_reason(c: PostHogConfigView)
    ensures
        spec_is_active(c) <==> spec_disabled_reason(c) is None,
{
}

/// The debug rendering does not depend on the API key's value: two
/// configurations that differ only in which key they hold render alike.
pub proof fn lemma_debug_hides_api_key(a: PostHogConfigView, b: PostHogConfigView)
    requires
        a.enabled == b.enabled,
        a.host == b.host,
        a.api_key is Some <==> b.api_key is Some,
    ensures
        posthog_debug(a) == posthog_debug(b),
{
}

} // verus!
