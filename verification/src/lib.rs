//! Read-only check of a DNS resolver configuration for the Pi-hole
//! gravity-list directive.
//!
//! The resolver configuration enables ad blocking by including the
//! aggregated blocklist through the line
//! `addn-hosts=/etc/pihole/gravity.list`; commenting that line out
//! (`#addn-hosts=/etc/pihole/gravity.list`) disables it. This library
//! scans the configuration's lines, in order, for the first of the two
//! directive forms and reports the blocking status: enabled, disabled,
//! or unknown when neither form occurs or the configuration could not
//! be read at all.

use vstd::prelude::*;

verus! {

/// The blocking status reported by the check: the sole output of this
/// library.
#[derive(Clone, Copy, Debug, PartialEq, Eq, Structural)]
pub enum StatusValue {
    Enabled,
    Disabled,
    Unknown,
}

/// The directive line whose presence means ad blocking is enabled.
pub open spec fn enabled_directive() -> Seq<char> {
    "addn-hosts=/etc/pihole/gravity.list"@
}

/// The commented-out directive line, whose presence means ad blocking
/// is disabled.
pub open spec fn disabled_directive() -> Seq<char> {
    "#addn-hosts=/etc/pihole/gravity.list"@
}

/// The views of a sequence of text lines.
pub open spec fn lines_view(lines: Seq<String>) -> Seq<Seq<char>> {
    lines.map_values(|line: String| line@)
}

/// The status determined by the first directive line of `lines`:
/// `Disabled` or `Enabled` for the first line equal to one of the two
/// directive forms, `Unknown` when no line matches.
pub open spec fn gravity_status(lines: Seq<Seq<char>>) -> StatusValue
    decreases lines.len(),
{
    if lines.len() == 0 {
        StatusValue::Unknown
    } else if lines[0] == disabled_directive() {
        StatusValue::Disabled
    } else if lines[0] == enabled_directive() {
        StatusValue::Enabled
    } else {
        gravity_status(lines.drop_first())
    }
}

/// Check the configuration's lines for the gravity-list directive and
/// return the blocking status of the first matching line.
pub fn check_for_gravity(lines: &Vec<String>) -> (status: StatusValue)
    ensures
        status == gravity_status(lines_view(lines@)),
{
    let disabled: String = "#addn-hosts=/etc/pihole/gravity.list".to_owned();
    let enabled: String = "addn-hosts=/etc/pihole/gravity.list".to_owned();
    let mut i: usize = 0;
    proof {
        assert(lines_view(lines@).skip(0) =~= lines_view(lines@));
    }
    while i < lines.len()
        invariant
            i <= lines.len(),
            disabled@ == disabled_directive(),
            enabled@ == enabled_directive(),
            gravity_status(lines_view(lines@))
                == gravity_status(lines_view(lines@).skip(i as int)),
        decreases lines.len() - i,
    {
        if lines[i] == disabled {
            return StatusValue::Disabled;
        }
        if lines[i] == enabled {
            return StatusValue::Enabled;
        }
        proof {
            assert(lines_view(lines@).skip(i as int).drop_first()
                =~= lines_view(lines@).skip(i as int + 1));
        }
        i = i + 1;
    }
    StatusValue::Unknown
}

/// Determine the blocking status of an optionally available
/// configuration resource: `Unknown` when the resource could not be
/// opened at all, otherwise the status of the first directive line.
pub fn status(resource: Option<&Vec<String>>) -> (result: StatusValue)
    ensures
        (match resource {
            Option::Some(lines) => result == gravity_status(lines_view(lines@)),
            Option::None => result == StatusValue::Unknown,
        }),
{
    match resource {
        Option::Some(lines) => check_for_gravity(lines),
        Option::None => StatusValue::Unknown,
    }
}

impl StatusValue {
    /// The label this status carries in a reply.
    pub open spec fn label_view(self) -> Seq<char> {
        match self {
            StatusValue::Enabled => "enabled"@,
            StatusValue::Disabled => "disabled"@,
            StatusValue::Unknown => "unknown"@,
        }
    }

    /// The status as its reply label: `"enabled"`, `"disabled"` or
    /// `"unknown"`.
    pub fn as_str(&self) -> (label: &'static str)
        ensures
            label@ == self.label_view(),
    {
        match self {
            StatusValue::Enabled => "enabled",
            StatusValue::Disabled => "disabled",
            StatusValue::Unknown => "unknown",
        }
    }
}

/// The two directive forms are distinct lines: the commented-out form
/// carries one character more.
proof fn lemma_directives_differ()
    ensures
        enabled_directive() != disabled_directive(),
{
    reveal_strlit("addn-hosts=/etc/pihole/gravity.list");
    reveal_strlit("#addn-hosts=/etc/pihole/gravity.list");
    assert(enabled_directive().len() != disabled_directive().len());
}

/// An enabling directive with no disabling directive anywhere before it
/// makes the status `Enabled`, whatever follows it.
pub proof fn lemma_enabled_before_any_disabled(lines: Seq<Seq<char>>, i: int)
    requires
        0 <= i < lines.len(),
        lines[i] == enabled_directive(),
        forall|j: int| 0 <= j < i ==> lines[j] != disabled_directive(),
    ensures
        gravity_status(lines) == StatusValue::Enabled,
    decreases i,
{
    lemma_directives_differ();
    if lines[0] != disabled_directive() && lines[0] != enabled_directive() {
        assert forall|j: int| 0 <= j < i - 1 implies lines.drop_first()[j]
            != disabled_directive() by {
            assert(lines.drop_first()[j] == lines[j + 1]);
        }
        assert(lines.drop_first()[i - 1] == lines[i]);
        lemma_enabled_before_any_disabled(lines.drop_first(), i - 1);
    }
}

/// A disabling directive with no enabling directive anywhere before it
/// makes the status `Disabled`, whatever follows it.
pub proof fn lemma_disabled_before_any_enabled(lines: Seq<Seq<char>>, i: int)
    requires
        0 <= i < lines.len(),
        lines[i] == disabled_directive(),
        forall|j: int| 0 <= j < i ==> lines[j] != enabled_directive(),
    ensures
        gravity_status(lines) == StatusValue::Disabled,
    decreases i,
{
    lemma_directives_differ();
    if lines[0] != disabled_directive() && lines[0] != enabled_directive() {
        assert forall|j: int| 0 <= j < i - 1 implies lines.drop_first()[j]
            != enabled_directive() by {
            assert(lines.drop_first()[j] == lines[j + 1]);
        }
        assert(lines.drop_first()[i - 1] == lines[i]);
        lemma_disabled_before_any_enabled(lines.drop_first(), i - 1);
    }
}

/// A resource with neither directive form on any line has status
/// `Unknown`.
pub proof fn lemma_no_directive_unknown(lines: Seq<Seq<char>>)
    requires
        forall|j: int| 0 <= j < lines.len() ==> lines[j] != enabled_directive()
            && lines[j] != disabled_directive(),
    ensures
        gravity_status(lines) == StatusValue::Unknown,
    decreases lines.len(),
{
    if lines.len() > 0 {
        assert forall|j: int| 0 <= j < lines.drop_first().len() implies lines.drop_first()[j]
            != enabled_directive() && lines.drop_first()[j] != disabled_directive() by {
            assert(lines.drop_first()[j] == lines[j + 1]);
        }
        lemma_no_directive_unknown(lines.drop_first());
    }
}

/// Idempotence of the check: the status is a function of the resource's
/// lines alone, so two results for the same unchanged lines agree.
pub proof fn lemma_check_idempotent(
    lines: Seq<Seq<char>>,
    first: StatusValue,
    second: StatusValue,
)
    requires
        first == gravity_status(lines),
        second == gravity_status(lines),
    ensures
        first == second,
{
}

} // verus!
