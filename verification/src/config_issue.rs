//! Problems found in the raw configuration.

use vstd::prelude::*;

verus! {

/// A problem with one raw setting, and the default put in its place.
#[derive(Debug)]
pub enum ConfigIssue {
    /// The setting has a value that is not accepted.
    Invalid { key: &'static str, value: String, default: String },
    /// The setting is absent.
    NotSpecified { key: &'static str, default: String },
}

/// The abstract contents of a configuration issue.
pub enum ConfigIssueView {
    Invalid { key: Seq<char>, value: Seq<char>, default: Seq<char> },
    NotSpecified { key: Seq<char>, default: Seq<char> },
}

impl View for ConfigIssue {
    type V = ConfigIssueView;

    open spec fn view(&self) -> ConfigIssueView {
        match self {
            ConfigIssue::Invalid { key, value, default } => ConfigIssueView::Invalid {
                key: key@,
                value: value@,
                default: default@,
            },
            ConfigIssue::NotSpecified { key, default } => ConfigIssueView::NotSpecified {
                key: key@,
                default: default@,
            },
        }
    }
}

/// The abstract contents of a list of issues.
pub open spec fn issues_view(v: Seq<ConfigIssue>) -> Seq<ConfigIssueView> {
    v.map_values(|i: ConfigIssue| i@)
}

/// Appends `issue` to `issues`.
pub fn push_issue(issues: &mut Vec<ConfigIssue>, issue: ConfigIssue)
    ensures
        issues_view(final(issues)@) == issues_view(old(issues)@).push(issue@),
{
    issues.push(issue);
    proof {
        assert(issues_view(issues@) =~= issues_view(old(issues)@).push(issue@));
    }
}

} // verus!
