//! The version record and its two renderings.

use vstd::prelude::*;
use crate::channel::{channel_name, get_channel};
use crate::decimal::{
    decimal, lemma_parse_decimal_of_decimal, parse_decimal, parse_u16, parse_u8, push_decimal,
};
use crate::whitespace::{trim, trimmed};

verus! {

/// The version of a build: three numbers, the release channel, and what
/// source control knows of the commit that was built.
pub struct Version {
    pub major: u8,
    pub minor: u8,
    pub patch: u16,
    /// The release channel, such as `"nightly"`.
    pub host_compiler: Option<String>,
    /// The description of the commit, absent where none could be had.
    pub commit_describe: Option<String>,
    /// The date of the commit, absent where none could be had.
    pub commit_date: Option<String>,
}

/// A version as a mathematical value.
pub struct VersionView {
    pub major: nat,
    pub minor: nat,
    pub patch: nat,
    pub host_compiler: Option<Seq<char>>,
    pub commit_describe: Option<Seq<char>>,
    pub commit_date: Option<Seq<char>>,
}

impl VersionView {
    /// The three numbers, separated by dots.
    pub open spec fn short(self) -> Seq<char> {
        decimal(self.major) + "."@ + decimal(self.minor) + "."@ + decimal(self.patch)
    }

    /// What follows the numbers in the long form: in parentheses the
    /// trimmed commit description, a space, and the trimmed commit date,
    /// which is empty where the date is absent.
    pub open spec fn commit_suffix(self) -> Seq<char> {
        match self.commit_describe {
            Some(describe) => {
                let date = match self.commit_date {
                    Some(date) => date,
                    None => Seq::empty(),
                };
                " ("@ + trimmed(describe) + " "@ + trimmed(date) + ")"@
            },
            None => Seq::empty(),
        }
    }

    /// The numbers, followed by the commit in parentheses where a commit
    /// description is present.
    pub open spec fn long(self) -> Seq<char> {
        self.short() + self.commit_suffix()
    }
}

impl View for Version {
    type V = VersionView;

    open spec fn view(&self) -> VersionView {
        VersionView {
            major: self.major as nat,
            minor: self.minor as nat,
            patch: self.patch as nat,
            host_compiler: self.host_compiler.deep_view(),
            commit_describe: self.commit_describe.deep_view(),
            commit_date: self.commit_date.deep_view(),
        }
    }
}

impl DeepView for Version {
    type V = VersionView;

    open spec fn deep_view(&self) -> VersionView {
        self@
    }
}

impl Version {
    /// The short form: `major.minor.patch`.
    pub fn short(&self) -> (text: String)
        ensures
            text@ == self@.short(),
    {
        let mut text = String::new();
        push_decimal(&mut text, self.major as u16);
        text.append(".");
        push_decimal(&mut text, self.minor as u16);
        text.append(".");
        push_decimal(&mut text, self.patch);
        assert(text@ =~= self@.short());
        text
    }

    /// The long form: the short form, followed by the commit description
    /// and date in parentheses where a commit description is present.
    pub fn long(&self) -> (text: String)
        ensures
            text@ == self@.long(),
    {
        let mut text = self.short();
        match &self.commit_describe {
            Some(describe) => {
                text.append(" (");
                text.append(trim(describe.as_str()));
                text.append(" ");
                match &self.commit_date {
                    Some(date) => {
                        text.append(trim(date.as_str()));
                    },
                    None => {
                        assert(trimmed(Seq::<char>::empty()) =~= Seq::<char>::empty());
                    },
                }
                text.append(")");
            },
            None => {},
        }
        assert(text@ =~= self@.long());
        text
    }
}

/// The version that six build constants stand for: the three numbers read
/// from their decimal notation, the channel as configured or else the
/// default, and the two commit texts as they are. There is none where one of
/// the numbers cannot be read or does not fit its field.
pub open spec fn version_of(
    major: Seq<char>,
    minor: Seq<char>,
    patch: Seq<char>,
    channel: Option<Seq<char>>,
    commit_describe: Option<Seq<char>>,
    commit_date: Option<Seq<char>>,
) -> Option<VersionView> {
    match (
        parse_decimal(major, u8::MAX as nat),
        parse_decimal(minor, u8::MAX as nat),
        parse_decimal(patch, u16::MAX as nat),
    ) {
        (Some(major), Some(minor), Some(patch)) => Some(
            VersionView {
                major,
                minor,
                patch,
                host_compiler: Some(channel_name(channel)),
                commit_describe,
                commit_date,
            },
        ),
        _ => None,
    }
}

/// Builds the version from the constants of a build: the three numbers in
/// decimal notation, the value of the variable that configures the channel,
/// and the two commit texts, each `None` where the build has none. Gives
/// `None` exactly where one of the numbers is malformed.
pub fn get_version(
    major: &str,
    minor: &str,
    patch: &str,
    channel: Option<String>,
    commit_describe: Option<&str>,
    commit_date: Option<&str>,
) -> (version: Option<Version>)
    ensures
        version.deep_view() == version_of(
            major@,
            minor@,
            patch@,
            channel.deep_view(),
            commit_describe.deep_view(),
            commit_date.deep_view(),
        ),
{
    let major: u8 = match parse_u8(major) {
        Some(n) => n,
        None => {
            return None;
        },
    };
    let minor: u8 = match parse_u8(minor) {
        Some(n) => n,
        None => {
            return None;
        },
    };
    let patch: u16 = match parse_u16(patch) {
        Some(n) => n,
        None => {
            return None;
        },
    };
    let host_compiler = get_channel(channel);
    let commit_describe = match commit_describe {
        Some(text) => Some(text.to_owned()),
        None => None,
    };
    let commit_date = match commit_date {
        Some(text) => Some(text.to_owned()),
        None => None,
    };
    Some(Version { major, minor, patch, host_compiler, commit_describe, commit_date })
}

/// The long form starts with the short form, whether or not the version
/// knows its commit.
pub proof fn lemma_long_starts_with_short(v: VersionView)
    ensures
        v.short().is_prefix_of(v.long()),
{
}

/// Without a commit description the long form is the short form.
pub proof fn lemma_long_without_describe(v: VersionView)
    requires
        v.commit_describe is None,
    ensures
        v.long() == v.short(),
{
}

/// With a commit description and without a commit date, the long form is
/// the short form, then in parentheses the trimmed description and one
/// space: the space that would separate the date stays.
pub proof fn lemma_long_without_date(v: VersionView)
    requires
        v.commit_describe is Some,
        v.commit_date is None,
    ensures
        v.long() == v.short() + " ("@ + trimmed(v.commit_describe.unwrap()) + " )"@,
{
    reveal_strlit(" ");
    reveal_strlit(")");
    reveal_strlit(" )");
    assert(trimmed(Seq::<char>::empty()) =~= Seq::<char>::empty());
    assert(" "@ + ")"@ =~= " )"@);
}

/// A version built from the decimal notation of three numbers that fit
/// renders them again in its short form.
pub proof fn lemma_short_of_constants(
    major: nat,
    minor: nat,
    patch: nat,
    channel: Option<Seq<char>>,
    commit_describe: Option<Seq<char>>,
    commit_date: Option<Seq<char>>,
)
    requires
        major <= u8::MAX,
        minor <= u8::MAX,
        patch <= u16::MAX,
    ensures
        version_of(
            decimal(major),
            decimal(minor),
            decimal(patch),
            channel,
            commit_describe,
            commit_date,
        ) matches Some(v) && v.short() == decimal(major) + "."@ + decimal(minor) + "."@ + decimal(
            patch,
        ),
{
    lemma_parse_decimal_of_decimal(major, u8::MAX as nat);
    lemma_parse_decimal_of_decimal(minor, u8::MAX as nat);
    lemma_parse_decimal_of_decimal(patch, u16::MAX as nat);
}

} // verus!
