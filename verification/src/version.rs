//! Semantic versions, parsed and ordered by the semver crate.

use vstd::prelude::*;

use crate::text::{decimal, push_decimal, push_str};

verus! {

/// The plain content of a version: major, minor, patch, pre-release and
/// build metadata.
pub type VersionView = (u64, u64, u64, Seq<char>, Seq<char>);

/// What `semver::Version::parse` gives for a text: the parts of the version,
/// or nothing when the text is not a semantic version.
pub uninterp spec fn semver_parsed(text: Seq<char>) -> Option<VersionView>;

/// Whether `semver::VersionReq::parse` accepts the text as a requirement.
pub uninterp spec fn semver_req_parses(req: Seq<char>) -> bool;

/// What `VersionReq::matches` gives for the requirement parsed from the
/// text, on a version with these parts.
pub uninterp spec fn semver_req_matches(req: Seq<char>, v: VersionView) -> bool;

/// How `Ord::cmp` on `semver::Version` orders two parsed versions:
/// -1, 0 or 1 for less, equal and greater.
pub uninterp spec fn semver_order(a: VersionView, b: VersionView) -> i8;

/// A version as the semver crate holds it; opaque here.
#[verifier::external_type_specification]
#[verifier::external_body]
pub struct ExSemverVersion(semver::Version);

/// A version requirement as the semver crate holds it; opaque here.
#[verifier::external_type_specification]
#[verifier::external_body]
pub struct ExSemverVersionReq(semver::VersionReq);

/// A semantic version. It is only ever made by parsing, so its parts are
/// always those of some text that semver accepts; `parsed` is the semver
/// crate's own value for the same text.
#[derive(Debug)]
pub struct ParsedVersion {
    major: u64,
    minor: u64,
    patch: u64,
    pre: String,
    build: String,
    parsed: semver::Version,
}

impl View for ParsedVersion {
    type V = VersionView;

    closed spec fn view(&self) -> VersionView {
        (self.major, self.minor, self.patch, self.pre@, self.build@)
    }
}

/// Whether some text parses to these parts.
pub open spec fn is_parsed_view(v: VersionView) -> bool {
    exists|t: Seq<char>| semver_parsed(t) == Some(v)
}

/// The text `Display` gives for a version:
/// `major.minor.patch`, then `-pre` and `+build` when they are not empty.
pub open spec fn render(v: VersionView) -> Seq<char> {
    let core = decimal(v.0 as nat) + seq!['.'] + decimal(v.1 as nat) + seq!['.'] + decimal(
        v.2 as nat,
    );
    let with_pre = if v.3.len() == 0 {
        core
    } else {
        core + seq!['-'] + v.3
    };
    if v.4.len() == 0 {
        with_pre
    } else {
        with_pre + seq!['+'] + v.4
    }
}

/// A caret requirement on a version, as `format!("^{}", v)` writes it.
pub open spec fn render_caret(v: VersionView) -> Seq<char> {
    seq!['^'] + render(v)
}

impl ParsedVersion {
    #[verifier::type_invariant]
    spec fn parsed(self) -> bool {
        is_parsed_view(self@)
    }

    /// Parses a semantic version with `semver::Version::parse`.
    /// Trusted: the parts returned are the named parse of exactly this text.
    #[verifier::external_body]
    pub(crate) fn parse(text: &str) -> (res: Option<ParsedVersion>)
        ensures
            match res {
                Some(v) => semver_parsed(text@) == Some(v@),
                None => semver_parsed(text@) is None,
            },
    {
        match semver::Version::parse(text) {
            Ok(v) => Some(
                ParsedVersion {
                    major: v.major,
                    minor: v.minor,
                    patch: v.patch,
                    pre: v.pre.as_str().to_string(),
                    build: v.build.as_str().to_string(),
                    parsed: v,
                },
            ),
            Err(_) => None,
        }
    }

    /// Orders two versions with `Ord::cmp` on `semver::Version`.
    /// Trusted: the result is the named order of the two versions, which the
    /// semver values kept beside the parts were parsed together with.
    #[verifier::external_body]
    pub(crate) fn order(&self, other: &ParsedVersion) -> (res: i8)
        ensures
            res == semver_order(self@, other@),
            -1 <= res <= 1,
    {
        match self.parsed.cmp(&other.parsed) {
            std::cmp::Ordering::Less => -1,
            std::cmp::Ordering::Equal => 0,
            std::cmp::Ordering::Greater => 1,
        }
    }

    pub fn major(&self) -> (r: u64)
        ensures
            r == self@.0,
    {
        self.major
    }

    pub fn minor(&self) -> (r: u64)
        ensures
            r == self@.1,
    {
        self.minor
    }

    pub fn patch(&self) -> (r: u64)
        ensures
            r == self@.2,
    {
        self.patch
    }

    /// A copy of the semver crate's value.
    /// Trusted: `Clone` on `semver::Version`; nothing is stated of the copy,
    /// which is opaque here.
    #[verifier::external_body]
    fn parsed_copy(&self) -> semver::Version {
        self.parsed.clone()
    }

    /// A copy of this version.
    pub fn duplicate(&self) -> (r: ParsedVersion)
        ensures
            r@ == self@,
    {
        proof {
            use_type_invariant(self);
        }
        ParsedVersion {
            major: self.major,
            minor: self.minor,
            patch: self.patch,
            pre: self.pre.clone(),
            build: self.build.clone(),
            parsed: self.parsed_copy(),
        }
    }

    /// Field-wise equality, as `==` on `semver::Version` compares.
    pub fn same_as(&self, other: &ParsedVersion) -> (r: bool)
        ensures
            r == (self@ == other@),
    {
        self.major == other.major && self.minor == other.minor && self.patch == other.patch
            && self.pre == other.pre && self.build == other.build
    }

    /// The text of this version, as `Display` writes it.
    pub fn to_string(&self) -> (s: String)
        ensures
            s@ == render(self@),
    {
        let mut s = String::new();
        push_decimal(&mut s, self.major);
        s.push('.');
        push_decimal(&mut s, self.minor);
        s.push('.');
        push_decimal(&mut s, self.patch);
        let ghost core = s@;
        if !self.pre.as_str().is_empty() {
            s.push('-');
            push_str(&mut s, self.pre.as_str());
        }
        if !self.build.as_str().is_empty() {
            s.push('+');
            push_str(&mut s, self.build.as_str());
        }
        proof {
            assert(core =~= decimal(self.major as nat) + seq!['.'] + decimal(self.minor as nat)
                + seq!['.'] + decimal(self.patch as nat));
        }
        assert(s@ =~= render(self@));
        s
    }

    /// The caret requirement on this version, as `format!("^{}", v)` writes it.
    pub fn to_caret_string(&self) -> (s: String)
        ensures
            s@ == render_caret(self@),
    {
        let mut s = String::new();
        s.push('^');
        let body = self.to_string();
        push_str(&mut s, body.as_str());
        assert(s@ =~= render_caret(self@));
        s
    }
}

/// A version requirement. It is only ever made by parsing, so its text is
/// one that semver accepts; `req` is the semver crate's own value for it.
#[derive(Debug)]
pub struct VersionRequirement {
    text: String,
    req: semver::VersionReq,
}

impl View for VersionRequirement {
    type V = Seq<char>;

    closed spec fn view(&self) -> Seq<char> {
        self.text@
    }
}

impl VersionRequirement {
    #[verifier::type_invariant]
    spec fn parsed(self) -> bool {
        semver_req_parses(self.text@)
    }

    /// Parses a requirement with `semver::VersionReq::parse`.
    /// Trusted: a requirement comes back exactly when the named check accepts
    /// the text, and it keeps that text.
    #[verifier::external_body]
    pub(crate) fn parse(req_text: &str) -> (res: Option<VersionRequirement>)
        ensures
            res is Some <==> semver_req_parses(req_text@),
            res matches Some(r) ==> r@ == req_text@,
    {
        match semver::VersionReq::parse(req_text) {
            Ok(req) => Some(VersionRequirement { text: req_text.to_string(), req }),
            Err(_) => None,
        }
    }

    /// Whether this requirement admits a version, with `VersionReq::matches`.
    /// Trusted: the result is the named outcome for the requirement's text
    /// and the version's parts.
    #[verifier::external_body]
    pub(crate) fn admits(&self, v: &ParsedVersion) -> (res: bool)
        ensures
            res == semver_req_matches(self@, v@),
    {
        self.req.matches(&v.parsed)
    }
}

/// The caret requirement Cargo reads a bare dependency version as: `^`
/// followed by the version text.
pub open spec fn caret_requirement(version: Seq<char>) -> Seq<char> {
    seq!['^'] + version
}

/// Parses the caret requirement on a dependency version text.
pub fn parse_caret_requirement(version: &str) -> (res: Option<VersionRequirement>)
    ensures
        res is Some <==> semver_req_parses(caret_requirement(version@)),
        res matches Some(r) ==> r@ == caret_requirement(version@),
{
    let mut text = String::new();
    text.push('^');
    crate::text::push_str(&mut text, version);
    assert(text@ =~= caret_requirement(version@));
    VersionRequirement::parse(text.as_str())
}

} // verus!
