//! Channel patterns: a subscription's declared scope, and the matcher that
//! decides whether an emitted channel falls inside it.
//!
//! A pattern name is either the match-all token `"*"` or a regular
//! expression, compiled once at registration time and never re-parsed.  A
//! pattern matches a channel when the kinds agree and the name matcher
//! accepts the channel name; a compiled pattern accepts a name when the
//! expression is found anywhere in it (a substring search, not anchored at
//! either end).  Matching is symmetric about the match-all token: a target
//! channel named `"*"` is accepted by every matcher of the same kind.

use vstd::prelude::*;

use crate::channel::{ChannelType, ChannelView, MessageChannel};
use crate::model::RegistryError;

verus! {

#[verifier::external_type_specification]
#[verifier::external_body]
pub struct ExRegex(regex::Regex);

#[verifier::external_type_specification]
#[verifier::external_body]
pub struct ExRegexError(regex::Error);

/// The pattern text a compiled `regex::Regex` was built from
/// (`regex::Regex::as_str` returns it).
pub uninterp spec fn regex_pattern(re: regex::Regex) -> Seq<char>;

/// Whether `regex::Regex::new` accepts a pattern text.  Compilation is
/// deterministic in the pattern, so this is a function of the text alone.
pub uninterp spec fn regex_valid(pattern: Seq<char>) -> bool;

/// Whether a compiled pattern is found anywhere in a text, as
/// `regex::Regex::is_match` decides it; deterministic in pattern and text.
pub uninterp spec fn regex_found(pattern: Seq<char>, text: Seq<char>) -> bool;

/// Relies on `regex::Regex::new`: it compiles the pattern, returning `Err`
/// exactly on the texts it rejects, and the compiled value carries the
/// pattern it was built from.
#[verifier::external_body]
fn regex_new(pattern: &str) -> (r: Result<regex::Regex, regex::Error>)
    ensures
        r is Ok <==> regex_valid(pattern@),
        r is Ok ==> regex_pattern(r->Ok_0) == pattern@,
{
    regex::Regex::new(pattern)
}

/// Relies on `regex::Regex::is_match`: true iff there is a match for the
/// compiled pattern anywhere in the haystack.
#[verifier::external_body]
fn regex_is_match(re: &regex::Regex, haystack: &str) -> (r: bool)
    ensures
        r == regex_found(regex_pattern(*re), haystack@),
{
    re.is_match(haystack)
}

/// Relies on `regex::Regex`'s derived `Clone`: the clone is a regex for the
/// same pattern text.
#[verifier::external_body]
fn regex_clone(re: &regex::Regex) -> (r: regex::Regex)
    ensures
        regex_pattern(r) == regex_pattern(*re),
{
    re.clone()
}

/// Relies on `str`'s `PartialEq`: equality of the two character sequences.
#[verifier::external_body]
pub(crate) fn str_eq(a: &str, b: &str) -> (r: bool)
    ensures
        r == (a@ == b@),
{
    a == b
}

/// The token that matches every channel name of the right kind.
pub open spec fn match_all_token() -> Seq<char> {
    "*"@
}

/// A name matcher: the match-all token, or an expression compiled once at
/// registration time.
pub enum NameMatcher {
    MatchAll,
    Compiled(regex::Regex),
}

/// Mathematical image of a name matcher.
#[verifier::ext_equal]
pub enum MatcherView {
    MatchAll,
    Pattern(Seq<char>),
}

impl View for NameMatcher {
    type V = MatcherView;

    open spec fn view(&self) -> MatcherView {
        match self {
            NameMatcher::MatchAll => MatcherView::MatchAll,
            NameMatcher::Compiled(re) => MatcherView::Pattern(regex_pattern(*re)),
        }
    }
}

/// Whether a matcher accepts a channel name.
pub open spec fn matcher_accepts(m: MatcherView, name: Seq<char>) -> bool {
    match m {
        MatcherView::MatchAll => true,
        MatcherView::Pattern(p) => name == match_all_token() || regex_found(p, name),
    }
}

/// A subscription's declared scope: a channel kind plus a name matcher.
pub struct ChannelPattern {
    pub channel_type: ChannelType,
    pub matcher: NameMatcher,
}

/// Mathematical image of a channel pattern.
#[verifier::ext_equal]
pub struct PatternView {
    pub kind: ChannelType,
    pub matcher: MatcherView,
}

impl View for ChannelPattern {
    type V = PatternView;

    open spec fn view(&self) -> PatternView {
        PatternView { kind: self.channel_type, matcher: self.matcher@ }
    }
}

/// Whether a pattern matches a target channel: the kinds must agree and the
/// matcher must accept the channel name.  Two patterns of different kind
/// never match, independent of any name.
pub open spec fn pattern_matches(p: PatternView, c: ChannelView) -> bool {
    p.kind == c.kind && matcher_accepts(p.matcher, c.name)
}

/// The matcher a channel name compiles to, if compilation succeeds.
pub open spec fn spec_matcher_of(name: Seq<char>) -> MatcherView {
    if name == match_all_token() {
        MatcherView::MatchAll
    } else {
        MatcherView::Pattern(name)
    }
}

/// Whether a channel name can be compiled into a matcher: it is the
/// match-all token, or a text the regex engine accepts.
pub open spec fn compilable(name: Seq<char>) -> bool {
    name == match_all_token() || regex_valid(name)
}

impl ChannelPattern {
    /// Compiles a channel into a pattern.  Fails exactly when the name is
    /// not the match-all token and the regex engine rejects it; nothing is
    /// re-parsed later.
    pub fn compile(channel: &MessageChannel) -> (r: Result<ChannelPattern, RegistryError>)
        ensures
            r is Ok <==> compilable(channel@.name),
            r is Ok ==> r->Ok_0@ == (PatternView {
                kind: channel@.kind,
                matcher: spec_matcher_of(channel@.name),
            }),
            r is Err ==> r->Err_0 == RegistryError::InvalidPattern,
    {
        if str_eq(channel.name, "*") {
            Ok(ChannelPattern { channel_type: channel.channel_type, matcher: NameMatcher::MatchAll })
        } else {
            match regex_new(channel.name) {
                Ok(re) => Ok(ChannelPattern {
                    channel_type: channel.channel_type,
                    matcher: NameMatcher::Compiled(re),
                }),
                Err(_) => Err(RegistryError::InvalidPattern),
            }
        }
    }

    /// Decides whether this pattern matches the target channel.  Pattern
    /// compilation failures cannot arise here: matching never parses.
    pub fn matches(&self, channel: &MessageChannel) -> (r: bool)
        ensures
            r == pattern_matches(self@, channel@),
    {
        if !(self.channel_type == channel.channel_type) {
            return false;
        }
        match &self.matcher {
            NameMatcher::MatchAll => true,
            NameMatcher::Compiled(re) => {
                str_eq(channel.name, "*") || regex_is_match(re, channel.name)
            },
        }
    }

    /// A copy of this pattern, matching exactly the same channels.
    pub fn clone_pattern(&self) -> (r: ChannelPattern)
        ensures
            r@ == self@,
    {
        ChannelPattern {
            channel_type: self.channel_type,
            matcher: match &self.matcher {
                NameMatcher::MatchAll => NameMatcher::MatchAll,
                NameMatcher::Compiled(re) => NameMatcher::Compiled(regex_clone(re)),
            },
        }
    }
}

/// A pattern and a channel of different kinds never match, whatever either
/// name says.
pub proof fn lemma_kind_mismatch_never_matches(p: PatternView, c: ChannelView)
    requires
        p.kind != c.kind,
    ensures
        !pattern_matches(p, c),
{
}

/// A match-all matcher accepts every channel of the pattern's kind.
pub proof fn lemma_match_all_matches_every_name(p: PatternView, c: ChannelView)
    requires
        p.matcher == MatcherView::MatchAll,
        p.kind == c.kind,
    ensures
        pattern_matches(p, c),
{
}

} // verus!
