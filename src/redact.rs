//! Hides private data (the user's name and home directory, upload
//! signatures, access keys, asset URLs) in log text before it is saved.
//!
//! Each rule is a regular expression and a label; a match becomes
//! `${label}`, keeping the text of its `prefix` and `suffix` groups.
use crate::ConsoleLogSaverConfig;
use vstd::prelude::*;

verus! {

/// What `regex::escape` makes of `text`: a pattern that matches `text`
/// literally.
pub uninterp spec fn regex_escaped(text: Seq<char>) -> Seq<char>;

/// What replacing every match of `pattern` in `text` by [`masked`] of its
/// `prefix` and `suffix` groups and `label` gives; `None` when the pattern
/// does not compile.
pub uninterp spec fn regex_masked(
    pattern: Seq<char>,
    case_insensitive: bool,
    label: Seq<char>,
    text: Seq<char>,
) -> Option<Seq<char>>;

/// Relies on `regex::escape`: escapes every meta character of `text`.
#[verifier::external_body]
fn escape(text: &str) -> (r: String)
    ensures
        r@ == regex_escaped(text@),
{
    regex::escape(text)
}

/// Relies on `regex::RegexBuilder::build` (an error for a pattern it
/// refuses) and `regex::Regex::replace_all`, which replaces each
/// non-overlapping match, left to right.
#[verifier::external_body]
fn replace_matches(pattern: &str, case_insensitive: bool, label: &str, text: &str) -> (r: Option<
    String,
>)
    ensures
        match regex_masked(pattern@, case_insensitive, label@, text@) {
            Some(t) => r matches Some(s) && s@ == t,
            None => r is None,
        },
{
    let regex = regex::RegexBuilder::new(pattern).case_insensitive(case_insensitive).build().ok()?;
    let group = |c: &regex::Captures<'_>, n: &str| c.name(n).map_or(String::new(), |m| m.as_str().to_string());
    let replaced = regex.replace_all(text, |c: &regex::Captures<'_>| masked(&group(c, "prefix"), label, &group(c, "suffix")));
    Some(replaced.into_owned())
}

/// The text that replaces a match.
pub open spec fn masked_text(prefix: Seq<char>, label: Seq<char>, suffix: Seq<char>) -> Seq<char> {
    prefix + "${"@ + label + "}"@ + suffix
}

/// The text that replaces a match.
pub fn masked(prefix: &str, label: &str, suffix: &str) -> (r: String)
    ensures
        r@ == masked_text(prefix@, label@, suffix@),
{
    let mut r = String::from_str(prefix);
    r.append("${");
    r.append(label);
    r.append("}");
    r.append(suffix);
    r
}

/// One part of the home directory's path.
pub enum PathPart {
    /// A drive or share prefix.
    Prefix(String),
    /// The root separator.
    Root,
    /// A directory name.
    Normal(String),
}

/// A separator of either kind, as a pattern.
pub open spec fn separator_pattern() -> Seq<char> {
    "[/\\\\]"@
}

/// The pattern for the rest of a path, after a separator or not.
pub open spec fn path_pattern(parts: Seq<PathPart>, after_separator: bool) -> Seq<char>
    decreases parts.len(),
{
    if parts.len() == 0 {
        Seq::empty()
    } else {
        match parts[0] {
            PathPart::Prefix(p) => regex_escaped(p@) + path_pattern(parts.drop_first(), after_separator),
            PathPart::Root => separator_pattern() + path_pattern(parts.drop_first(), true),
            PathPart::Normal(n) => (if after_separator {
                Seq::empty()
            } else {
                separator_pattern()
            }) + regex_escaped(n@) + path_pattern(parts.drop_first(), false),
        }
    }
}

/// A pattern for the path, with either separator between its parts.
pub fn home_pattern(parts: &Vec<PathPart>) -> (r: String)
    ensures
        r@ == path_pattern(parts@, true),
{
    let mut r = String::new();
    let mut after_separator = true;
    let mut i: usize = 0;
    assert(parts@.skip(0) =~= parts@);
    assert(r@ + path_pattern(parts@, true) =~= path_pattern(parts@, true));
    while i < parts.len()
        invariant
            i <= parts@.len(),
            r@ + path_pattern(parts@.skip(i as int), after_separator) == path_pattern(parts@, true),
        decreases parts@.len() - i,
    {
        let ghost before = r@;
        let ghost rest = parts@.skip(i as int);
        let ghost was_after = after_separator;
        assert(rest.drop_first() =~= parts@.skip(i as int + 1));
        match &parts[i] {
            PathPart::Prefix(p) => {
                let e = escape(p.as_str());
                r.append(e.as_str());
            },
            PathPart::Root => {
                r.append("[/\\\\]");
                after_separator = true;
            },
            PathPart::Normal(n) => {
                if !after_separator {
                    r.append("[/\\\\]");
                }
                let e = escape(n.as_str());
                r.append(e.as_str());
                after_separator = false;
            },
        }
        proof {
            assert(rest[0] == parts@[i as int]);
            match parts@[i as int] {
                PathPart::Prefix(p) => {
                    assert(before + (regex_escaped(p@) + path_pattern(rest.drop_first(), after_separator)) =~= r@ + path_pattern(rest.drop_first(), after_separator));
                },
                PathPart::Root => {
                    assert(before + (separator_pattern() + path_pattern(rest.drop_first(), true)) =~= r@ + path_pattern(rest.drop_first(), true));
                },
                PathPart::Normal(n) => {
                    assert(before + ((if was_after { Seq::empty() } else { separator_pattern() }) + regex_escaped(n@) + path_pattern(rest.drop_first(), false)) =~= r@ + path_pattern(rest.drop_first(), false));
                },
            }
        }
        i = i + 1;
    }
    assert(parts@.skip(parts@.len() as int) =~= Seq::<PathPart>::empty());
    assert(r@ + Seq::<char>::empty() =~= r@);
    r
}

/// One redaction rule.
pub struct ReplaceRule {
    pub pattern: String,
    pub case_insensitive: bool,
    pub label: String,
}

/// The rules to apply, in order.
pub struct ReplaceSet {
    pairs: Vec<ReplaceRule>,
}

/// What one rule makes of `text`; a pattern that does not compile leaves
/// it as it is.
pub open spec fn apply_rule(rule: ReplaceRule, text: Seq<char>) -> Seq<char> {
    match regex_masked(rule.pattern@, rule.case_insensitive, rule.label@, text) {
        Some(t) => t,
        None => text,
    }
}

/// What the rules, applied one after another, make of `text`.
pub open spec fn apply_rules(rules: Seq<ReplaceRule>, text: Seq<char>) -> Seq<char>
    decreases rules.len(),
{
    if rules.len() == 0 {
        text
    } else {
        apply_rules(rules.drop_first(), apply_rule(rules[0], text))
    }
}

/// Matches a `Signature=` query parameter's value.
pub const SIGNATURE_PATTERN: &'static str = "(?<prefix>Signature=)[^&\\s]+";

/// Matches an `AWSAccessKeyId=` query parameter's value.
pub const ACCESS_KEY_PATTERN: &'static str = "(?<prefix>AWSAccessKeyId=)[^&\\s]+";

/// Matches the string value of an `"assetUrl"` JSON field.
pub const ASSET_URL_PATTERN: &'static str = "(?<prefix>\"assetUrl\"\\s*:\\s*\")((?:[^\\u0000-\\u001F\"\\\\]|\\\\(?:u[a-fA-F0-9]{4}|[^\"\\\\/bfnrt]))*)(?<suffix>\")";

pub open spec fn rule_of(pattern: Seq<char>, case_insensitive: bool, label: Seq<char>, r: ReplaceRule) -> bool {
    r.pattern@ == pattern && r.case_insensitive == case_insensitive && r.label@ == label
}

fn rule(pattern: &str, case_insensitive: bool, label: &str) -> (r: ReplaceRule)
    ensures
        rule_of(pattern@, case_insensitive, label@, r),
{
    ReplaceRule {
        pattern: String::from_str(pattern),
        case_insensitive,
        label: String::from_str(label),
    }
}

impl ReplaceSet {
    pub closed spec fn rules(&self) -> Seq<ReplaceRule> {
        self.pairs@
    }

    /// The rules that `config` asks for, for a user called `user_name`
    /// whose home directory is made of `home`.
    pub fn new(config: &ConsoleLogSaverConfig, user_name: &str, home: &Vec<PathPart>) -> (r: Self)
        ensures
            ({
                let rs = r.rules();
                let n_home: int = if config.hide_user_home { 1 } else { 0 };
                let n_user: int = if config.hide_user_name { 1 } else { 0 };
                let n_sig: int = if config.hide_aws_upload_signature { 1 } else { 0 };
                &&& rs.len() == n_home + n_user + n_sig + 2
                &&& config.hide_user_home ==> rule_of(path_pattern(home@, true), true, "user-home"@, rs[0])
                &&& config.hide_user_name ==> rule_of(regex_escaped(user_name@), true, "user-name"@, rs[n_home])
                &&& config.hide_aws_upload_signature ==> rule_of(SIGNATURE_PATTERN@, false, "signature-param"@, rs[n_home + n_user])
                &&& rule_of(ACCESS_KEY_PATTERN@, false, "aws-access-key-id-param"@, rs[n_home + n_user + n_sig])
                &&& rule_of(ASSET_URL_PATTERN@, false, "asset-url"@, rs[n_home + n_user + n_sig + 1])
            }),
    {
        let mut pairs: Vec<ReplaceRule> = Vec::new();
        if config.hide_user_home {
            let pattern = home_pattern(home);
            pairs.push(rule(pattern.as_str(), true, "user-home"));
        }
        if config.hide_user_name {
            let pattern = escape(user_name);
            pairs.push(rule(pattern.as_str(), true, "user-name"));
        }
        if config.hide_aws_upload_signature {
            pairs.push(rule(SIGNATURE_PATTERN, false, "signature-param"));
        }
        pairs.push(rule(ACCESS_KEY_PATTERN, false, "aws-access-key-id-param"));
        pairs.push(rule(ASSET_URL_PATTERN, false, "asset-url"));
        ReplaceSet { pairs }
    }

    /// `text` with every rule applied, in order.
    pub fn replace_all(&self, text: &str) -> (r: String)
        ensures
            r@ == apply_rules(self.rules(), text@),
    {
        let mut current = String::from_str(text);
        let mut i: usize = 0;
        assert(self.pairs@.skip(0) =~= self.pairs@);
        while i < self.pairs.len()
            invariant
                i <= self.pairs@.len(),
                apply_rules(self.pairs@, text@) == apply_rules(self.pairs@.skip(i as int), current@),
            decreases self.pairs@.len() - i,
        {
            let r = &self.pairs[i];
            let next = match replace_matches(r.pattern.as_str(), r.case_insensitive, r.label.as_str(), current.as_str()) {
                Some(s) => s,
                None => current,
            };
            assert(self.pairs@.skip(i as int).drop_first() =~= self.pairs@.skip(i as int + 1));
            current = next;
            i = i + 1;
        }
        assert(self.pairs@.skip(self.pairs@.len() as int) =~= Seq::<ReplaceRule>::empty());
        current
    }
}

} // verus!
