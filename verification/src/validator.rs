//! Which platform a media URL belongs to, decided by the platforms' URL
//! patterns, tried in a fixed order.

use vstd::prelude::*;

verus! {

#[verifier::external_type_specification]
#[verifier::external_body]
pub struct ExRegex(regex::Regex);

#[verifier::external_type_specification]
#[verifier::external_body]
pub struct ExRegexError(regex::Error);

/// Whether `regex::Regex::new` accepts `pattern`: its syntax is valid and
/// the compiled program stays under the default size limit.
pub uninterp spec fn regex_compiles(pattern: Seq<char>) -> bool;

/// What `regex::Regex::is_match` answers, for the regex compiled from
/// `pattern`, on `haystack`: whether the regex matches anywhere in it.
pub uninterp spec fn regex_is_match(pattern: Seq<char>, haystack: Seq<char>) -> bool;

/// The text of capture group `group` of the leftmost-first match of the
/// regex compiled from `pattern` in `haystack`, as `regex::Regex::captures`
/// and `Captures::get` give it; nothing when there is no match or the group
/// took no part in it.
pub uninterp spec fn regex_capture(pattern: Seq<char>, haystack: Seq<char>, group: nat) -> Option<
    Seq<char>,
>;

/// A regular expression together with the pattern it was compiled from.
/// Values are made only by [`Pattern::compile`], so `compiled` is always
/// what `regex::Regex::new` built from `source`.
pub struct Pattern {
    source: String,
    compiled: regex::Regex,
}

/// The model of an optional string.
pub open spec fn view_opt_string(o: Option<String>) -> Option<Seq<char>> {
    match o {
        Some(s) => Some(s@),
        None => None,
    }
}

impl Pattern {
    /// The pattern text this regex was compiled from.
    pub closed spec fn source(&self) -> Seq<char> {
        self.source@
    }

    /// Compiles `pattern` with `regex::Regex::new`.
    ///
    /// Trusted: the call succeeds exactly when the pattern compiles (a name
    /// for what the regex crate decides), and the value keeps the pattern it
    /// was compiled from.
    #[verifier::external_body]
    pub(crate) fn compile(pattern: &str) -> (r: Result<Pattern, regex::Error>)
        ensures
            r is Ok <==> regex_compiles(pattern@),
            r matches Ok(p) ==> p.source() == pattern@,
    {
        match regex::Regex::new(pattern) {
            Ok(re) => Ok(Pattern { source: pattern.to_string(), compiled: re }),
            Err(e) => Err(e),
        }
    }

    /// Whether the regex matches anywhere in `haystack`
    /// (`regex::Regex::is_match`).
    ///
    /// Trusted: the answer is the named result for this pattern and haystack.
    #[verifier::external_body]
    pub(crate) fn is_match(&self, haystack: &str) -> (r: bool)
        ensures
            r == regex_is_match(self.source(), haystack@),
    {
        self.compiled.is_match(haystack)
    }

    /// The text of capture group `group` in the first match in `haystack`
    /// (`regex::Regex::captures`, then `Captures::get` and `Match::as_str`).
    ///
    /// Trusted: the answer is the named result for this pattern, haystack
    /// and group.
    #[verifier::external_body]
    pub(crate) fn capture(&self, haystack: &str, group: usize) -> (r: Option<String>)
        ensures
            view_opt_string(r) == regex_capture(self.source(), haystack@, group as nat),
    {
        match self.compiled.captures(haystack) {
            Some(caps) => match caps.get(group) {
                Some(m) => Some(m.as_str().to_string()),
                None => None,
            },
            None => None,
        }
    }
}

/// The platforms whose media the service extracts.
#[derive(PartialEq, Eq, Structural, Clone, Copy, Debug)]
pub enum Platform {
    TikTok,
    Instagram,
    Facebook,
    Snapchat,
    Twitter,
}

/// The number of URL patterns, one per platform.
pub const PATTERN_COUNT: usize = 5;

/// The URL patterns, in the order in which they are tried.
pub open spec fn pattern_text(i: int) -> Seq<char> {
    if i == 0 {
        r"tiktok\.com/.+"@
    } else if i == 1 {
        r"instagram\.com/(p|reel|reels|tv)/([A-Za-z0-9_-]+)/?"@
    } else if i == 2 {
        r"(facebook\.com/.+|fb\.watch/.+)"@
    } else if i == 3 {
        r"snapchat\.com/t/"@
    } else {
        r"(twitter\.com/|x\.com/).*/status/"@
    }
}

/// The platform that pattern `i` stands for.
pub open spec fn platform_at(i: int) -> Platform {
    if i == 0 {
        Platform::TikTok
    } else if i == 1 {
        Platform::Instagram
    } else if i == 2 {
        Platform::Facebook
    } else if i == 3 {
        Platform::Snapchat
    } else {
        Platform::Twitter
    }
}

/// A URL pattern that the regex crate refused; `index` is its place in the
/// order of [`pattern_text`].
#[derive(PartialEq, Eq, Structural, Clone, Copy, Debug)]
pub struct InvalidPattern {
    pub index: usize,
}

/// What trying pattern `i` on `url` gives: nothing when the pattern does not
/// compile, else whether it matches.
pub open spec fn outcome(i: int, url: Seq<char>) -> Option<bool> {
    if regex_compiles(pattern_text(i)) {
        Some(regex_is_match(pattern_text(i), url))
    } else {
        None
    }
}

/// The outcomes of all patterns on `url`, in order.
pub open spec fn outcomes(url: Seq<char>) -> Seq<Option<bool>> {
    Seq::new(PATTERN_COUNT as nat, |i: int| outcome(i, url))
}

/// The decision from the outcomes at and after `i`: the first pattern that
/// does not compile is an error, the first that matches names the platform,
/// and a URL that none matches has no platform.
pub open spec fn decide_from(outs: Seq<Option<bool>>, i: int) -> Result<Option<Platform>, InvalidPattern>
    decreases outs.len() - i,
{
    if i < 0 || i >= outs.len() || i >= PATTERN_COUNT {
        Ok(None)
    } else {
        match outs[i] {
            None => Err(InvalidPattern { index: i as usize }),
            Some(true) => Ok(Some(platform_at(i))),
            Some(false) => decide_from(outs, i + 1),
        }
    }
}

/// The platform of `url`, as the patterns decide it.
pub open spec fn spec_validate(url: Seq<char>) -> Result<Option<Platform>, InvalidPattern> {
    decide_from(outcomes(url), 0)
}

proof fn lemma_decide_prefix(p: Seq<Option<bool>>, f: Seq<Option<bool>>, i: int)
    requires
        0 <= i <= p.len() <= f.len() <= PATTERN_COUNT,
        forall|j: int| 0 <= j < p.len() ==> p[j] == f[j],
        forall|j: int| i <= j < p.len() - 1 ==> p[j] == Some(false),
        p.len() == f.len() || (p.len() > i && p[p.len() - 1] != Some(false)),
    ensures
        decide_from(p, i) == decide_from(f, i),
    decreases p.len() - i,
{
    if i < p.len() && p[i] == Some(false) {
        lemma_decide_prefix(p, f, i + 1);
    }
}

/// The Instagram pattern recognises every kind of post link: right after
/// `instagram.com/` it offers the kinds `p`, `reel`, `reels` and `tv` as
/// alternatives of its first group, and then the shortcode as its second
/// group.
pub proof fn law_instagram_post_kinds()
    ensures
        pattern_text(1).subrange(0, 16) == r"instagram\.com/("@,
        crate::text::occurs_in(pattern_text(1), r"(p|"@),
        crate::text::occurs_in(pattern_text(1), r"|reel|"@),
        crate::text::occurs_in(pattern_text(1), r"|reels|"@),
        crate::text::occurs_in(pattern_text(1), r"|tv)"@),
        crate::text::occurs_in(pattern_text(1), r")/([A-Za-z0-9_-]+)"@),
{
    reveal_strlit(r"instagram\.com/(p|reel|reels|tv)/([A-Za-z0-9_-]+)/?");
    reveal_strlit(r"instagram\.com/(");
    reveal_strlit(r"(p|");
    reveal_strlit(r"|reel|");
    reveal_strlit(r"|reels|");
    reveal_strlit(r"|tv)");
    reveal_strlit(r")/([A-Za-z0-9_-]+)");
    let t = pattern_text(1);
    assert(t.subrange(0, 16) =~= r"instagram\.com/("@);
    assert(t.subrange(15, 18) =~= r"(p|"@);
    assert(crate::text::occurs_at(t, r"(p|"@, 15));
    assert(t.subrange(17, 23) =~= r"|reel|"@);
    assert(crate::text::occurs_at(t, r"|reel|"@, 17));
    assert(t.subrange(22, 29) =~= r"|reels|"@);
    assert(crate::text::occurs_at(t, r"|reels|"@, 22));
    assert(t.subrange(28, 32) =~= r"|tv)"@);
    assert(crate::text::occurs_at(t, r"|tv)"@, 28));
    assert(t.subrange(31, 49) =~= r")/([A-Za-z0-9_-]+)"@);
    assert(crate::text::occurs_at(t, r")/([A-Za-z0-9_-]+)"@, 31));
}

/// The platform's name as the service reports it.
pub open spec fn platform_name(p: Platform) -> Seq<char> {
    match p {
        Platform::TikTok => "TikTok"@,
        Platform::Instagram => "Instagram"@,
        Platform::Facebook => "Facebook"@,
        Platform::Snapchat => "Snapchat"@,
        Platform::Twitter => "Twitter"@,
    }
}

/// Pattern `i` compiles and does not match `url`.
pub open spec fn passes_over(i: int, url: Seq<char>) -> bool {
    regex_compiles(pattern_text(i)) && !regex_is_match(pattern_text(i), url)
}

proof fn lemma_decide_outcomes(url: Seq<char>, i: int)
    requires
        0 <= i <= PATTERN_COUNT,
        forall|j: int| 0 <= j < i ==> passes_over(j, url),
    ensures
        decide_from(outcomes(url), i) matches Ok(Some(p)) ==> exists|k: int|
            i <= k < PATTERN_COUNT && platform_at(k) == p && regex_compiles(pattern_text(k))
                && regex_is_match(pattern_text(k), url) && forall|j: int|
                0 <= j < k ==> passes_over(j, url),
        decide_from(outcomes(url), i) == Ok::<Option<Platform>, InvalidPattern>(None) ==> forall|
            j: int,
        | 0 <= j < PATTERN_COUNT ==> passes_over(j, url),
        decide_from(outcomes(url), i) matches Err(e) ==> i <= e.index < PATTERN_COUNT
            && !regex_compiles(pattern_text(e.index as int)) && forall|j: int|
            0 <= j < e.index ==> passes_over(j, url),
    decreases PATTERN_COUNT - i,
{
    let outs = outcomes(url);
    if i < PATTERN_COUNT {
        assert(outs[i] == outcome(i, url));
        if outs[i] == Some(false) {
            assert(passes_over(i, url));
            assert forall|j: int| 0 <= j < i + 1 implies passes_over(j, url) by {}
            lemma_decide_outcomes(url, i + 1);
        }
    }
}

/// A URL gets a platform only when that platform's pattern matches it and
/// every earlier pattern compiles and does not; it gets none only when
/// every pattern compiles and none matches; and an error names the first
/// pattern that does not compile, all before it compiling and not matching.
pub proof fn law_validate_first_match(url: Seq<char>)
    ensures
        spec_validate(url) matches Ok(Some(p)) ==> exists|k: int|
            0 <= k < PATTERN_COUNT && platform_at(k) == p && regex_compiles(pattern_text(k))
                && regex_is_match(pattern_text(k), url) && forall|j: int|
                0 <= j < k ==> passes_over(j, url),
        spec_validate(url) == Ok::<Option<Platform>, InvalidPattern>(None) ==> forall|j: int|
            0 <= j < PATTERN_COUNT ==> passes_over(j, url),
        spec_validate(url) matches Err(e) ==> e.index < PATTERN_COUNT && !regex_compiles(
            pattern_text(e.index as int),
        ) && forall|j: int| 0 <= j < e.index ==> passes_over(j, url),
{
    lemma_decide_outcomes(url, 0);
}

impl Platform {
    /// The platform's name as the service reports it.
    pub fn name(&self) -> (r: &'static str)
        ensures
            r@ == platform_name(*self),
    {
        match self {
            Platform::TikTok => "TikTok",
            Platform::Instagram => "Instagram",
            Platform::Facebook => "Facebook",
            Platform::Snapchat => "Snapchat",
            Platform::Twitter => "Twitter",
        }
    }
}

/// Classifies media URLs by platform.
pub struct Validator;

impl Validator {
    /// URL pattern `i`.
    pub fn pattern(i: usize) -> (r: &'static str)
        requires
            i < PATTERN_COUNT,
        ensures
            r@ == pattern_text(i as int),
    {
        if i == 0 {
            r"tiktok\.com/.+"
        } else if i == 1 {
            r"instagram\.com/(p|reel|reels|tv)/([A-Za-z0-9_-]+)/?"
        } else if i == 2 {
            r"(facebook\.com/.+|fb\.watch/.+)"
        } else if i == 3 {
            r"snapchat\.com/t/"
        } else {
            r"(twitter\.com/|x\.com/).*/status/"
        }
    }

    /// The platform of pattern `i`.
    pub fn platform(i: usize) -> (r: Platform)
        requires
            i < PATTERN_COUNT,
        ensures
            r == platform_at(i as int),
    {
        if i == 0 {
            Platform::TikTok
        } else if i == 1 {
            Platform::Instagram
        } else if i == 2 {
            Platform::Facebook
        } else if i == 3 {
            Platform::Snapchat
        } else {
            Platform::Twitter
        }
    }

    /// The decision from the outcomes of the patterns tried so far, in
    /// order: an outcome of `None` is a pattern that did not compile.
    pub fn decide(outs: &Vec<Option<bool>>) -> (r: Result<Option<Platform>, InvalidPattern>)
        requires
            outs@.len() <= PATTERN_COUNT,
        ensures
            r == decide_from(outs@, 0),
    {
        let mut i: usize = 0;
        while i < outs.len()
            invariant
                i <= outs@.len() <= PATTERN_COUNT,
                decide_from(outs@, 0) == decide_from(outs@, i as int),
            decreases outs@.len() - i,
        {
            match outs[i] {
                None => return Err(InvalidPattern { index: i }),
                Some(true) => return Ok(Some(Self::platform(i))),
                Some(false) => {},
            }
            i += 1;
        }
        Ok(None)
    }

    /// The platform of `url`: the patterns are tried in order and the first
    /// that matches names it; `Ok(None)` when none matches (an invalid URL).
    /// A pattern that the regex crate refuses before a match is found is
    /// reported as an error.
    pub fn validate(url: &str) -> (r: Result<Option<Platform>, InvalidPattern>)
        ensures
            r == spec_validate(url@),
    {
        let ghost full = outcomes(url@);
        let mut outs: Vec<Option<bool>> = Vec::new();
        let mut i: usize = 0;
        while i < PATTERN_COUNT
            invariant
                i <= PATTERN_COUNT,
                full == outcomes(url@),
                full.len() == PATTERN_COUNT,
                outs@.len() == i,
                forall|j: int| 0 <= j < i ==> outs@[j] == full[j],
                forall|j: int| 0 <= j < i ==> outs@[j] == Some(false),
            decreases PATTERN_COUNT - i,
        {
            let o = match Pattern::compile(Self::pattern(i)) {
                Ok(p) => Some(p.is_match(url)),
                Err(_) => None,
            };
            assert(o == full[i as int]);
            outs.push(o);
            if o != Some(false) {
                proof {
                    lemma_decide_prefix(outs@, full, 0);
                }
                return Self::decide(&outs);
            }
            i += 1;
        }
        proof {
            lemma_decide_prefix(outs@, full, 0);
        }
        Self::decide(&outs)
    }
}

} // verus!
