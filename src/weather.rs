//! The weather summary: what the feed's title says of temperature and rain,
//! and the text shown for each outcome of the fetch.
use vstd::prelude::*;

use crate::feed::{feed_text_of, feed_titles, FetchError, PLACEHOLDER_TEXT};

verus! {

/// The pattern that picks the temperature range and the rain probability out
/// of the feed's title.
pub const WEATHER_PATTERN: &'static str = r"溫度:\s*([0-9]+\s*~\s*[0-9]+).*?降雨機率:\s*(\d+%)";

/// Shown when the title does not have the expected shape.
pub const NO_MATCH_TEXT: &'static str = "正则失败";

/// Shown when the feed could not be fetched or read.
pub const LOAD_FAILED_TEXT: &'static str = "加载失败";

#[verifier::external_type_specification]
#[verifier::external_body]
pub struct ExRegex(regex::Regex);

#[verifier::external_type_specification]
#[verifier::external_body]
pub struct ExRegexError(regex::Error);

/// Whether `regex::Regex::new` accepts `pattern`.
pub uninterp spec fn regex_compiles(pattern: Seq<char>) -> bool;

/// The groups of the leftmost match of `pattern` in `text`, group 0 (the whole
/// match) first; `None` where nothing matches.
pub uninterp spec fn regex_captures(pattern: Seq<char>, text: Seq<char>) -> Option<
    Seq<Option<Seq<char>>>,
>;

/// A compiled pattern together with its source text.
pub struct Pattern {
    source: String,
    compiled: regex::Regex,
}

impl View for Pattern {
    type V = Seq<char>;

    closed spec fn view(&self) -> Seq<char> {
        self.source@
    }
}

/// The texts of capture groups, as values.
pub open spec fn groups_view(groups: Seq<Option<String>>) -> Seq<Option<Seq<char>>> {
    groups.map_values(
        |g: Option<String>|
            match g {
                Some(s) => Some(s@),
                None => None,
            },
    )
}

/// Relies on `regex::Regex::new`: it compiles a pattern, or reports why not.
#[verifier::external_body]
fn compile(pattern: &str) -> (r: Result<regex::Regex, regex::Error>)
    ensures
        r is Ok == regex_compiles(pattern@),
{
    regex::Regex::new(pattern)
}

/// Relies on `regex::Regex::captures`: the groups of the leftmost match, each
/// present or not. `p.compiled` was built from `p.source` by `Pattern::new`,
/// the only place where a `Pattern` is made.
#[verifier::external_body]
fn captures(p: &Pattern, text: &str) -> (r: Option<Vec<Option<String>>>)
    ensures
        r matches Some(v) ==> regex_captures(p@, text@) == Some(groups_view(v@)),
        r is None ==> regex_captures(p@, text@) is None,
{
    p.compiled.captures(text).map(|c| c.iter().map(|m| m.map(|m| m.as_str().to_string())).collect())
}

impl Pattern {
    /// Compiles `source`; `None` where the regex engine refuses it.
    pub fn new(source: &str) -> (r: Option<Pattern>)
        ensures
            r is Some == regex_compiles(source@),
            r matches Some(p) ==> p@ == source@,
    {
        match compile(source) {
            Ok(compiled) => Some(Pattern { source: source.to_string(), compiled }),
            Err(_) => None,
        }
    }

    /// The groups of the leftmost match in `text`, or `None` where there is none.
    pub fn captures(&self, text: &str) -> (r: Option<Vec<Option<String>>>)
        ensures
            r matches Some(v) ==> regex_captures(self@, text@) == Some(groups_view(v@)),
            r is None ==> regex_captures(self@, text@) is None,
    {
        captures(self, text)
    }
}

/// The summary shown for the temperature range `range` and the rain
/// probability `rain`.
pub open spec fn summary_text(range: Seq<char>, rain: Seq<char>) -> Seq<char> {
    "温度:"@ + range + ",降水概率:"@ + rain
}

/// The text shown for a match with groups `groups` (`None`: no match).
pub open spec fn display_of_groups(groups: Option<Seq<Option<Seq<char>>>>) -> Seq<char> {
    match groups {
        Some(g) => if g.len() >= 3 && g[1] is Some && g[2] is Some {
            summary_text(g[1]->Some_0, g[2]->Some_0)
        } else {
            NO_MATCH_TEXT@
        },
        None => NO_MATCH_TEXT@,
    }
}

/// The text shown for a title: the summary where the weather pattern compiles
/// and matches, the no-match text otherwise.
pub open spec fn weather_text_of(title: Seq<char>) -> Seq<char> {
    if regex_compiles(WEATHER_PATTERN@) {
        display_of_groups(regex_captures(WEATHER_PATTERN@, title))
    } else {
        NO_MATCH_TEXT@
    }
}

/// The text shown for the groups of a match of the weather pattern (`None`:
/// no match).
pub fn display_from_groups(groups: Option<Vec<Option<String>>>) -> (r: String)
    ensures
        r@ == display_of_groups(
            match groups {
                Some(v) => Some(groups_view(v@)),
                None => None,
            },
        ),
{
    match groups {
        Some(v) => {
            if v.len() >= 3 {
                match (&v[1], &v[2]) {
                    (Some(range), Some(rain)) => {
                        let r = String::from_str("温度:").concat(range.as_str()).concat(
                            ",降水概率:",
                        ).concat(rain.as_str());
                        r
                    },
                    _ => NO_MATCH_TEXT.to_string(),
                }
            } else {
                NO_MATCH_TEXT.to_string()
            }
        },
        None => NO_MATCH_TEXT.to_string(),
    }
}

/// The weather text shown for a feed title.
pub fn weather_text(title: &str) -> (r: String)
    ensures
        r@ == weather_text_of(title@),
{
    match Pattern::new(WEATHER_PATTERN) {
        Some(p) => {
            let groups = p.captures(title);
            display_from_groups(groups)
        },
        None => NO_MATCH_TEXT.to_string(),
    }
}

/// The text shown for the outcome of the fetch: the weather text of the
/// fetched title, or the load-failed text where the fetch failed.
pub open spec fn display_of_fetch(fetched: Result<Seq<char>, FetchError>) -> Seq<char> {
    match fetched {
        Ok(title) => weather_text_of(title),
        Err(_) => LOAD_FAILED_TEXT@,
    }
}

/// The text shown once the fetch has ended with `fetched`.
pub fn weather_display(fetched: Result<String, FetchError>) -> (r: String)
    ensures
        r@ == display_of_fetch(
            match fetched {
                Ok(s) => Ok(s@),
                Err(e) => Err(e),
            },
        ),
{
    match fetched {
        Ok(title) => weather_text(title.as_str()),
        Err(_) => LOAD_FAILED_TEXT.to_string(),
    }
}

/// A feed without items yields the placeholder as its text, and what is shown
/// for it is the weather text of the placeholder: never the load-failed text.
pub proof fn lemma_empty_feed_shows_placeholder(body: Seq<u8>)
    requires
        feed_titles(body) == Some(Seq::<Option<Seq<char>>>::empty()),
    ensures
        feed_text_of(body) == Ok::<Seq<char>, FetchError>(PLACEHOLDER_TEXT@),
        display_of_fetch(feed_text_of(body)) == weather_text_of(PLACEHOLDER_TEXT@),
        display_of_fetch(feed_text_of(body)) != LOAD_FAILED_TEXT@,
{
    reveal_strlit("加载失败");
    reveal_strlit("正则失败");
    reveal_strlit("温度:");
    let shown = weather_text_of(PLACEHOLDER_TEXT@);
    if shown != NO_MATCH_TEXT@ {
        assert(shown[0] == LOAD_FAILED_TEXT@[0] ==> false);
    } else {
        assert(shown[1] != LOAD_FAILED_TEXT@[1]);
    }
}

} // verus!
