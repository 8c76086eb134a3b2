//! Episode metadata, read from a job's input path.
//!
//! A path of the layout `Series/<show>[ {tvdb-N}]/Season NN[ - extra]/..SxxExx..`
//! (or the same under `Anime`) names a series, a season and an episode. The
//! layout is written down as a regular expression and matched by the `regex`
//! crate; what is made of the matched groups is verified here.

use vstd::prelude::*;
use crate::paths::opt_view;
use crate::text::{parse_u32, parsed_unsigned, trim, trimmed};

verus! {

/// Kind of content that a media file belongs to.
#[derive(Debug, Clone, Copy, PartialEq, Eq, PartialOrd, Ord, Structural)]
pub enum ContentType {
    Movie,
    Series,
}

/// Series, season and episode of a media file.
#[derive(Debug, PartialEq, Eq, PartialOrd, Ord)]
pub struct EpisodeMetadata {
    pub series_name: String,
    pub season_number: u32,
    pub episode_number: u32,
    pub content_type: ContentType,
}

/// Episode metadata as plain values.
pub struct EpisodeView {
    pub series_name: Seq<char>,
    pub season_number: u32,
    pub episode_number: u32,
    pub content_type: ContentType,
}

impl View for EpisodeMetadata {
    type V = EpisodeView;

    open spec fn view(&self) -> EpisodeView {
        EpisodeView {
            series_name: self.series_name@,
            season_number: self.season_number,
            episode_number: self.episode_number,
            content_type: self.content_type,
        }
    }
}

impl Clone for EpisodeMetadata {
    fn clone(&self) -> (r: Self)
        ensures
            r == *self,
    {
        EpisodeMetadata {
            series_name: self.series_name.clone(),
            season_number: self.season_number,
            episode_number: self.episode_number,
            content_type: self.content_type,
        }
    }
}

/// The view of optional metadata.
pub open spec fn opt_episode_view(m: Option<EpisodeMetadata>) -> Option<EpisodeView> {
    match m {
        Some(m) => Some(m@),
        None => None,
    }
}

/// The characters that have a meaning of their own in a regular expression.
pub open spec fn is_meta_character(c: char) -> bool {
    c == '\\' || c == '.' || c == '+' || c == '*' || c == '?' || c == '(' || c == ')' || c == '|'
        || c == '[' || c == ']' || c == '{' || c == '}' || c == '^' || c == '$' || c == '#' || c
        == '&' || c == '-' || c == '~'
}

/// `s` with a backslash before each character that has a meaning of its own
/// in a regular expression.
pub open spec fn escaped(s: Seq<char>) -> Seq<char>
    decreases s.len(),
{
    if s.len() == 0 {
        Seq::empty()
    } else if is_meta_character(s.last()) {
        escaped(s.drop_last()).push('\\').push(s.last())
    } else {
        escaped(s.drop_last()).push(s.last())
    }
}

/// Trusted: `regex::escape`. It goes through the text once and writes a
/// backslash before each of the crate's meta characters, which is `escaped`.
#[verifier::external_body]
fn escape(s: &str) -> (r: String)
    ensures
        r@ == escaped(s@),
{
    regex::escape(s)
}

/// What the `regex` crate finds for a pattern in a text: nothing where it
/// does not take the pattern for a regular expression or the pattern
/// matches nowhere; else, for the leftmost match, the text of each group by
/// its number, group 0 being the whole match and a group that took no part
/// being absent.
pub uninterp spec fn regex_captures(pattern: Seq<char>, text: Seq<char>) -> Option<
    Seq<Option<Seq<char>>>,
>;

/// The groups of a match as plain values.
pub open spec fn groups_view(groups: Vec<Option<String>>) -> Seq<Option<Seq<char>>> {
    groups@.map_values(|g: Option<String>| opt_view(g))
}

/// Trusted: `regex::Regex::captures`, on the text and the expression that
/// `regex::Regex::new` makes of the pattern, the groups copied out in
/// order. The result is what the crate finds, named `regex_captures`.
#[verifier::external_body]
fn captures(pattern: &str, text: &str) -> (r: Option<Vec<Option<String>>>)
    ensures
        match r {
            Some(groups) => regex_captures(pattern@, text@) == Some(groups_view(groups)),
            None => regex_captures(pattern@, text@) is None,
        },
{
    let re = regex::Regex::new(pattern).ok()?;
    re.captures(text).map(|found| found.iter().map(|g| g.map(|m| m.as_str().to_string())).collect())
}

/// What follows the content directory in the layout of an episode's path:
/// the show's directory, with or without a database tag; the season's
/// directory, two digits, with or without a remark; and, anywhere in what
/// follows, season and episode as two digits each.
pub open spec fn layout_tail() -> Seq<char> {
    r"/([^/]+?)(?:\s*\{tvdb-\d+\})?/Season\s+(\d{2})(?:\s*-[^/]*)?/.*?[Ss](\d{2})[Ee](\d{2})"@
}

/// The pattern of an episode's path under the content directory `prefix`.
pub open spec fn layout_pattern(prefix: Seq<char>) -> Seq<char> {
    escaped(prefix) + layout_tail()
}

/// Group `i` of a match, absent where there is no such group.
pub open spec fn group(groups: Seq<Option<Seq<char>>>, i: int) -> Option<Seq<char>> {
    if 0 <= i < groups.len() {
        groups[i]
    } else {
        None
    }
}

/// The metadata that the groups of a match give: the show's name without
/// white space around it, and season and episode as numbers, where all four
/// groups are there, the three numbers read as such, and the season of the
/// directory agrees with the season of the file.
pub open spec fn metadata_from_groups(groups: Seq<Option<Seq<char>>>) -> Option<EpisodeView> {
    match (group(groups, 1), group(groups, 2), group(groups, 3), group(groups, 4)) {
        (Some(name), Some(season), Some(file_season), Some(episode)) => match (
            parsed_unsigned(season, u32::MAX as nat),
            parsed_unsigned(file_season, u32::MAX as nat),
            parsed_unsigned(episode, u32::MAX as nat),
        ) {
            (Some(s), Some(fs), Some(e)) => if s == fs {
                Some(
                    EpisodeView {
                        series_name: trimmed(name),
                        season_number: s as u32,
                        episode_number: e as u32,
                        content_type: ContentType::Series,
                    },
                )
            } else {
                None
            },
            _ => None,
        },
        _ => None,
    }
}

/// The metadata of a path under the content directory `prefix`.
pub open spec fn metadata_under(path: Seq<char>, prefix: Seq<char>) -> Option<EpisodeView> {
    match regex_captures(layout_pattern(prefix), path) {
        Some(groups) => metadata_from_groups(groups),
        None => None,
    }
}

/// The metadata of a path: as a series, else as an anime, else none.
pub open spec fn metadata_of(path: Seq<char>) -> Option<EpisodeView> {
    match metadata_under(path, "Series"@) {
        Some(m) => Some(m),
        None => metadata_under(path, "Anime"@),
    }
}

fn group_text(groups: &Vec<Option<String>>, i: usize) -> (r: Option<&String>)
    ensures
        match r {
            Some(s) => group(groups_view(*groups), i as int) == Some(s@),
            None => group(groups_view(*groups), i as int) is None,
        },
{
    if i < groups.len() {
        match &groups[i] {
            Some(s) => Some(s),
            None => None,
        }
    } else {
        None
    }
}

impl EpisodeMetadata {
    /// The metadata that the groups of a match give, if they give any.
    pub fn from_groups(groups: &Vec<Option<String>>) -> (r: Option<EpisodeMetadata>)
        ensures
            opt_episode_view(r) == metadata_from_groups(groups_view(*groups)),
    {
        let name = match group_text(groups, 1) {
            Some(s) => s,
            None => { return None; },
        };
        let season_text = match group_text(groups, 2) {
            Some(s) => s,
            None => { return None; },
        };
        let file_season_text = match group_text(groups, 3) {
            Some(s) => s,
            None => { return None; },
        };
        let episode_text = match group_text(groups, 4) {
            Some(s) => s,
            None => { return None; },
        };
        let series_name = trim(name.as_str());
        let season_number = match parse_u32(season_text.as_str()) {
            Some(n) => n,
            None => { return None; },
        };
        let file_season = match parse_u32(file_season_text.as_str()) {
            Some(n) => n,
            None => { return None; },
        };
        let episode_number = match parse_u32(episode_text.as_str()) {
            Some(n) => n,
            None => { return None; },
        };
        if season_number != file_season {
            return None;
        }
        Some(
            EpisodeMetadata {
                series_name,
                season_number,
                episode_number,
                content_type: ContentType::Series,
            },
        )
    }

    /// The metadata of a path under the content directory `prefix`, which
    /// is taken letter by letter, whatever characters it holds.
    pub fn under(path: &str, prefix: &str) -> (r: Option<EpisodeMetadata>)
        ensures
            opt_episode_view(r) == metadata_under(path@, prefix@),
    {
        let pattern = escape(prefix).concat(
            r"/([^/]+?)(?:\s*\{tvdb-\d+\})?/Season\s+(\d{2})(?:\s*-[^/]*)?/.*?[Ss](\d{2})[Ee](\d{2})",
        );
        match captures(pattern.as_str(), path) {
            Some(groups) => Self::from_groups(&groups),
            None => None,
        }
    }

    /// The metadata of a path: read as a series, else as an anime.
    pub fn of_path(path: &str) -> (r: Option<EpisodeMetadata>)
        ensures
            opt_episode_view(r) == metadata_of(path@),
    {
        match Self::under(path, "Series") {
            Some(m) => Some(m),
            None => Self::under(path, "Anime"),
        }
    }
}

} // verus!
