//! From the raw name of an archive to the name of the file it holds:
//! an episode of a series, or a movie.

use crate::numbers::{decimal, decimal_chars, parse_number, parsed, two_digit_chars, two_digits};
use crate::paths::{file_stem, stem_of};
use crate::text::{append_chars, chars_of, replace_char, replaced, text_of, trim, trimmed};
use vstd::prelude::*;

verus! {

/// The shape of an episode's name: a name, then `s` and a season of one or
/// two digits, at most one character between, then `e` and an episode of
/// one or two digits.
pub const EPISODE_PATTERN: &'static str =
    r"(?P<name>.*)[sS](?P<season>\d{1,2}).?[eE](?P<episode>\d{1,2})";

/// The shape of a movie's name: a name, a period and a year of four
/// digits. The name takes all it can, so that the last such year counts.
pub const MOVIE_PATTERN: &'static str = r"(?P<name>.*)\.(?P<year>\d{4})";

/// The greatest length of a captured name, in characters: that of the
/// longest file name that common filesystems hold.
pub const NAME_LIMIT: usize = 255;

/// What a raw name was found to be.
#[derive(Debug, PartialEq, Eq)]
pub enum NamingResult {
    /// An episode of a series.
    Episode { title: String, season: u32, episode: u32 },
    /// A movie.
    Movie { title: String, year: u32 },
}

/// A `NamingResult` as plain values.
pub enum Naming {
    Episode { title: Seq<char>, season: nat, episode: nat },
    Movie { title: Seq<char>, year: nat },
}

impl View for NamingResult {
    type V = Naming;

    open spec fn view(&self) -> Naming {
        match *self {
            NamingResult::Episode { title, season, episode } => Naming::Episode {
                title: title@,
                season: season as nat,
                episode: episode as nat,
            },
            NamingResult::Movie { title, year } => Naming::Movie {
                title: title@,
                year: year as nat,
            },
        }
    }
}

/// Why a raw name was given no destination name.
#[derive(Clone, Copy, Debug, PartialEq, Eq)]
pub enum ClassificationError {
    /// The name has neither the shape of an episode nor that of a movie.
    NoPatternMatch,
    /// The name has one of the shapes, but a part of it was not captured
    /// in a form that can be used: a group took no part in the match, the
    /// name is longer than `NAME_LIMIT`, or a number is not written in the
    /// digits `0` to `9` or does not fit in 32 bits.
    MissingCapture,
}

/// Why the path of an archive was given no destination name.
#[derive(Clone, Copy, Debug, PartialEq, Eq)]
pub enum NamingError {
    /// The path names no file.
    NoFileStem,
    /// The stem of the file name could not be classified.
    Unclassified(ClassificationError),
}

/// Whether the pattern engine takes the pattern.
pub uninterp spec fn pattern_accepted(pattern: Seq<char>) -> bool;

/// The capture groups of the first match of an accepted pattern in a text,
/// in the order of their opening parentheses, the whole match first. A
/// group that took no part in the match is `None`.
pub uninterp spec fn pattern_captures(pattern: Seq<char>, text: Seq<char>) -> Option<
    Seq<Option<Seq<char>>>,
>;

/// The text in title case.
pub uninterp spec fn titlecase_of(text: Seq<char>) -> Seq<char>;

/// `regex::Error`: why the pattern engine turned a pattern down. Nothing
/// is said of what it holds.
#[verifier::external_type_specification]
#[verifier::external_body]
pub struct ExPatternError(regex::Error);

/// Capture groups as plain values.
pub open spec fn group_texts(groups: Seq<Option<String>>) -> Seq<Option<Seq<char>>> {
    Seq::new(
        groups.len(),
        |i: int|
            match groups[i] {
                Some(text) => Some(text@),
                None => None,
            },
    )
}

/// `regex::Regex::new` compiles the pattern, and `Regex::captures` searches
/// the text for its first match; `Captures::iter` and `Match::as_str` hand
/// out the text of each group. Whether the pattern compiles depends on the
/// pattern alone, and what is captured on the pattern and the text alone:
/// the contract gives the two their names and claims no more.
#[verifier::external_body]
fn captures(pattern: &str, text: &str) -> (r: Result<Option<Vec<Option<String>>>, regex::Error>)
    ensures
        r is Ok <==> pattern_accepted(pattern@),
        r matches Ok(found) ==> match found {
            Some(groups) => pattern_captures(pattern@, text@) == Some(group_texts(groups@)),
            None => pattern_captures(pattern@, text@) is None,
        },
{
    let compiled = regex::Regex::new(pattern)?;
    Ok(
        compiled.captures(text).map(
            |found| found.iter().map(|group| group.map(|m| m.as_str().to_string())).collect(),
        ),
    )
}

/// `titlecase::titlecase` puts a text in title case. Its result depends on
/// the text alone; the contract gives it a name and claims no more. The
/// function calls itself once for each opening parenthesis that a word
/// begins with, so the length of the text is bounded to bound that depth.
#[verifier::external_body]
fn title_case(text: &str) -> (title: String)
    requires
        text@.len() <= NAME_LIMIT,
    ensures
        title@ == titlecase_of(text@),
{
    titlecase::titlecase(text)
}

/// The groups that a pattern captures in a text. A pattern that the engine
/// turns down matches nothing.
pub open spec fn matched_groups(pattern: Seq<char>, text: Seq<char>) -> Option<
    Seq<Option<Seq<char>>>,
> {
    if pattern_accepted(pattern) {
        pattern_captures(pattern, text)
    } else {
        None
    }
}

/// Whether a raw name has the shape of an episode's name.
pub open spec fn matches_episode(raw: Seq<char>) -> bool {
    matched_groups(EPISODE_PATTERN@, raw) is Some
}

/// Whether a raw name has the shape of a movie's name.
pub open spec fn matches_movie(raw: Seq<char>) -> bool {
    matched_groups(MOVIE_PATTERN@, raw) is Some
}

/// The group at a place, where there is one and it took part in the match.
pub open spec fn group_at(groups: Seq<Option<Seq<char>>>, place: int) -> Option<Seq<char>> {
    if 0 <= place < groups.len() {
        groups[place]
    } else {
        None
    }
}

/// The title that a captured name stands for: periods become spaces, the
/// white space at both ends goes, and the rest is put in title case.
pub open spec fn title_of(name: Seq<char>) -> Seq<char> {
    titlecase_of(trimmed(replaced(name, '.', ' ')))
}

/// What the groups of an episode's name say: name, season and episode are
/// the groups 1, 2 and 3.
pub open spec fn episode_naming(groups: Seq<Option<Seq<char>>>) -> Result<
    Naming,
    ClassificationError,
> {
    match (group_at(groups, 1), group_at(groups, 2), group_at(groups, 3)) {
        (Some(name), Some(season), Some(episode)) => match (parsed(season), parsed(episode)) {
            (Some(s), Some(e)) => if name.len() <= NAME_LIMIT {
                Ok(Naming::Episode { title: title_of(name), season: s as nat, episode: e as nat })
            } else {
                Err(ClassificationError::MissingCapture)
            },
            _ => Err(ClassificationError::MissingCapture),
        },
        _ => Err(ClassificationError::MissingCapture),
    }
}

/// What the groups of a movie's name say: name and year are the groups 1
/// and 2.
pub open spec fn movie_naming(groups: Seq<Option<Seq<char>>>) -> Result<
    Naming,
    ClassificationError,
> {
    match (group_at(groups, 1), group_at(groups, 2)) {
        (Some(name), Some(year)) => match parsed(year) {
            Some(y) => if name.len() <= NAME_LIMIT {
                Ok(Naming::Movie { title: title_of(name), year: y as nat })
            } else {
                Err(ClassificationError::MissingCapture)
            },
            None => Err(ClassificationError::MissingCapture),
        },
        _ => Err(ClassificationError::MissingCapture),
    }
}

/// What a raw name is: the episode's shape is tried first, then the
/// movie's.
pub open spec fn classification(raw: Seq<char>) -> Result<Naming, ClassificationError> {
    match matched_groups(EPISODE_PATTERN@, raw) {
        Some(groups) => episode_naming(groups),
        None => match matched_groups(MOVIE_PATTERN@, raw) {
            Some(groups) => movie_naming(groups),
            None => Err(ClassificationError::NoPatternMatch),
        },
    }
}

/// The destination name of a classified name: `Title - SxxEyy` for an
/// episode, with season and episode in at least two digits, and
/// `Title (year)` for a movie.
pub open spec fn rendered(naming: Naming) -> Seq<char> {
    match naming {
        Naming::Episode { title, season, episode } => title + seq![' ', '-', ' ', 'S']
            + two_digits(season) + seq!['E'] + two_digits(episode),
        Naming::Movie { title, year } => title + seq![' ', '('] + decimal(year) + seq![')'],
    }
}

/// The destination name of the archive at a path.
pub open spec fn destination_name(path: Seq<char>) -> Result<Seq<char>, NamingError> {
    match stem_of(path) {
        None => Err(NamingError::NoFileStem),
        Some(stem) => match classification(stem) {
            Ok(naming) => Ok(rendered(naming)),
            Err(e) => Err(NamingError::Unclassified(e)),
        },
    }
}

/// Whether a computed result is the one that was specified.
pub open spec fn names<T: View, E>(result: Result<T, E>, expected: Result<T::V, E>) -> bool {
    match result {
        Ok(value) => expected == Ok::<T::V, E>(value@),
        Err(e) => expected == Err::<T::V, E>(e),
    }
}

/// A name with the shape of an episode is read as an episode, and never
/// as a movie, whether or not it has the shape of a movie too.
pub proof fn lemma_episode_shape_wins(raw: Seq<char>)
    requires
        matches_episode(raw),
    ensures
        classification(raw) == episode_naming(matched_groups(EPISODE_PATTERN@, raw)->0),
        classification(raw) matches Ok(naming) ==> naming is Episode,
{
}

/// A name with the shape of a movie only is read as a movie.
pub proof fn lemma_movie_shape_only(raw: Seq<char>)
    requires
        !matches_episode(raw),
        matches_movie(raw),
    ensures
        classification(raw) == movie_naming(matched_groups(MOVIE_PATTERN@, raw)->0),
        classification(raw) matches Ok(naming) ==> naming is Movie,
{
}

/// A name with neither shape is given no destination name.
pub proof fn lemma_no_shape_no_name(raw: Seq<char>)
    requires
        !matches_episode(raw),
        !matches_movie(raw),
    ensures
        classification(raw) == Err::<Naming, ClassificationError>(
            ClassificationError::NoPatternMatch,
        ),
{
}

fn find_groups(pattern: &str, text: &str) -> (found: Option<Vec<Option<String>>>)
    ensures
        match found {
            Some(groups) => matched_groups(pattern@, text@) == Some(group_texts(groups@)),
            None => matched_groups(pattern@, text@) is None,
        },
{
    match captures(pattern, text) {
        Ok(found) => found,
        Err(_) => None,
    }
}

fn group_chars(groups: &Vec<Option<String>>, place: usize) -> (chars: Option<Vec<char>>)
    ensures
        match chars {
            Some(c) => group_at(group_texts(groups@), place as int) == Some(c@),
            None => group_at(group_texts(groups@), place as int) is None,
        },
{
    if place < groups.len() {
        match &groups[place] {
            Some(text) => Some(chars_of(text.as_str())),
            None => None,
        }
    } else {
        None
    }
}

/// The title that a captured name stands for.
pub fn title_from_name(name: &Vec<char>) -> (title: String)
    requires
        name@.len() <= NAME_LIMIT,
    ensures
        title@ == title_of(name@),
{
    let spaced = replace_char(name, '.', ' ');
    let bare = trim(&spaced);
    let text = text_of(&bare);
    title_case(text.as_str())
}

/// Reads an episode out of the groups that the episode's pattern captured.
pub fn episode_from_groups(groups: &Vec<Option<String>>) -> (r: Result<
    NamingResult,
    ClassificationError,
>)
    ensures
        names(r, episode_naming(group_texts(groups@))),
{
    let name = match group_chars(groups, 1) {
        Some(chars) => chars,
        None => { return Err(ClassificationError::MissingCapture); },
    };
    let season = match group_chars(groups, 2) {
        Some(chars) => chars,
        None => { return Err(ClassificationError::MissingCapture); },
    };
    let episode = match group_chars(groups, 3) {
        Some(chars) => chars,
        None => { return Err(ClassificationError::MissingCapture); },
    };
    match (parse_number(&season), parse_number(&episode)) {
        (Some(s), Some(e)) => if name.len() <= NAME_LIMIT {
            Ok(NamingResult::Episode { title: title_from_name(&name), season: s, episode: e })
        } else {
            Err(ClassificationError::MissingCapture)
        },
        _ => Err(ClassificationError::MissingCapture),
    }
}

/// Reads a movie out of the groups that the movie's pattern captured.
pub fn movie_from_groups(groups: &Vec<Option<String>>) -> (r: Result<
    NamingResult,
    ClassificationError,
>)
    ensures
        names(r, movie_naming(group_texts(groups@))),
{
    let name = match group_chars(groups, 1) {
        Some(chars) => chars,
        None => { return Err(ClassificationError::MissingCapture); },
    };
    let year = match group_chars(groups, 2) {
        Some(chars) => chars,
        None => { return Err(ClassificationError::MissingCapture); },
    };
    match parse_number(&year) {
        Some(y) => if name.len() <= NAME_LIMIT {
            Ok(NamingResult::Movie { title: title_from_name(&name), year: y })
        } else {
            Err(ClassificationError::MissingCapture)
        },
        None => Err(ClassificationError::MissingCapture),
    }
}

/// Classifies the raw name of an archive: as an episode where it has the
/// shape of one, else as a movie where it has that shape.
pub fn classify(raw: &str) -> (r: Result<NamingResult, ClassificationError>)
    ensures
        names(r, classification(raw@)),
{
    match find_groups(EPISODE_PATTERN, raw) {
        Some(groups) => episode_from_groups(&groups),
        None => match find_groups(MOVIE_PATTERN, raw) {
            Some(groups) => movie_from_groups(&groups),
            None => Err(ClassificationError::NoPatternMatch),
        },
    }
}

/// Writes the destination name of a classified name.
pub fn render(naming: &NamingResult) -> (name: String)
    ensures
        name@ == rendered(naming@),
{
    match naming {
        NamingResult::Episode { title, season, episode } => {
            let mut chars = chars_of(title.as_str());
            chars.push(' ');
            chars.push('-');
            chars.push(' ');
            chars.push('S');
            let season_digits = two_digit_chars(*season);
            append_chars(&mut chars, &season_digits);
            chars.push('E');
            let episode_digits = two_digit_chars(*episode);
            append_chars(&mut chars, &episode_digits);
            text_of(&chars)
        },
        NamingResult::Movie { title, year } => {
            let mut chars = chars_of(title.as_str());
            chars.push(' ');
            chars.push('(');
            let year_digits = decimal_chars(*year);
            append_chars(&mut chars, &year_digits);
            chars.push(')');
            text_of(&chars)
        },
    }
}

/// The destination name of the archive at a path: the stem of its file
/// name, classified and written out.
pub fn get_destination_file_name(rar_file: &str) -> (r: Result<String, NamingError>)
    ensures
        names(r, destination_name(rar_file@)),
{
    let stem = match file_stem(rar_file) {
        Some(stem) => stem,
        None => { return Err(NamingError::NoFileStem); },
    };
    match classify(stem.as_str()) {
        Ok(naming) => Ok(render(&naming)),
        Err(e) => Err(NamingError::Unclassified(e)),
    }
}

} // verus!
