//! Recognition of file names of the form
//! `[group] title - episode [tags].extension`.

use crate::paths::{file_name, last_component};
use crate::text::{
    is_segment_of, lemma_segment_of_segment, lemma_trimmed_is_segment, pad_episode, to_lowercase,
    trim, trimmed, unicode_lowercase, zero_padded,
};
use vstd::prelude::*;
use vstd::string::StringExecFns;

verus! {

/// The grammar that a base name has to match from its first character to its
/// last. Its groups are, in order: publisher, title, episode, tags, extension.
pub const GRAMMAR: &'static str =
    r"^\[(?P<publisher>[^\]]+)\]\s+(?P<anime>.+?)\s+-\s+(?P<episode>\d+)\s+(?P<tags>\[.+\])(?P<ext>\.\w+)$";

/// What was read from the name of one episode file.
#[derive(Debug, Clone, PartialEq, Eq)]
pub struct AnimeFileInfo {
    /// Label of the release group, without its brackets.
    pub publisher: String,
    /// Name of the show; it becomes the directory of the episode.
    pub anime_name: String,
    /// Episode number, at least two characters wide.
    pub episode: String,
    /// The bracketed block of tags, as it stood in the name.
    pub tags: String,
    /// Extension in lower case, with its dot.
    pub extension: String,
    /// The path that was parsed, as it was given.
    pub original_path: String,
}

/// Mathematical value of an [`AnimeFileInfo`]: each field as its characters.
pub ghost struct EpisodeRecord {
    /// Label of the release group.
    pub publisher: Seq<char>,
    /// Name of the show.
    pub anime_name: Seq<char>,
    /// Episode number.
    pub episode: Seq<char>,
    /// Block of tags.
    pub tags: Seq<char>,
    /// Extension, with its dot.
    pub extension: Seq<char>,
    /// Path of the file.
    pub original_path: Seq<char>,
}

impl EpisodeRecord {
    /// Name of the file inside the directory of its show:
    /// the episode, one space, the tags, the extension.
    pub open spec fn target_filename(self) -> Seq<char> {
        self.episode + seq![' '] + self.tags + self.extension
    }

    /// Whether the episode number has its width of two or more.
    pub open spec fn has_padded_episode(self) -> bool {
        self.episode.len() >= 2
    }

    /// Whether every field but the path was taken from `text`: publisher,
    /// title and tags stand in it as they are, the episode number is a part
    /// of it, padded, and the extension is a part of it in lower case.
    pub open spec fn is_read_from(self, text: Seq<char>) -> bool {
        &&& is_segment_of(self.publisher, text)
        &&& is_segment_of(self.anime_name, text)
        &&& is_segment_of(self.tags, text)
        &&& exists|digits: Seq<char>|
            is_segment_of(digits, text) && self.episode == #[trigger] zero_padded(digits)
        &&& exists|ext: Seq<char>|
            is_segment_of(ext, text) && self.extension == #[trigger] unicode_lowercase(ext)
    }
}

impl View for AnimeFileInfo {
    type V = EpisodeRecord;

    open spec fn view(&self) -> EpisodeRecord {
        EpisodeRecord {
            publisher: self.publisher@,
            anime_name: self.anime_name@,
            episode: self.episode@,
            tags: self.tags@,
            extension: self.extension@,
            original_path: self.original_path@,
        }
    }
}

impl DeepView for AnimeFileInfo {
    type V = EpisodeRecord;

    open spec fn deep_view(&self) -> EpisodeRecord {
        self@
    }
}

impl AnimeFileInfo {
    /// Name of the file inside the directory of its show.
    #[must_use]
    pub fn target_filename(&self) -> (name: String)
        ensures
            name@ == self@.target_filename(),
    {
        let mut name = self.episode.clone();
        proof {
            reveal_strlit(" ");
            assert(" "@ =~= seq![' ']);
        }
        name.append(" ");
        name.append(self.tags.as_str());
        name.append(self.extension.as_str());
        name
    }
}

/// The capture groups that the regular expression `pattern` reports for
/// `haystack`, the whole match first and then each group in the order of its
/// opening bracket; a group that took no part in the match is `None`. The
/// value is `None` where `pattern` is no regular expression or `haystack`
/// does not match it.
pub uninterp spec fn regex_captures(pattern: Seq<char>, haystack: Seq<char>) -> Option<
    Seq<Option<Seq<char>>>,
>;

/// The record made of the five segments of a name and the path they came
/// from. The extension is taken as it is, the other segments are normalised.
pub open spec fn record_of_segments(
    publisher: Seq<char>,
    anime_name: Seq<char>,
    episode: Seq<char>,
    tags: Seq<char>,
    extension: Seq<char>,
    path: Seq<char>,
) -> EpisodeRecord {
    EpisodeRecord {
        publisher: trimmed(publisher),
        anime_name: trimmed(anime_name),
        episode: zero_padded(episode),
        tags: trimmed(tags),
        extension,
        original_path: path,
    }
}

/// Whether the five groups of the grammar all took part in a match.
pub open spec fn has_all_groups(groups: Seq<Option<Seq<char>>>) -> bool {
    &&& groups.len() >= 6
    &&& groups[1] is Some
    &&& groups[2] is Some
    &&& groups[3] is Some
    &&& groups[4] is Some
    &&& groups[5] is Some
}

/// The record that the groups of a match stand for, if they are all there.
pub open spec fn record_of_captures(groups: Seq<Option<Seq<char>>>, path: Seq<char>) -> Option<
    EpisodeRecord,
> {
    if has_all_groups(groups) {
        Some(
            record_of_segments(
                groups[1]->0,
                groups[2]->0,
                groups[3]->0,
                groups[4]->0,
                unicode_lowercase(groups[5]->0),
                path,
            ),
        )
    } else {
        None
    }
}

/// The record that the base name `name` of the file at `path` stands for;
/// `None` where the name does not match the grammar.
pub open spec fn recognized(name: Seq<char>, path: Seq<char>) -> Option<EpisodeRecord> {
    match regex_captures(GRAMMAR@, name) {
        Some(groups) => record_of_captures(groups, path),
        None => None,
    }
}

/// The record that the file at `path` stands for: the one that its base
/// name stands for. A path without a base name stands for none.
pub open spec fn recognized_at(path: Seq<char>) -> Option<EpisodeRecord> {
    match last_component(path) {
        Some(name) => recognized(name, path),
        None => None,
    }
}

/// What a match gives. Where the grammar matches `name` and reports the
/// five groups, the record holds the publisher, the title and the tags
/// without the white space around them, the episode number padded to a width
/// of two and otherwise as it stood, the extension in lower case, and the
/// path as it was given.
pub proof fn lemma_match_gives_record(
    name: Seq<char>,
    path: Seq<char>,
    groups: Seq<Option<Seq<char>>>,
)
    requires
        regex_captures(GRAMMAR@, name) == Some(groups),
        has_all_groups(groups),
    ensures
        recognized(name, path) == Some(
            EpisodeRecord {
                publisher: trimmed(groups[1]->0),
                anime_name: trimmed(groups[2]->0),
                episode: zero_padded(groups[3]->0),
                tags: trimmed(groups[4]->0),
                extension: unicode_lowercase(groups[5]->0),
                original_path: path,
            },
        ),
        recognized(name, path)->0.has_padded_episode(),
        groups[3]->0.len() >= 2 ==> recognized(name, path)->0.episode == groups[3]->0,
{
}

/// There is no partial match: a name that the grammar does not match, or of
/// which it does not report every group, gives no record.
pub proof fn lemma_no_match_gives_no_record(name: Seq<char>, path: Seq<char>)
    requires
        regex_captures(GRAMMAR@, name) matches Some(groups) ==> !has_all_groups(groups),
    ensures
        recognized(name, path) is None,
{
}

/// A record made of groups that are parts of a name is read from that name.
proof fn lemma_record_is_read_from(
    groups: Seq<Option<Seq<char>>>,
    name: Seq<char>,
    path: Seq<char>,
)
    requires
        has_all_groups(groups),
        forall|i: int| 1 <= i <= 5 ==> is_segment_of(#[trigger] groups[i]->0, name),
    ensures
        record_of_captures(groups, path)->0.is_read_from(name),
{
    let record = record_of_captures(groups, path)->0;
    assert(is_segment_of(groups[1]->0, name));
    assert(is_segment_of(groups[2]->0, name));
    assert(is_segment_of(groups[3]->0, name));
    assert(is_segment_of(groups[4]->0, name));
    assert(is_segment_of(groups[5]->0, name));
    lemma_trimmed_is_segment(groups[1]->0);
    lemma_segment_of_segment(record.publisher, groups[1]->0, name);
    lemma_trimmed_is_segment(groups[2]->0);
    lemma_segment_of_segment(record.anime_name, groups[2]->0, name);
    lemma_trimmed_is_segment(groups[4]->0);
    lemma_segment_of_segment(record.tags, groups[4]->0, name);
    assert(record.episode == zero_padded(groups[3]->0));
    assert(record.extension == unicode_lowercase(groups[5]->0));
}

/// What was read from a part of a text was read from the text.
proof fn lemma_read_from_a_part(record: EpisodeRecord, part: Seq<char>, whole: Seq<char>)
    requires
        record.is_read_from(part),
        is_segment_of(part, whole),
    ensures
        record.is_read_from(whole),
{
    lemma_segment_of_segment(record.publisher, part, whole);
    lemma_segment_of_segment(record.anime_name, part, whole);
    lemma_segment_of_segment(record.tags, part, whole);
    let digits = choose|digits: Seq<char>|
        is_segment_of(digits, part) && record.episode == #[trigger] zero_padded(digits);
    lemma_segment_of_segment(digits, part, whole);
    let ext = choose|ext: Seq<char>|
        is_segment_of(ext, part) && record.extension == #[trigger] unicode_lowercase(ext);
    lemma_segment_of_segment(ext, part, whole);
}

/// `regex::Regex::new` on `pattern`, then `Regex::captures` of the result on
/// `haystack`, read off with `Captures::iter` and `Match::as_str`. The groups
/// come back as [`regex_captures`] names them; a pattern that does not
/// compile gives `None`, as a haystack that does not match does. Of what the
/// groups hold only this is claimed: each is a substring of the haystack.
#[verifier::external_body]
fn captures(pattern: &str, haystack: &str) -> (groups: Option<Vec<Option<String>>>)
    ensures
        groups.deep_view() == regex_captures(pattern@, haystack@),
        groups matches Some(found) ==> forall|i: int|
            0 <= i < found.len() ==> (#[trigger] found[i] matches Some(group) ==> is_segment_of(
                group@,
                haystack@,
            )),
{
    let compiled = regex::Regex::new(pattern).ok()?;
    let found = compiled.captures(haystack)?;
    Some(found.iter().map(|group| group.map(|m| m.as_str().to_owned())).collect())
}

impl AnimeFileInfo {
    /// Builds the record of a file from the segments of its name: publisher,
    /// title and tags are trimmed, the episode number is padded, and the
    /// extension, which the caller has brought to lower case, is kept.
    pub fn from_segments(
        publisher: &str,
        anime_name: &str,
        episode: &str,
        tags: &str,
        extension: String,
        original_path: &str,
    ) -> (info: AnimeFileInfo)
        ensures
            info@ == record_of_segments(
                publisher@,
                anime_name@,
                episode@,
                tags@,
                extension@,
                original_path@,
            ),
            info@.has_padded_episode(),
    {
        AnimeFileInfo {
            publisher: String::from_str(trim(publisher)),
            anime_name: String::from_str(trim(anime_name)),
            episode: pad_episode(episode),
            tags: String::from_str(trim(tags)),
            extension,
            original_path: String::from_str(original_path),
        }
    }
}

/// Recogniser of episode file names.
pub struct FilenameParser;

impl FilenameParser {
    /// Reads the record out of the groups of a match against [`GRAMMAR`].
    /// There is a record exactly when all five groups are there.
    pub fn from_captures(groups: &Vec<Option<String>>, file_path: &str) -> (info: Option<
        AnimeFileInfo,
    >)
        ensures
            info.deep_view() == record_of_captures(groups.deep_view(), file_path@),
            info matches Some(found) ==> found@.has_padded_episode(),
    {
        if groups.len() < 6 {
            return None;
        }
        match (&groups[1], &groups[2], &groups[3], &groups[4], &groups[5]) {
            (Some(publisher), Some(anime_name), Some(episode), Some(tags), Some(extension)) => {
                Some(
                    AnimeFileInfo::from_segments(
                        publisher.as_str(),
                        anime_name.as_str(),
                        episode.as_str(),
                        tags.as_str(),
                        to_lowercase(extension.as_str()),
                        file_path,
                    ),
                )
            },
            _ => None,
        }
    }

    /// Parses the base name `name` of the file at `file_path`. The whole name
    /// has to match the grammar; there is no partial match.
    pub fn parse_file_name(name: &str, file_path: &str) -> (info: Option<AnimeFileInfo>)
        ensures
            info.deep_view() == recognized(name@, file_path@),
            info matches Some(found) ==> found@.has_padded_episode() && found@.is_read_from(
                name@,
            ),
    {
        match captures(GRAMMAR, name) {
            Some(groups) => {
                let info = Self::from_captures(&groups, file_path);
                proof {
                    if info is Some {
                        let found = groups.deep_view();
                        assert forall|i: int| 1 <= i <= 5 implies is_segment_of(
                            #[trigger] found[i]->0,
                            name@,
                        ) by {
                            assert(groups[i] is Some);
                        }
                        lemma_record_is_read_from(found, name@, file_path@);
                    }
                }
                info
            },
            None => None,
        }
    }

    /// Parses the file at `file_path` by its base name, the last component
    /// of the path: there is a record exactly when the path has a base name
    /// and the whole of it matches the grammar, and the record is what
    /// [`recognized`] reads out of that name. It carries `file_path` as it
    /// was given, and all its other fields are read from the path.
    #[must_use]
    pub fn parse(file_path: &str) -> (info: Option<AnimeFileInfo>)
        ensures
            info.deep_view() == recognized_at(file_path@),
            info matches Some(found) ==> {
                &&& found@.original_path == file_path@
                &&& found@.has_padded_episode()
                &&& found@.is_read_from(file_path@)
            },
    {
        match file_name(file_path) {
            Some(name) => {
                let info = Self::parse_file_name(name, file_path);
                proof {
                    if info is Some {
                        lemma_read_from_a_part(info->0@, name@, file_path@);
                    }
                }
                info
            },
            None => None,
        }
    }
}

} // verus!
